//! Naming and reporting rules of the PDF jobs.
//!
//! Page `p` (counted from zero) of `dir/report.pdf` is saved as
//! `dir/report_page_{p + 1}.jpg`. A document that cannot be opened for want
//! of a password raises a `job-event` that asks the user interface for one.

use vstd::prelude::*;
use vstd::string::StringExecFns;
use crate::payload::{CommandPayloadIPC, JobEvent, UIAction};
use crate::text::{chars_of, decimal, lemma_decimal_injective, push_char, push_decimal};

verus! {

/// The name of the event emitted to the user interface about jobs.
pub const JOB_EVENT_NAME: &'static str = "job-event";

/// The position of the last `.` of a text, if any.
pub open spec fn last_dot(s: Seq<char>) -> Option<int>
    decreases s.len(),
{
    if s.len() == 0 {
        None
    } else if s.last() == '.' {
        Some(s.len() - 1)
    } else {
        last_dot(s.drop_last())
    }
}

/// A path with its extension removed: the text before the last `.`, or the
/// whole text when it has none (`rsplit_once('.')`).
pub open spec fn without_extension(s: Seq<char>) -> Seq<char> {
    match last_dot(s) {
        Some(i) => s.subrange(0, i),
        None => s,
    }
}

/// The file a rendered page is saved to.
pub open spec fn page_output_path(resource_path: Seq<char>, page_index: nat) -> Seq<char> {
    without_extension(resource_path) + "_page_"@ + decimal(page_index + 1) + ".jpg"@
}

/// `last_dot` finds a `.` that no later `.` follows.
pub proof fn lemma_last_dot(s: Seq<char>)
    ensures
        match last_dot(s) {
            Some(i) => 0 <= i < s.len() && s[i] == '.' && forall|j: int| i < j < s.len() ==> s[j] != '.',
            None => forall|j: int| 0 <= j < s.len() ==> s[j] != '.',
        },
    decreases s.len(),
{
    if s.len() > 0 && s.last() != '.' {
        let t = s.drop_last();
        lemma_last_dot(t);
        assert(forall|j: int| 0 <= j < t.len() ==> t[j] == s[j]);
    }
}

/// A path whose last `.` is at `i` loses that dot and all that follows it,
/// whatever the characters after the dot are.
pub proof fn lemma_without_extension_cuts_at_last_dot(s: Seq<char>, i: int)
    requires
        0 <= i < s.len(),
        s[i] == '.',
        forall|j: int| i < j < s.len() ==> s[j] != '.',
    ensures
        without_extension(s) == s.subrange(0, i),
{
    lemma_last_dot(s);
    match last_dot(s) {
        Some(k) => {
            if k < i {
                assert(s[i] != '.');
            }
        },
        None => {
            assert(s[i] != '.');
        },
    }
}

/// A path without any `.` is kept whole.
pub proof fn lemma_without_extension_keeps_dotless(s: Seq<char>)
    requires
        forall|j: int| 0 <= j < s.len() ==> s[j] != '.',
    ensures
        without_extension(s) == s,
{
    lemma_last_dot(s);
    if let Some(k) = last_dot(s) {
        assert(s[k] == '.');
    }
}

/// Different pages of one document are saved to different files.
pub proof fn lemma_page_files_are_distinct(resource_path: Seq<char>, i: nat, j: nat)
    requires
        i != j,
    ensures
        page_output_path(resource_path, i) != page_output_path(resource_path, j),
{
    let prefix = without_extension(resource_path) + "_page_"@;
    let a = decimal(i + 1);
    let b = decimal(j + 1);
    let suffix = ".jpg"@;
    if page_output_path(resource_path, i) == page_output_path(resource_path, j) {
        let x = prefix + a + suffix;
        let y = prefix + b + suffix;
        assert(x == page_output_path(resource_path, i));
        assert(y == page_output_path(resource_path, j));
        assert(a.len() == b.len());
        assert(a =~= x.subrange(prefix.len() as int, prefix.len() + a.len() as int));
        assert(b =~= y.subrange(prefix.len() as int, prefix.len() + b.len() as int));
        lemma_decimal_injective(i + 1, j + 1);
    }
}

fn find_last_dot(chars: &Vec<char>) -> (res: Option<usize>)
    ensures
        match res {
            Some(i) => last_dot(chars@) == Some(i as int) && i < chars@.len(),
            None => last_dot(chars@) is None,
        },
{
    proof {
        lemma_last_dot(chars@);
    }
    let mut k: usize = chars.len();
    assert(chars@.take(k as int) =~= chars@);
    while k > 0
        invariant
            k <= chars@.len(),
            last_dot(chars@) == last_dot(chars@.take(k as int)),
        decreases k,
    {
        assert(chars@.take(k as int).drop_last() =~= chars@.take(k as int - 1));
        if chars[k - 1] == '.' {
            return Some(k - 1);
        }
        k = k - 1;
    }
    assert(chars@.take(0) =~= Seq::<char>::empty());
    None
}

fn push_chars(s: &mut String, chars: &Vec<char>, end: usize)
    requires
        end <= chars@.len(),
    ensures
        final(s)@ == old(s)@ + chars@.subrange(0, end as int),
{
    let mut i: usize = 0;
    while i < end
        invariant
            i <= end,
            end <= chars@.len(),
            s@ == old(s)@ + chars@.subrange(0, i as int),
        decreases end - i,
    {
        push_char(s, chars[i]);
        assert(chars@.subrange(0, i as int + 1) =~= chars@.subrange(0, i as int).push(chars@[i as int]));
        i = i + 1;
    }
}

/// The path without its extension.
pub fn path_without_extension(resource_path: &str) -> (res: String)
    ensures
        res@ == without_extension(resource_path@),
        forall|i: int|
            0 <= i < resource_path@.len() && resource_path@[i] == '.' && (forall|j: int|
                i < j < resource_path@.len() ==> resource_path@[j] != '.') ==> res@ == #[trigger] resource_path@.subrange(0, i),
        (forall|j: int| 0 <= j < resource_path@.len() ==> resource_path@[j] != '.') ==> res@ == resource_path@,
{
    proof {
        assert forall|i: int|
            0 <= i < resource_path@.len() && resource_path@[i] == '.' && (forall|j: int|
                i < j < resource_path@.len() ==> resource_path@[j] != '.') implies without_extension(resource_path@)
            == #[trigger] resource_path@.subrange(0, i) by {
            lemma_without_extension_cuts_at_last_dot(resource_path@, i);
        }
        if forall|j: int| 0 <= j < resource_path@.len() ==> resource_path@[j] != '.' {
            lemma_without_extension_keeps_dotless(resource_path@);
        }
    }
    let chars = chars_of(resource_path);
    let end = match find_last_dot(&chars) {
        Some(i) => i,
        None => chars.len(),
    };
    let mut res = String::new();
    push_chars(&mut res, &chars, end);
    assert(chars@.subrange(0, chars@.len() as int) =~= chars@);
    res
}

/// The file that page `page_index` (from zero) of `resource_path` is saved
/// to: `{path without extension}_page_{page_index + 1}.jpg`.
pub fn page_output_file(resource_path: &str, page_index: usize) -> (res: String)
    requires
        page_index < usize::MAX,
    ensures
        res@ == page_output_path(resource_path@, page_index as nat),
        forall|i: int|
            0 <= i < resource_path@.len() && resource_path@[i] == '.' && (forall|j: int|
                i < j < resource_path@.len() ==> resource_path@[j] != '.') ==> res@ == #[trigger] resource_path@.subrange(0, i)
                + "_page_"@ + decimal(page_index as nat + 1) + ".jpg"@,
        (forall|j: int| 0 <= j < resource_path@.len() ==> resource_path@[j] != '.') ==> res@ == resource_path@
            + "_page_"@ + decimal(page_index as nat + 1) + ".jpg"@,
{
    proof {
        assert forall|i: int|
            0 <= i < resource_path@.len() && resource_path@[i] == '.' && (forall|j: int|
                i < j < resource_path@.len() ==> resource_path@[j] != '.') implies without_extension(resource_path@)
            == #[trigger] resource_path@.subrange(0, i) by {
            lemma_without_extension_cuts_at_last_dot(resource_path@, i);
        }
        if forall|j: int| 0 <= j < resource_path@.len() ==> resource_path@[j] != '.' {
            lemma_without_extension_keeps_dotless(resource_path@);
        }
    }
    let mut res = path_without_extension(resource_path);
    res.append("_page_");
    push_decimal(&mut res, page_index + 1);
    res.append(".jpg");
    res
}

/// What to do after a document failed to load.
#[derive(Debug, Clone, PartialEq, Eq)]
pub enum LoadFailureAction {
    /// Bring the main window forward and emit this event under `JOB_EVENT_NAME`.
    AskForPassword(JobEvent),
    /// Log the failure and drop the job.
    Ignore,
}

/// Decides what follows a failed load: a password error asks the user
/// interface for the password of this job's file; any other error is only
/// logged. `created_at` is the time of the event.
pub fn load_failure_action(job_cmd: &CommandPayloadIPC, password_error: bool, created_at: String) -> (action: LoadFailureAction)
    ensures
        password_error ==> (action matches LoadFailureAction::AskForPassword(e) && {
            &&& e.cmd_name@ == job_cmd.cmd_name@
            &&& e.resource_path@ == job_cmd.resource_path@
            &&& e.created_at@ == created_at@
            &&& e.ui_action == Some(UIAction::PasswordRequired)
        }),
        !password_error ==> action == LoadFailureAction::Ignore,
{
    if password_error {
        LoadFailureAction::AskForPassword(JobEvent {
            cmd_name: job_cmd.cmd_name.clone(),
            resource_path: job_cmd.resource_path.clone(),
            created_at,
            ui_action: Some(UIAction::PasswordRequired),
        })
    } else {
        LoadFailureAction::Ignore
    }
}

/// The message shown when page `page_index` (from zero) cannot be rendered;
/// `error` describes the failure.
pub fn render_failure_message(page_index: usize, error: &str) -> (res: String)
    requires
        page_index < usize::MAX,
    ensures
        res@ == "Failed to render page "@ + decimal(page_index as nat + 1) + ": "@ + error@,
{
    let mut res = String::new();
    res.append("Failed to render page ");
    push_decimal(&mut res, page_index + 1);
    res.append(": ");
    res.append(error);
    res
}

} // verus!
