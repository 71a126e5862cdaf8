//! The commands that the desktop application offers to its user interface.

use vstd::prelude::*;
use vstd::string::StringExecFns;
use crate::text::{chars_of, push_char};

verus! {

/// The folder, under the local application data directory, that holds the
/// discovery file of the background service.
pub const DISCOVERY_DIR: &'static str = "WinForge";

/// The discovery file that the background service writes with its port.
pub const DISCOVERY_FILE: &'static str = "runtime-port.json";

#[verifier::external_type_specification]
#[verifier::external_body]
pub struct ExJsonValue(serde_json::Value);

/// What `serde_json` gives on parsing a text as a JSON value: the value
/// when the text is one JSON value, else the display of its error (the kind
/// of error, and its line and column).
pub uninterp spec fn json_parse(text: Seq<char>) -> Result<serde_json::Value, Seq<char>>;

/// Calls `serde_json::from_str::<serde_json::Value>`.
/// Trusted: the parsed value, or the text of the error, is what `serde_json`
/// gives for this text (named `json_parse`), which depends on the text alone.
#[verifier::external_body]
fn parse_json(text: &str) -> (res: Result<serde_json::Value, String>)
    ensures
        match res {
            Ok(value) => json_parse(text@) == Ok::<serde_json::Value, Seq<char>>(value),
            Err(message) => json_parse(text@) == Err::<serde_json::Value, Seq<char>>(message@),
        },
{
    match serde_json::from_str::<serde_json::Value>(text) {
        Ok(value) => Ok(value),
        Err(error) => Err(error.to_string()),
    }
}

/// The `message` member of a discovery answer.
pub enum DiscoveryMessage {
    /// The content of the discovery file.
    Info(serde_json::Value),
    /// Why the file could not be used.
    Error(String),
}

/// The answer of `discover_port_winforge_background_service`: `code` 200
/// with the discovery info, or 500 with an error message.
pub struct DiscoveryReply {
    pub code: u16,
    pub message: DiscoveryMessage,
}

pub open spec fn error_reply(reply: &DiscoveryReply, message: Seq<char>) -> bool {
    &&& reply.code == 500
    &&& reply.message matches DiscoveryMessage::Error(m) && m@ == message
}

/// The answer when the local application data directory is unknown.
pub fn data_dir_unavailable() -> (reply: DiscoveryReply)
    ensures
        error_reply(&reply, "Unable to resolve the local application data directory"@),
{
    DiscoveryReply {
        code: 500,
        message: DiscoveryMessage::Error(String::from_str("Unable to resolve the local application data directory")),
    }
}

/// The answer for the discovery file at `path_display`, given what reading
/// it gave (its text, or the display of the read error): a read error or a
/// text that is not JSON gives code 500 and a message naming the file;
/// otherwise code 200 and the value parsed from the file's text.
pub fn discovery_reply(path_display: &str, contents: Result<String, String>) -> (reply: DiscoveryReply)
    ensures
        match contents {
            Err(error) => error_reply(&reply, "Failed to read "@ + path_display@ + ": "@ + error@),
            Ok(text) => match json_parse(text@) {
                Ok(value) => reply.code == 200 && reply.message == DiscoveryMessage::Info(value),
                Err(error) => error_reply(&reply, "Invalid JSON in "@ + path_display@ + ": "@ + error),
            },
        },
{
    match contents {
        Err(error) => {
            let mut message = String::from_str("Failed to read ");
            message.append(path_display);
            message.append(": ");
            message.append(error.as_str());
            DiscoveryReply { code: 500, message: DiscoveryMessage::Error(message) }
        },
        Ok(text) => match parse_json(text.as_str()) {
            Ok(value) => DiscoveryReply { code: 200, message: DiscoveryMessage::Info(value) },
            Err(error) => {
                let mut message = String::from_str("Invalid JSON in ");
                message.append(path_display);
                message.append(": ");
                message.append(error.as_str());
                DiscoveryReply { code: 500, message: DiscoveryMessage::Error(message) }
            },
        },
    }
}

/// The greeting of the `greet` command.
pub fn greet(name: &str) -> (res: String)
    ensures
        res@ == "Hello, "@ + name@ + "! You've been greeted from Rust!"@,
{
    let mut res = String::from_str("Hello, ");
    res.append(name);
    res.append("! You've been greeted from Rust!");
    res
}

/// Whether a character has the Unicode `White_Space` property, the
/// white space that `str::trim` removes.
pub open spec fn is_white_space(c: char) -> bool {
    ||| '\u{9}' <= c <= '\u{d}'
    ||| c == ' '
    ||| c == '\u{85}'
    ||| c == '\u{a0}'
    ||| c == '\u{1680}'
    ||| '\u{2000}' <= c <= '\u{200a}'
    ||| c == '\u{2028}'
    ||| c == '\u{2029}'
    ||| c == '\u{202f}'
    ||| c == '\u{205f}'
    ||| c == '\u{3000}'
}

/// Whether a text is made of white space only.
pub open spec fn all_white_space(s: Seq<char>) -> bool {
    forall|i: int| 0 <= i < s.len() ==> is_white_space(#[trigger] s[i])
}

/// A text without its leading white space.
pub open spec fn trim_start(s: Seq<char>) -> Seq<char>
    decreases s.len(),
{
    if s.len() > 0 && is_white_space(s[0]) {
        trim_start(s.drop_first())
    } else {
        s
    }
}

/// A text without its trailing white space.
pub open spec fn trim_end(s: Seq<char>) -> Seq<char>
    decreases s.len(),
{
    if s.len() > 0 && is_white_space(s.last()) {
        trim_end(s.drop_last())
    } else {
        s
    }
}

/// A text without its leading and trailing white space (`str::trim`).
pub open spec fn trimmed(s: Seq<char>) -> Seq<char> {
    trim_end(trim_start(s))
}

/// Whether a character has the Unicode `White_Space` property.
pub fn white_space(c: char) -> (b: bool)
    ensures
        b == is_white_space(c),
{
    ('\u{9}' <= c && c <= '\u{d}') || c == ' ' || c == '\u{85}' || c == '\u{a0}' || c == '\u{1680}'
        || ('\u{2000}' <= c && c <= '\u{200a}') || c == '\u{2028}' || c == '\u{2029}'
        || c == '\u{202f}' || c == '\u{205f}' || c == '\u{3000}'
}

proof fn lemma_trim_start_at(s: Seq<char>, i: int)
    requires
        0 <= i <= s.len(),
        forall|k: int| 0 <= k < i ==> is_white_space(#[trigger] s[k]),
        i == s.len() || !is_white_space(s[i]),
    ensures
        trim_start(s) == s.subrange(i, s.len() as int),
    decreases i,
{
    if i > 0 {
        assert(is_white_space(s[0]));
        let t = s.drop_first();
        assert forall|k: int| 0 <= k < i - 1 implies is_white_space(#[trigger] t[k]) by {
            assert(t[k] == s[k + 1]);
        }
        lemma_trim_start_at(t, i - 1);
        assert(t.subrange(i - 1, t.len() as int) =~= s.subrange(i, s.len() as int));
    } else {
        assert(s.subrange(0, s.len() as int) =~= s);
    }
}

proof fn lemma_trim_end_at(t: Seq<char>, j: int)
    requires
        0 <= j <= t.len(),
        forall|k: int| j <= k < t.len() ==> is_white_space(#[trigger] t[k]),
        j == 0 || !is_white_space(t[j - 1]),
    ensures
        trim_end(t) == t.subrange(0, j),
    decreases t.len() - j,
{
    if j < t.len() {
        assert(is_white_space(t[t.len() - 1]));
        let u = t.drop_last();
        assert forall|k: int| j <= k < u.len() implies is_white_space(#[trigger] u[k]) by {
            assert(u[k] == t[k]);
        }
        lemma_trim_end_at(u, j);
        assert(u.subrange(0, j) =~= t.subrange(0, j));
    } else {
        assert(t.subrange(0, j) =~= t);
    }
}

/// The text without its leading and trailing white space (`str::trim`).
pub fn trim_text(s: &str) -> (res: String)
    ensures
        res@ == trimmed(s@),
{
    let chars = chars_of(s);
    let n = chars.len();
    let mut i: usize = 0;
    while i < n && white_space(chars[i])
        invariant
            n == chars@.len(),
            i <= n,
            forall|k: int| 0 <= k < i ==> is_white_space(#[trigger] chars@[k]),
        decreases n - i,
    {
        i = i + 1;
    }
    let mut j: usize = n;
    while j > i && white_space(chars[j - 1])
        invariant
            n == chars@.len(),
            i <= j <= n,
            forall|k: int| j <= k < n ==> is_white_space(#[trigger] chars@[k]),
        decreases j - i,
    {
        j = j - 1;
    }
    let mut res = String::new();
    let mut k: usize = i;
    while k < j
        invariant
            i <= k <= j <= n,
            n == chars@.len(),
            res@ == chars@.subrange(i as int, k as int),
        decreases j - k,
    {
        push_char(&mut res, chars[k]);
        assert(chars@.subrange(i as int, k + 1) =~= chars@.subrange(i as int, k as int).push(chars@[k as int]));
        k = k + 1;
    }
    proof {
        let t = chars@.subrange(i as int, n as int);
        lemma_trim_start_at(chars@, i as int);
        assert forall|m: int| (j - i) <= m < t.len() implies is_white_space(#[trigger] t[m]) by {
            assert(t[m] == chars@[m + i]);
        }
        if j > i {
            assert(t[j - i - 1] == chars@[j - 1]);
        }
        lemma_trim_end_at(t, j - i);
        assert(t.subrange(0, j - i) =~= chars@.subrange(i as int, j as int));
    }
    res
}

/// The folder that `open_folder_in_explorer` is asked to open: its argument
/// with leading and trailing white space removed.
pub fn requested_folder(path: &str) -> (res: String)
    ensures
        res@ == trimmed(path@),
{
    trim_text(path)
}

proof fn lemma_trim_start_skips_white_space(w: Seq<char>, t: Seq<char>)
    requires
        all_white_space(w),
    ensures
        trim_start(w + t) == trim_start(t),
    decreases w.len(),
{
    if w.len() > 0 {
        assert((w + t)[0] == w[0]);
        assert((w + t).drop_first() =~= w.drop_first() + t);
        lemma_trim_start_skips_white_space(w.drop_first(), t);
    } else {
        assert(w + t =~= t);
    }
}

proof fn lemma_trim_end_skips_white_space(t: Seq<char>, w: Seq<char>)
    requires
        all_white_space(w),
    ensures
        trim_end(t + w) == trim_end(t),
    decreases w.len(),
{
    if w.len() > 0 {
        assert((t + w).last() == w.last());
        assert((t + w).drop_last() =~= t + w.drop_last());
        lemma_trim_end_skips_white_space(t, w.drop_last());
    } else {
        assert(t + w =~= t);
    }
}

proof fn lemma_trim_start_append(s: Seq<char>, w: Seq<char>)
    ensures
        trim_start(s).len() > 0 ==> trim_start(s + w) == trim_start(s) + w,
        trim_start(s).len() == 0 ==> trim_start(s + w) == trim_start(w),
    decreases s.len(),
{
    if s.len() == 0 {
        assert(s + w =~= w);
    } else {
        assert((s + w)[0] == s[0]);
        if is_white_space(s[0]) {
            assert((s + w).drop_first() =~= s.drop_first() + w);
            lemma_trim_start_append(s.drop_first(), w);
        }
    }
}

/// White space around a text changes nothing once it is trimmed: a folder
/// path with extra spaces, tabs or line breaks around it asks for the same
/// folder.
pub proof fn lemma_trim_ignores_padding(w1: Seq<char>, s: Seq<char>, w2: Seq<char>)
    requires
        all_white_space(w1),
        all_white_space(w2),
    ensures
        trimmed(w1 + s + w2) == trimmed(s),
{
    assert(w1 + s + w2 =~= w1 + (s + w2));
    lemma_trim_start_skips_white_space(w1, s + w2);
    lemma_trim_start_append(s, w2);
    if trim_start(s).len() > 0 {
        lemma_trim_end_skips_white_space(trim_start(s), w2);
    } else {
        lemma_trim_start_skips_white_space(w2, Seq::empty());
        assert(w2 + Seq::<char>::empty() =~= w2);
        assert(trim_start(s) =~= Seq::<char>::empty());
    }
}

/// Calls `std::path::Path::is_absolute` on a path.
/// Nothing is stated of the result: what counts as absolute depends on the
/// platform the program is built for (a drive or UNC prefix and a root on
/// Windows, a leading `/` elsewhere).
#[verifier::external_body]
fn path_is_absolute(path: &str) -> bool {
    std::path::Path::new(path).is_absolute()
}

/// Whether a path has the shape of an absolute path on some platform: it
/// begins with a separator (a root, or a UNC or verbatim prefix) or with a
/// drive letter and `:`. A path of any other shape is relative everywhere.
pub open spec fn may_be_absolute(p: Seq<char>) -> bool {
    &&& p.len() > 0
    &&& (p[0] == '/' || p[0] == '\\' || (p.len() >= 2 && p[1] == ':'))
}

fn has_absolute_shape(p: &str) -> (b: bool)
    ensures
        b == may_be_absolute(p@),
{
    let chars = chars_of(p);
    chars.len() > 0 && (chars[0] == '/' || chars[0] == '\\' || (chars.len() >= 2 && chars[1] == ':'))
}

/// The first check of `open_folder_in_explorer`: the argument, trimmed, must
/// be an absolute path. A path that has no absolute shape on any platform
/// (empty, or starting with neither a separator nor a drive) is refused
/// without asking the platform. Gives the trimmed path, or the refusal.
pub fn open_folder_request(path: &str) -> (res: Result<String, String>)
    ensures
        res matches Ok(folder) ==> folder@ == trimmed(path@) && may_be_absolute(folder@),
        res matches Err(m) ==> m@ == "Folder path must be absolute"@,
        !may_be_absolute(trimmed(path@)) ==> res is Err,
{
    let folder = requested_folder(path);
    let is_absolute = has_absolute_shape(folder.as_str()) && path_is_absolute(folder.as_str());
    match check_folder_is_absolute(is_absolute) {
        Ok(()) => Ok(folder),
        Err(m) => Err(m),
    }
}

/// The refusal of a relative folder path.
pub fn check_folder_is_absolute(is_absolute: bool) -> (res: Result<(), String>)
    ensures
        is_absolute <==> res is Ok,
        res matches Err(m) ==> m@ == "Folder path must be absolute"@,
{
    if is_absolute {
        Ok(())
    } else {
        Err(String::from_str("Folder path must be absolute"))
    }
}

/// The check of the folder's metadata: `Ok(is_dir)`, or the display of the
/// error met reading them.
pub fn check_folder_metadata(metadata: Result<bool, String>) -> (res: Result<(), String>)
    ensures
        res is Ok <==> metadata == Ok::<bool, String>(true),
        metadata matches Err(e) ==> (res matches Err(m) && m@ == "Folder is not accessible: "@ + e@),
        metadata == Ok::<bool, String>(false) ==> (res matches Err(m) && m@ == "The selected path is not a folder"@),
{
    match metadata {
        Err(error) => {
            let mut message = String::from_str("Folder is not accessible: ");
            message.append(error.as_str());
            Err(message)
        },
        Ok(is_dir) => if is_dir {
            Ok(())
        } else {
            Err(String::from_str("The selected path is not a folder"))
        },
    }
}

/// The message when Windows Explorer cannot be started.
pub fn explorer_start_failure(error: &str) -> (res: String)
    ensures
        res@ == "Failed to start Windows Explorer: "@ + error@,
{
    let mut message = String::from_str("Failed to start Windows Explorer: ");
    message.append(error);
    message
}

} // verus!
