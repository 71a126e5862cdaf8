//! The records exchanged between the WinForge programs.

use vstd::prelude::*;
use vstd::string::StringExecFns;
use vstd::utf8::encode_utf8;
use crate::digest::{hex_lower, is_lower_hex_char, lemma_hex_lower_shape, sha256_hex, sha256_spec};

verus! {

/// A command sent by the shell-extension runner to the desktop application.
#[derive(Debug, Clone, PartialEq, Eq)]
pub struct CommandPayloadIPC {
    pub cmd_name: String,
    pub resource_path: String,
    pub password: Option<String>,
}

/// What the user interface is asked to do after a job event.
#[derive(Debug, Clone, Copy, PartialEq, Eq)]
pub enum UIAction {
    PasswordRequired,
}

/// An event emitted to the user interface about a job.
#[derive(Debug, Clone, PartialEq, Eq)]
pub struct JobEvent {
    pub cmd_name: String,
    pub resource_path: String,
    pub created_at: String,
    pub ui_action: Option<UIAction>,
}

/// A row of the background service's `folders` table.
#[derive(Debug, Clone, PartialEq, Eq)]
pub struct Folder {
    pub id: i64,
    pub uid: String,
    pub resource_path: String,
    pub prompt: Option<String>,
    pub created_at: String,
}

/// A command received by the background service.
#[derive(Debug, Clone, PartialEq, Eq)]
pub struct CmdEvent {
    pub cmd_name: String,
    pub resource_path: String,
    pub resource_type: String,
    pub password: Option<String>,
}

/// The text that identifies a command: resource path, resource type and
/// command name, joined with no separator.
pub open spec fn cmd_id_source(resource_path: Seq<char>, resource_type: Seq<char>, cmd_name: Seq<char>) -> Seq<char> {
    resource_path + resource_type + cmd_name
}

/// The identifier of a command: the lower-case hex SHA-256 of the UTF-8
/// encoding of its identifying text.
pub open spec fn cmd_id(resource_path: Seq<char>, resource_type: Seq<char>, cmd_name: Seq<char>) -> Seq<char> {
    hex_lower(sha256_spec(encode_utf8(cmd_id_source(resource_path, resource_type, cmd_name))))
}

impl CmdEvent {
    /// The identifier of this command, as stored in the `folders` table.
    pub open spec fn spec_id(&self) -> Seq<char> {
        cmd_id(self.resource_path@, self.resource_type@, self.cmd_name@)
    }

    /// Computes the identifier of this command: the SHA-256 digest of
    /// `resource_path + resource_type + cmd_name`, as 64 lower-case hex digits.
    pub fn get_id(&self) -> (id: String)
        ensures
            id@ == self.spec_id(),
            id@ == hex_lower(sha256_spec(encode_utf8(self.resource_path@ + self.resource_type@ + self.cmd_name@))),
            id@.len() == 64,
            forall|k: int| 0 <= k < 32 ==> {
                let digest = sha256_spec(encode_utf8(self.resource_path@ + self.resource_type@ + self.cmd_name@));
                &&& #[trigger] id@[2 * k] == "0123456789abcdef"@[(digest[k] / 16) as int]
                &&& id@[2 * k + 1] == "0123456789abcdef"@[(digest[k] % 16) as int]
            },
            forall|i: int| 0 <= i < id@.len() ==> is_lower_hex_char(#[trigger] id@[i]),
    {
        let mut input = String::new();
        input.append(self.resource_path.as_str());
        input.append(self.resource_type.as_str());
        input.append(self.cmd_name.as_str());
        let id = sha256_hex(input.as_str().as_bytes());
        proof {
            lemma_hex_lower_shape(sha256_spec(encode_utf8(input@)));
        }
        id
    }
}

/// The values that the background service writes to its `folders` table
/// for a command: the row is keyed by the command's identifier and has no
/// prompt yet.
#[derive(Debug, Clone, PartialEq, Eq)]
pub struct FolderRecord {
    pub id: String,
    pub resource_path: String,
    pub prompt: Option<String>,
}

/// The row recorded for a command received by the background service.
pub fn folder_record(event: &CmdEvent) -> (record: FolderRecord)
    ensures
        record.id@ == event.spec_id(),
        record.resource_path@ == event.resource_path@,
        record.prompt is None,
{
    FolderRecord { id: event.get_id(), resource_path: event.resource_path.clone(), prompt: None }
}

/// The identifying text is the resource path, then the resource type, then
/// the command name, each whole and with nothing between them; the
/// identifier is the hex SHA-256 of its UTF-8 bytes.
pub proof fn lemma_cmd_id_is_digest_of_joined_fields(p: Seq<char>, t: Seq<char>, n: Seq<char>)
    ensures
        cmd_id_source(p, t, n) == p + t + n,
        cmd_id_source(p, t, n).len() == p.len() + t.len() + n.len(),
        cmd_id(p, t, n) == hex_lower(sha256_spec(encode_utf8(p + t + n))),
{
}

/// Two commands whose identifying texts agree get the same identifier; the
/// password never takes part in it.
pub proof fn lemma_cmd_id_depends_on_joined_text(a: CmdEvent, b: CmdEvent)
    requires
        cmd_id_source(a.resource_path@, a.resource_type@, a.cmd_name@)
            == cmd_id_source(b.resource_path@, b.resource_type@, b.cmd_name@),
    ensures
        a.spec_id() == b.spec_id(),
{
}

} // verus!
