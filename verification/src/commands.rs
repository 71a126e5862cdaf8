//! Routing of the commands that the shell extension sends.
//!
//! The shell extension starts `winforge-IPC-runner <command> <file>`; the
//! runner checks the command and the file and forwards it over the pipe to
//! the desktop application, whose worker threads run the job.

use vstd::prelude::*;
use crate::payload::CommandPayloadIPC;
use crate::text::text_eq;

verus! {

/// Converts every page of a PDF to a JPEG image.
pub const PDF_TO_JPG_COMMAND: &'static str = "pdfToJpg";

/// Merges PDF documents.
pub const PDF_MERGE_COMMAND: &'static str = "pdfMerge";

/// The registry value of the context-menu entry that converts PNG to JPEG.
pub const IMAGE_PNG_TO_JPEG: &'static str = "imagePngToJpeg";

/// The job a worker thread runs for a command.
#[derive(Debug, Clone, Copy, PartialEq, Eq)]
pub enum JobAction {
    /// Render every page of `resource_path` to JPEG files.
    PdfToJpg,
    /// No job has this name: log it and go on.
    Unknown,
}

/// The job that a command name denotes for a worker thread.
pub open spec fn job_action_for(cmd_name: Seq<char>) -> JobAction {
    if cmd_name == PDF_TO_JPG_COMMAND@ {
        JobAction::PdfToJpg
    } else {
        JobAction::Unknown
    }
}

/// Picks the job for a command received by a worker thread: only
/// `pdfToJpg` names a job.
pub fn execute(job_cmd: &CommandPayloadIPC) -> (action: JobAction)
    ensures
        action == job_action_for(job_cmd.cmd_name@),
        action == JobAction::PdfToJpg <==> job_cmd.cmd_name@ == "pdfToJpg"@,
{
    if text_eq(job_cmd.cmd_name.as_str(), PDF_TO_JPG_COMMAND) {
        JobAction::PdfToJpg
    } else {
        JobAction::Unknown
    }
}

/// What a context-menu invocation asks for.
#[derive(Debug, Clone, PartialEq, Eq)]
pub enum MenuAction {
    /// Convert the PNG named by the arguments to JPEG.
    ConvertPngToJpeg(Vec<String>),
    /// The registry value is not known: warn and do nothing.
    UnknownRegValue,
}

/// Picks the action for the program arguments of a context-menu
/// invocation, by the registry value in second place.
pub fn menu_select_action(args: Vec<String>) -> (action: MenuAction)
    ensures
        action == (if args@.len() > 1 && args@[1]@ == IMAGE_PNG_TO_JPEG@ {
            MenuAction::ConvertPngToJpeg(args)
        } else {
            MenuAction::UnknownRegValue
        }),
{
    if args.len() > 1 && text_eq(args[1].as_str(), IMAGE_PNG_TO_JPEG) {
        MenuAction::ConvertPngToJpeg(args)
    } else {
        MenuAction::UnknownRegValue
    }
}

/// The commands that the runner forwards.
#[derive(Debug, Clone, Copy, PartialEq, Eq)]
pub enum RunnerCommand {
    PdfToJpg,
    PdfMerge,
}

/// Why the runner refuses a command.
#[derive(Debug, Clone, Copy, PartialEq, Eq)]
pub enum VerifyError {
    /// The command is neither `pdfToJpg` nor `pdfMerge`.
    UnknownCommand,
    /// The PDF is encrypted and no decryption state was set up on loading.
    PasswordRequired,
}

impl VerifyError {
    pub open spec fn spec_message(self) -> Seq<char> {
        match self {
            VerifyError::UnknownCommand => "Unknown command"@,
            VerifyError::PasswordRequired => "This PDF is encrypted and requires a password."@,
        }
    }

    /// The text of the error.
    pub fn message(&self) -> (m: &'static str)
        ensures
            m@ == self.spec_message(),
    {
        match self {
            VerifyError::UnknownCommand => "Unknown command",
            VerifyError::PasswordRequired => "This PDF is encrypted and requires a password.",
        }
    }
}

/// What the runner learnt of a PDF on loading it.
#[derive(Debug, Clone, Copy, PartialEq, Eq)]
pub struct PdfEncryption {
    /// The document has an encryption dictionary.
    pub is_encrypted: bool,
    /// Loading set up a decryption state (it opened with the empty password).
    pub has_encryption_state: bool,
}

/// The payload that the runner forwards for its program arguments
/// `[program, command, file]`; `None` for any other number of arguments.
pub fn runner_arguments(args: &Vec<String>) -> (payload: Option<CommandPayloadIPC>)
    ensures
        payload is Some <==> args@.len() == 3,
        payload matches Some(p) ==> {
            &&& p.cmd_name@ == args@[1]@
            &&& p.resource_path@ == args@[2]@
            &&& p.password is None
        },
{
    if args.len() != 3 {
        return None;
    }
    Some(CommandPayloadIPC {
        cmd_name: args[1].clone(),
        resource_path: args[2].clone(),
        password: None,
    })
}

/// The runner command named by `cmd_name`, if any.
pub fn runner_command(cmd_name: &str) -> (command: Option<RunnerCommand>)
    ensures
        command == (if cmd_name@ == PDF_TO_JPG_COMMAND@ {
            Some(RunnerCommand::PdfToJpg)
        } else if cmd_name@ == PDF_MERGE_COMMAND@ {
            Some(RunnerCommand::PdfMerge)
        } else {
            None::<RunnerCommand>
        }),
{
    if text_eq(cmd_name, PDF_TO_JPG_COMMAND) {
        Some(RunnerCommand::PdfToJpg)
    } else if text_eq(cmd_name, PDF_MERGE_COMMAND) {
        Some(RunnerCommand::PdfMerge)
    } else {
        None
    }
}

/// Decides whether the runner forwards a loaded PDF: an unencrypted one, or
/// an encrypted one that loading could decrypt with the empty password.
pub fn check_encryption(pdf: PdfEncryption) -> (res: Result<(), VerifyError>)
    ensures
        res is Err <==> (pdf.is_encrypted && !pdf.has_encryption_state),
        res matches Err(e) ==> e == VerifyError::PasswordRequired,
{
    if pdf.is_encrypted && !pdf.has_encryption_state {
        Err(VerifyError::PasswordRequired)
    } else {
        Ok(())
    }
}

/// The whole check of the runner: the command must be known (else
/// `UnknownCommand`, whatever the file), then the PDF that `pdf` describes
/// must open without a password.
pub fn verify_command(cmd_name: &str, pdf: PdfEncryption) -> (res: Result<RunnerCommand, VerifyError>)
    ensures
        match runner_command_spec(cmd_name@) {
            None => res == Err::<RunnerCommand, VerifyError>(VerifyError::UnknownCommand),
            Some(c) => if pdf.is_encrypted && !pdf.has_encryption_state {
                res == Err::<RunnerCommand, VerifyError>(VerifyError::PasswordRequired)
            } else {
                res == Ok::<RunnerCommand, VerifyError>(c)
            },
        },
        res is Ok <==> ((cmd_name@ == "pdfToJpg"@ || cmd_name@ == "pdfMerge"@) && !(pdf.is_encrypted
            && !pdf.has_encryption_state)),
        res == Ok::<RunnerCommand, VerifyError>(RunnerCommand::PdfToJpg) <==> (cmd_name@ == "pdfToJpg"@ && !(
        pdf.is_encrypted && !pdf.has_encryption_state)),
        res == Ok::<RunnerCommand, VerifyError>(RunnerCommand::PdfMerge) <==> (cmd_name@ == "pdfMerge"@ && !(
        pdf.is_encrypted && !pdf.has_encryption_state)),
        res == Err::<RunnerCommand, VerifyError>(VerifyError::UnknownCommand) <==> !(cmd_name@ == "pdfToJpg"@
            || cmd_name@ == "pdfMerge"@),
{
    proof {
        lemma_runner_command_names(cmd_name@);
    }
    match runner_command(cmd_name) {
        None => Err(VerifyError::UnknownCommand),
        Some(c) => match check_encryption(pdf) {
            Ok(()) => Ok(c),
            Err(e) => Err(e),
        },
    }
}

/// The runner command that a command name denotes.
pub open spec fn runner_command_spec(cmd_name: Seq<char>) -> Option<RunnerCommand> {
    if cmd_name == PDF_TO_JPG_COMMAND@ {
        Some(RunnerCommand::PdfToJpg)
    } else if cmd_name == PDF_MERGE_COMMAND@ {
        Some(RunnerCommand::PdfMerge)
    } else {
        None
    }
}

/// The runner knows exactly two commands, each forwarded as itself:
/// `pdfToJpg` and `pdfMerge`.
pub proof fn lemma_runner_command_names(cmd_name: Seq<char>)
    ensures
        runner_command_spec(cmd_name) == Some(RunnerCommand::PdfToJpg) <==> cmd_name == "pdfToJpg"@,
        runner_command_spec(cmd_name) == Some(RunnerCommand::PdfMerge) <==> cmd_name == "pdfMerge"@,
        runner_command_spec(cmd_name) is None <==> (cmd_name != "pdfToJpg"@ && cmd_name != "pdfMerge"@),
{
    assert("pdfToJpg"@ != "pdfMerge"@) by {
        reveal_strlit("pdfToJpg");
        reveal_strlit("pdfMerge");
        assert("pdfToJpg"@[3] != "pdfMerge"@[3]);
    }
}

/// A worker runs exactly the `pdfToJpg` command.
pub proof fn lemma_worker_job_names(cmd_name: Seq<char>)
    ensures
        job_action_for(cmd_name) == JobAction::PdfToJpg <==> cmd_name == "pdfToJpg"@,
{
}

/// Every command that a worker runs is one that the runner forwards.
pub proof fn lemma_worker_jobs_are_forwarded(cmd_name: Seq<char>)
    requires
        job_action_for(cmd_name) != JobAction::Unknown,
    ensures
        runner_command_spec(cmd_name) is Some,
{
}

} // verus!
