use winforge::commands::{
    check_encryption, execute, menu_select_action, runner_arguments, runner_command,
    verify_command, JobAction, MenuAction, PdfEncryption, RunnerCommand, VerifyError,
};
use winforge::payload::CommandPayloadIPC;

fn payload(name: &str) -> CommandPayloadIPC {
    CommandPayloadIPC { cmd_name: name.to_string(), resource_path: "C:\\a.pdf".to_string(), password: None }
}

fn args(list: &[&str]) -> Vec<String> {
    list.iter().map(|s| s.to_string()).collect()
}

#[test]
fn only_pdf_to_jpg_names_a_job() {
    assert_eq!(execute(&payload("pdfToJpg")), JobAction::PdfToJpg);
    assert_eq!(execute(&payload("pdfMerge")), JobAction::Unknown);
    assert_eq!(execute(&payload("PdfToJpg")), JobAction::Unknown);
    assert_eq!(execute(&payload("")), JobAction::Unknown);
}

#[test]
fn menu_action_by_registry_value() {
    let a = args(&["winforge.exe", "imagePngToJpeg", "D:\\images\\a.png"]);
    assert_eq!(menu_select_action(a.clone()), MenuAction::ConvertPngToJpeg(a));
    assert_eq!(menu_select_action(args(&["winforge.exe", "other"])), MenuAction::UnknownRegValue);
    assert_eq!(menu_select_action(args(&["winforge.exe"])), MenuAction::UnknownRegValue);
    assert_eq!(menu_select_action(Vec::new()), MenuAction::UnknownRegValue);
}

#[test]
fn runner_needs_exactly_a_command_and_a_file() {
    let p = runner_arguments(&args(&["runner", "pdfToJpg", "C:\\a.pdf"])).unwrap();
    assert_eq!(p, payload("pdfToJpg"));
    assert_eq!(runner_arguments(&args(&["runner", "pdfToJpg"])), None);
    assert_eq!(runner_arguments(&args(&["runner", "pdfToJpg", "a", "b"])), None);
}

#[test]
fn runner_commands() {
    assert_eq!(runner_command("pdfToJpg"), Some(RunnerCommand::PdfToJpg));
    assert_eq!(runner_command("pdfMerge"), Some(RunnerCommand::PdfMerge));
    assert_eq!(runner_command("imagePngToJpeg"), None);
}

#[test]
fn encryption_checks() {
    let plain = PdfEncryption { is_encrypted: false, has_encryption_state: false };
    let decrypted = PdfEncryption { is_encrypted: true, has_encryption_state: true };
    let locked = PdfEncryption { is_encrypted: true, has_encryption_state: false };
    assert_eq!(check_encryption(plain), Ok(()));
    assert_eq!(check_encryption(decrypted), Ok(()));
    assert_eq!(check_encryption(locked), Err(VerifyError::PasswordRequired));
    assert_eq!(verify_command("pdfMerge", plain), Ok(RunnerCommand::PdfMerge));
    assert_eq!(verify_command("pdfToJpg", locked), Err(VerifyError::PasswordRequired));
    assert_eq!(verify_command("zip", locked), Err(VerifyError::UnknownCommand));
}

#[test]
fn error_messages() {
    assert_eq!(VerifyError::UnknownCommand.message(), "Unknown command");
    assert_eq!(
        VerifyError::PasswordRequired.message(),
        "This PDF is encrypted and requires a password."
    );
}

#[test]
fn worker_jobs_are_forwarded_by_the_runner() {
    for name in ["pdfToJpg", "pdfMerge", "imagePngToJpeg", "x"] {
        if execute(&payload(name)) != JobAction::Unknown {
            assert!(runner_command(name).is_some());
        }
    }
    assert_eq!(runner_command("pdfMerge"), Some(RunnerCommand::PdfMerge));
    assert_eq!(execute(&payload("pdfMerge")), JobAction::Unknown);
}
