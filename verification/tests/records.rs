use winforge::digest::{sha256_hex, to_hex_lower};
use winforge::payload::{folder_record, CmdEvent};
use winforge::text::{decimal_string, text_eq};
use winforge::work_queue::Shared;

fn event(path: &str, rtype: &str, name: &str, password: Option<&str>) -> CmdEvent {
    CmdEvent {
        cmd_name: name.to_string(),
        resource_path: path.to_string(),
        resource_type: rtype.to_string(),
        password: password.map(|p| p.to_string()),
    }
}

#[test]
fn hex_is_two_lower_case_digits_per_byte() {
    assert_eq!(to_hex_lower(&[0x00, 0xab, 0x0f, 0xf0, 0x9c]), "00ab0ff09c");
    assert_eq!(to_hex_lower(&[]), "");
}

#[test]
fn sha256_of_known_inputs() {
    assert_eq!(
        sha256_hex(b""),
        "e3b0c44298fc1c149afbf4c8996fb92427ae41e4649b934ca495991b7852b855"
    );
    assert_eq!(
        sha256_hex(b"abc"),
        "ba7816bf8f01cfea414140de5dae2223b00361a396177a9cb410ff61f20015ad"
    );
}

#[test]
fn id_hashes_path_type_and_name_joined() {
    let e = event("ab", "c", "", None);
    assert_eq!(e.get_id(), "ba7816bf8f01cfea414140de5dae2223b00361a396177a9cb410ff61f20015ad");
    let f = event("a", "b", "c", Some("secret"));
    assert_eq!(f.get_id(), e.get_id());
}

#[test]
fn id_changes_with_the_command() {
    let a = event("C:\\docs\\report.pdf", "pdf", "pdfToJpg", None);
    let b = event("C:\\docs\\report.pdf", "pdf", "pdfMerge", None);
    let id = a.get_id();
    assert_eq!(id.len(), 64);
    assert!(id.chars().all(|c| c.is_ascii_digit() || ('a'..='f').contains(&c)));
    assert_ne!(id, b.get_id());
    assert_eq!(id, a.clone().get_id());
}

#[test]
fn folder_record_is_keyed_by_the_id() {
    let e = event("D:\\images", "folder", "pdfToJpg", None);
    let r = folder_record(&e);
    assert_eq!(r.id, e.get_id());
    assert_eq!(r.resource_path, "D:\\images");
    assert_eq!(r.prompt, None);
}

#[test]
fn decimal_rendering() {
    assert_eq!(decimal_string(0), "0");
    assert_eq!(decimal_string(7), "7");
    assert_eq!(decimal_string(120), "120");
    assert_eq!(decimal_string(usize::MAX), usize::MAX.to_string());
}

#[test]
fn text_equality() {
    assert!(text_eq("pdfToJpg", "pdfToJpg"));
    assert!(!text_eq("pdfToJpg", "pdfToJp"));
    assert!(!text_eq("é", "e"));
    assert!(text_eq("", ""));
}

#[test]
fn queue_serves_the_latest_value_first() {
    let mut q = Shared::new();
    assert!(q.is_empty());
    for v in [1, 2, 3, 22] {
        q.push(v);
    }
    q.push(15);
    q.push(285);
    assert_eq!(q.take(), Some(285));
    assert_eq!(q.take(), Some(15));
    assert_eq!(q.take(), Some(22));
    assert_eq!(q.take(), Some(3));
    assert_eq!(q.take(), Some(2));
    assert_eq!(q.take(), Some(1));
    assert_eq!(q.take(), None);
    assert!(q.is_empty());
}
