use winforge::desktop::{
    check_folder_is_absolute, check_folder_metadata, data_dir_unavailable, discovery_reply,
    explorer_start_failure, greet, open_folder_request, requested_folder, DiscoveryMessage,
};
use winforge::payload::{CommandPayloadIPC, JobEvent, UIAction};
use winforge::pdf::{
    load_failure_action, page_output_file, path_without_extension, render_failure_message,
    LoadFailureAction, JOB_EVENT_NAME,
};

fn error_text(message: &DiscoveryMessage) -> String {
    match message {
        DiscoveryMessage::Error(m) => m.clone(),
        DiscoveryMessage::Info(_) => panic!("expected an error"),
    }
}

#[test]
fn greeting() {
    assert_eq!(greet("Ada"), "Hello, Ada! You've been greeted from Rust!");
    assert_eq!(greet(""), "Hello, ! You've been greeted from Rust!");
}

#[test]
fn discovery_of_a_valid_file() {
    let reply = discovery_reply("C:\\p.json", Ok("{\"port\":8080,\"pid\":12}".to_string()));
    assert_eq!(reply.code, 200);
    match reply.message {
        DiscoveryMessage::Info(v) => {
            assert_eq!(v["port"], 8080);
            assert_eq!(v["pid"], 12);
        }
        DiscoveryMessage::Error(m) => panic!("unexpected error {}", m),
    }
}

#[test]
fn discovery_of_an_unreadable_file() {
    let reply = discovery_reply("C:\\p.json", Err("not found".to_string()));
    assert_eq!(reply.code, 500);
    assert_eq!(error_text(&reply.message), "Failed to read C:\\p.json: not found");
}

#[test]
fn discovery_of_invalid_json() {
    let reply = discovery_reply("C:\\p.json", Ok("".to_string()));
    assert_eq!(reply.code, 500);
    assert_eq!(
        error_text(&reply.message),
        "Invalid JSON in C:\\p.json: EOF while parsing a value at line 1 column 0"
    );
    let reply = discovery_reply("p", Ok("{\"port\":".to_string()));
    assert_eq!(reply.code, 500);
    assert_eq!(error_text(&reply.message), "Invalid JSON in p: EOF while parsing a value at line 1 column 8");
}

#[test]
fn discovery_without_data_dir() {
    let reply = data_dir_unavailable();
    assert_eq!(reply.code, 500);
    assert_eq!(error_text(&reply.message), "Unable to resolve the local application data directory");
}

#[test]
fn folder_requests() {
    assert_eq!(requested_folder("  C:\\Users\\me \n"), "C:\\Users\\me");
    assert_eq!(requested_folder("\t"), "");
    assert_eq!(check_folder_is_absolute(true), Ok(()));
    assert_eq!(check_folder_is_absolute(false), Err("Folder path must be absolute".to_string()));
    assert_eq!(check_folder_metadata(Ok(true)), Ok(()));
    assert_eq!(check_folder_metadata(Ok(false)), Err("The selected path is not a folder".to_string()));
    assert_eq!(
        check_folder_metadata(Err("access denied".to_string())),
        Err("Folder is not accessible: access denied".to_string())
    );
    assert_eq!(explorer_start_failure("no such file"), "Failed to start Windows Explorer: no such file");
}

#[test]
fn page_files_are_named_after_the_document() {
    assert_eq!(page_output_file("C:\\docs\\report.pdf", 0), "C:\\docs\\report_page_1.jpg");
    assert_eq!(page_output_file("C:\\docs\\report.v2.pdf", 9), "C:\\docs\\report.v2_page_10.jpg");
    assert_eq!(page_output_file("notes", 2), "notes_page_3.jpg");
    assert_eq!(path_without_extension("archive.tar.gz"), "archive.tar");
    assert_eq!(path_without_extension(".hidden"), "");
    assert_eq!(path_without_extension("no_dot"), "no_dot");
}

#[test]
fn password_errors_ask_the_interface() {
    let job = CommandPayloadIPC {
        cmd_name: "pdfToJpg".to_string(),
        resource_path: "C:\\locked.pdf".to_string(),
        password: None,
    };
    assert_eq!(
        load_failure_action(&job, true, "2025-01-01T00:00:00+00:00".to_string()),
        LoadFailureAction::AskForPassword(JobEvent {
            cmd_name: "pdfToJpg".to_string(),
            resource_path: "C:\\locked.pdf".to_string(),
            created_at: "2025-01-01T00:00:00+00:00".to_string(),
            ui_action: Some(UIAction::PasswordRequired),
        })
    );
    assert_eq!(load_failure_action(&job, false, "t".to_string()), LoadFailureAction::Ignore);
    assert_eq!(JOB_EVENT_NAME, "job-event");
}

#[test]
fn render_failures_name_the_page() {
    assert_eq!(render_failure_message(0, "Oops"), "Failed to render page 1: Oops");
    assert_eq!(render_failure_message(41, "E"), "Failed to render page 42: E");
}

#[test]
fn distinct_pages_get_distinct_files() {
    let names: Vec<String> = (0..120).map(|p| page_output_file("C:\\a.pdf", p)).collect();
    for i in 0..names.len() {
        for j in (i + 1)..names.len() {
            assert_ne!(names[i], names[j]);
        }
    }
    assert_eq!(names[10], "C:\\a_page_11.jpg");
}

#[test]
fn discovery_value_is_the_file_content() {
    let text = "{\"pid\":4242,\"port\":51000}";
    let reply = discovery_reply("p", Ok(text.to_string()));
    assert_eq!(reply.code, 200);
    match reply.message {
        DiscoveryMessage::Info(v) => assert_eq!(v, serde_json::from_str::<serde_json::Value>(text).unwrap()),
        DiscoveryMessage::Error(m) => panic!("unexpected error {}", m),
    }
}

#[test]
fn trimming_removes_unicode_white_space_only() {
    assert_eq!(requested_folder("\u{a0}\u{3000}C:\\x\u{2028}\u{85} "), "C:\\x");
    assert_eq!(requested_folder("\u{200b}C:\\x"), "\u{200b}C:\\x");
    assert_eq!(requested_folder(" a b "), "a b");
}

#[test]
fn padding_around_a_folder_path_is_ignored() {
    let s = "C:\\Users\\me";
    for (w1, w2) in [("", ""), (" \t", "\n"), ("\u{2003}", "\r\n "), ("\u{a0}", "")] {
        let padded = format!("{w1}{s}{w2}");
        assert_eq!(requested_folder(&padded), requested_folder(s));
        assert_eq!(open_folder_request(&padded), open_folder_request(s));
    }
    assert_eq!(requested_folder(" \t "), requested_folder(""));
}

#[test]
fn relative_folder_paths_are_refused() {
    for path in ["  docs\\x ", "", "   ", "relative/folder", "x"] {
        assert_eq!(open_folder_request(path), Err("Folder path must be absolute".to_string()));
    }
    if std::path::Path::new("/tmp/x").is_absolute() {
        assert_eq!(open_folder_request(" /tmp/x \n"), Ok("/tmp/x".to_string()));
    }
}

#[test]
fn trimming_matches_std() {
    for text in ["", " ", " a ", "\u{2003}b\u{2003}", "a\u{200b}", "\t\n x y \r", "\u{85}\u{a0}é\u{3000}"] {
        assert_eq!(winforge::desktop::trim_text(text), text.trim());
        assert_eq!(winforge::desktop::white_space(text.chars().next().unwrap_or('z')), text.chars().next().map_or(false, |c| c.is_whitespace()));
    }
}
