use photo_drop::routes::upload_response;
use photo_drop::routes::ServerState;
use photo_drop::upload::plan_part;
use photo_drop::upload::write_failure_message;
use photo_drop::upload::PartPlan;
use photo_drop::upload::UploadOutcome;
use photo_drop::upload::UploadPart;
use photo_drop::upload::MAX_FILE_SIZE;

fn image_part(content_type: &str, data: &[u8]) -> UploadPart {
    UploadPart {
        content_type: Some(content_type.to_string()),
        data: Ok(data.to_vec()),
    }
}

#[test]
fn text_part_is_rejected_and_nothing_is_written() {
    let part = UploadPart {
        content_type: Some("text/plain".to_string()),
        data: Ok(b"hello".to_vec()),
    };
    let plan = plan_part(part);
    let error = match plan {
        PartPlan::Reject { error } => error,
        PartPlan::Save { .. } => panic!("a text part must not be saved"),
    };
    assert_eq!(error, "Rejected non-image file (type: text/plain)");

    let mut outcome = UploadOutcome::new();
    outcome.record_error(error);
    let response = upload_response(&outcome);
    assert_eq!(response.status, 400);
    assert_eq!(
        response.body,
        b"{\"saved\":0,\"errors\":[\"Rejected non-image file (type: text/plain)\"]}".to_vec()
    );
}

#[test]
fn missing_content_type_counts_as_binary() {
    let part = UploadPart {
        content_type: None,
        data: Ok(b"x".to_vec()),
    };
    match plan_part(part) {
        PartPlan::Reject { error } => {
            assert_eq!(error, "Rejected non-image file (type: application/octet-stream)")
        }
        PartPlan::Save { .. } => panic!("an untyped part must not be saved"),
    }
}

#[test]
fn unreadable_part_records_the_read_failure() {
    let part = UploadPart {
        content_type: Some("image/png".to_string()),
        data: Err("unexpected end of stream".to_string()),
    };
    match plan_part(part) {
        PartPlan::Reject { error } => {
            assert_eq!(error, "Failed to read file: unexpected end of stream")
        }
        PartPlan::Save { .. } => panic!("an unreadable part must not be saved"),
    }
}

#[test]
fn oversize_part_is_rejected() {
    let part = image_part("image/jpeg", &vec![7u8; MAX_FILE_SIZE + 1]);
    match plan_part(part) {
        PartPlan::Reject { error } => assert_eq!(error, "File exceeds 20MB limit"),
        PartPlan::Save { .. } => panic!("an oversize part must not be saved"),
    }
}

#[test]
fn part_at_the_cap_is_accepted() {
    let part = image_part("image/gif", &vec![7u8; MAX_FILE_SIZE]);
    assert!(matches!(plan_part(part), PartPlan::Save { .. }));
}

#[test]
fn accepted_part_keeps_its_bytes_and_names_its_type() {
    let plan = plan_part(image_part("image/png", b"hello"));
    let (name, data, notice) = match plan {
        PartPlan::Save { name, data, notice } => (name, data, notice),
        PartPlan::Reject { error } => panic!("rejected: {}", error),
    };
    assert_eq!(data, b"hello".to_vec());
    assert_eq!(name.len(), 36 + ".png".len());
    assert!(name.ends_with(".png"));
    let id = &name[..36];
    assert!(id
        .chars()
        .all(|c| c == '-' || c.is_ascii_digit() || ('a'..='f').contains(&c)));
    assert_eq!(notice, "data:image/png;base64,aGVsbG8=");
}

#[test]
fn unmapped_image_type_is_stored_as_bin() {
    let plan = plan_part(image_part("image/x-icon", b"ico"));
    match plan {
        PartPlan::Save { name, .. } => assert!(name.ends_with(".bin")),
        PartPlan::Reject { error } => panic!("rejected: {}", error),
    }
}

#[test]
fn generated_names_are_distinct() {
    let a = plan_part(image_part("image/png", b"one"));
    let b = plan_part(image_part("image/png", b"two"));
    match (a, b) {
        (PartPlan::Save { name: n1, .. }, PartPlan::Save { name: n2, .. }) => {
            assert_ne!(n1, n2)
        }
        _ => panic!("both parts must be saved"),
    }
}

#[test]
fn two_parts_with_one_oversize_save_exactly_one() {
    let mut outcome = UploadOutcome::new();
    let mut writes: Vec<(String, Vec<u8>)> = Vec::new();

    let parts = vec![
        image_part("image/png", b"fine"),
        image_part("image/png", &vec![1u8; MAX_FILE_SIZE + 1]),
    ];
    for part in parts {
        match plan_part(part) {
            PartPlan::Save { name, data, .. } => {
                writes.push((name, data));
                outcome.record_saved();
            }
            PartPlan::Reject { error } => outcome.record_error(error),
        }
    }

    assert_eq!(writes.len(), 1);
    assert_eq!(outcome.saved, 1);
    assert_eq!(outcome.errors.len(), 1);
    assert_eq!(outcome.errors[0], "File exceeds 20MB limit");

    let response = upload_response(&outcome);
    assert_eq!(response.status, 200);
    assert_eq!(
        response.body,
        b"{\"saved\":1,\"errors\":[\"File exceeds 20MB limit\"]}".to_vec()
    );
}

#[test]
fn failed_write_spoils_only_its_part() {
    let mut outcome = UploadOutcome::new();
    outcome.record_saved();
    let message = write_failure_message("a.png", "disk full");
    assert_eq!(message, "Failed to save a.png: disk full");
    outcome.record_error(message);
    let response = upload_response(&outcome);
    assert_eq!(response.status, 200);
}

#[test]
fn empty_request_is_a_success_with_empty_outcome() {
    let outcome = UploadOutcome::new();
    let response = upload_response(&outcome);
    assert_eq!(response.status, 200);
    assert_eq!(response.content_type, "application/json");
    assert_eq!(response.body, b"{\"saved\":0,\"errors\":[]}".to_vec());
}

#[test]
fn json_body_escapes_error_text() {
    let mut outcome = UploadOutcome::new();
    outcome.record_saved();
    outcome.record_saved();
    outcome.record_error("a\"b\\c".to_string());
    outcome.record_error("\u{1}x".to_string());
    let response = upload_response(&outcome);
    assert_eq!(response.status, 200);
    let expected = "{\"saved\":2,\"errors\":[\"a\\\"b\\\\c\",\"\\u0001x\"]}";
    assert_eq!(response.body, expected.as_bytes().to_vec());
}

#[test]
fn json_body_uses_short_escapes_for_common_control_characters() {
    let mut outcome = UploadOutcome::new();
    outcome.record_error("line one\nline two\ttabbed\r\u{8}\u{c}".to_string());
    let response = upload_response(&outcome);
    let expected = "{\"saved\":0,\"errors\":[\"line one\\nline two\\ttabbed\\r\\b\\f\"]}";
    assert_eq!(response.body, expected.as_bytes().to_vec());
}

#[test]
fn json_body_passes_unicode_text_through_as_utf8() {
    let mut outcome = UploadOutcome::new();
    outcome.record_error("fichier refusé".to_string());
    let response = upload_response(&outcome);
    assert_eq!(response.status, 400);
    let expected = "{\"saved\":0,\"errors\":[\"fichier refusé\"]}";
    assert_eq!(response.body, expected.as_bytes().to_vec());
}

#[test]
fn json_body_renders_multi_digit_counts() {
    let mut outcome = UploadOutcome::new();
    for _ in 0..12 {
        outcome.record_saved();
    }
    let response = upload_response(&outcome);
    assert_eq!(response.body, b"{\"saved\":12,\"errors\":[]}".to_vec());
}

#[test]
fn asset_path_joins_directory_and_name_literally() {
    let state = ServerState {
        upload_dir: "/home/user/Pictures/photo-drop-uploads".to_string(),
        server_url: "http://10.0.0.7:7878".to_string(),
    };
    assert_eq!(
        state.asset_path("ab12.png"),
        "/home/user/Pictures/photo-drop-uploads/ab12.png"
    );
}
