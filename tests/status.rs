use media_remote::status::{
    get_status, mute_query, muted_from_text, status_from_text, status_json, volume_from_text,
    volume_query,
};

#[test]
fn status_queries_are_scripts() {
    let v = volume_query();
    assert_eq!(v.program, "osascript");
    assert_eq!(v.args, vec!["-e".to_string(), "output volume of (get volume settings)".to_string()]);
    let m = mute_query();
    assert_eq!(m.program, "osascript");
    assert_eq!(m.args, vec!["-e".to_string(), "output muted of (get volume settings)".to_string()]);
}

#[test]
fn status_defaults_when_both_queries_fail() {
    assert_eq!(get_status(None, None), "{\"volume\": 0, \"isMuted\": false}");
    assert_eq!(status_from_text(None, None), "{\"volume\": 0, \"isMuted\": false}");
}

#[test]
fn status_reads_both_outputs() {
    assert_eq!(
        get_status(Some(b"42\n"), Some(b"true\n")),
        "{\"volume\": 42, \"isMuted\": true}"
    );
    assert_eq!(
        get_status(Some(b"100\n"), Some(b"false\n")),
        "{\"volume\": 100, \"isMuted\": false}"
    );
}

#[test]
fn status_queries_fail_independently() {
    assert_eq!(get_status(None, Some(b"true\n")), "{\"volume\": 0, \"isMuted\": true}");
    assert_eq!(get_status(Some(b"37\n"), None), "{\"volume\": 37, \"isMuted\": false}");
    assert_eq!(
        get_status(Some(b"garbage"), Some(b"true")),
        "{\"volume\": 0, \"isMuted\": true}"
    );
}

#[test]
fn status_malformed_output_degrades() {
    assert_eq!(get_status(Some(b"300"), Some(b"TRUE")), "{\"volume\": 0, \"isMuted\": false}");
    assert_eq!(get_status(Some(b""), Some(b"")), "{\"volume\": 0, \"isMuted\": false}");
    assert_eq!(
        get_status(Some(&[0xff, b'5']), Some(&[b't', b'r', b'u', b'e', 0xff])),
        "{\"volume\": 0, \"isMuted\": false}"
    );
}

#[test]
fn volume_text_is_trimmed_then_parsed() {
    assert_eq!(volume_from_text("  42 \n"), 42);
    assert_eq!(volume_from_text("\u{a0}17\u{3000}"), 17);
    assert_eq!(volume_from_text("+5"), 5);
    assert_eq!(volume_from_text("255"), 255);
    assert_eq!(volume_from_text("256"), 0);
    assert_eq!(volume_from_text("-3"), 0);
    assert_eq!(volume_from_text("4 2"), 0);
    assert_eq!(volume_from_text(""), 0);
}

#[test]
fn mute_text_is_true_only_for_the_word() {
    assert!(muted_from_text("true"));
    assert!(muted_from_text(" true\n"));
    assert!(!muted_from_text("false"));
    assert!(!muted_from_text("True"));
    assert!(!muted_from_text("truer"));
    assert!(!muted_from_text(""));
}

#[test]
fn status_json_renders_both_keys() {
    assert_eq!(status_json(0, false), "{\"volume\": 0, \"isMuted\": false}");
    assert_eq!(status_json(255, true), "{\"volume\": 255, \"isMuted\": true}");
    assert_eq!(status_json(9, true), "{\"volume\": 9, \"isMuted\": true}");
}

#[test]
fn status_from_text_uses_each_text() {
    assert_eq!(
        status_from_text(Some(" 64\n"), Some("true")),
        "{\"volume\": 64, \"isMuted\": true}"
    );
}
