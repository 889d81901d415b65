use webauth::message::{classify_message, interpret, login_message, ping_message, reader_step};
use webauth::message::{PipeMessage, ReaderAction};
use webauth::text::{find_param, push_decimal, remove_all_str, split_once_str};
use webauth::wide::to_wide;

fn credentials_of(m: PipeMessage) -> Option<(String, String)> {
    match m {
        PipeMessage::Credentials { username, password } => Some((username, password)),
        _ => None,
    }
}

#[test]
fn wide_ascii_is_null_terminated() {
    assert_eq!(to_wide("Ab"), vec![65u16, 98, 0]);
    assert_eq!(to_wide(""), vec![0u16]);
}

#[test]
fn wide_encodes_surrogate_pairs() {
    assert_eq!(to_wide("\u{1F600}"), vec![0xD83Du16, 0xDE00, 0]);
    assert_eq!(to_wide("é"), vec![0xE9u16, 0]);
    let expected: Vec<u16> = "x\u{10FFFF}€".encode_utf16().chain([0]).collect();
    assert_eq!(to_wide("x\u{10FFFF}€"), expected);
}

#[test]
fn remove_all_drops_every_marker() {
    assert_eq!(remove_all_str("aQ8z!pR3@xYbQ8z!pR3@xY", "Q8z!pR3@xY"), "ab");
    assert_eq!(remove_all_str("aaa", "aa"), "a");
    assert_eq!(remove_all_str("abc", ""), "abc");
    assert_eq!(remove_all_str("", "x"), "");
}

#[test]
fn split_once_at_first_separator() {
    assert_eq!(
        split_once_str("bob;pa;ss", ';'),
        Some(("bob".to_string(), "pa;ss".to_string()))
    );
    assert_eq!(split_once_str(";", ';'), Some((String::new(), String::new())));
    assert_eq!(split_once_str("nothing", ';'), None);
}

#[test]
fn find_param_takes_first_match() {
    let params = vec![
        ("passwd".to_string(), "pw".to_string()),
        ("user".to_string(), "alice".to_string()),
        ("user".to_string(), "bob".to_string()),
    ];
    assert_eq!(find_param(&params, &"user".to_string()), Some("alice".to_string()));
    assert_eq!(find_param(&params, &"username".to_string()), None);
}

#[test]
fn decimal_numerals() {
    let mut s = String::from("n=");
    push_decimal(&mut s, 0);
    assert_eq!(s, "n=0");
    let mut t = String::new();
    push_decimal(&mut t, 4294967295);
    assert_eq!(t, "4294967295");
    let mut u = String::new();
    push_decimal(&mut u, 109);
    assert_eq!(u, "109");
}

#[test]
fn heartbeat_alone_pauses() {
    assert!(matches!(classify_message(b"Q8z!pR3@xY"), PipeMessage::Heartbeat));
    assert!(matches!(reader_step(Some(b"Q8z!pR3@xY")), ReaderAction::Pause));
    assert!(matches!(reader_step(None), ReaderAction::Pause));
}

#[test]
fn credentials_are_split_at_first_semicolon() {
    assert_eq!(
        credentials_of(classify_message(b"bob;s3cr;et")),
        Some(("bob".to_string(), "s3cr;et".to_string()))
    );
    match reader_step(Some(b"alice;pw")) {
        ReaderAction::Update { username, password } => {
            assert_eq!(username, "alice");
            assert_eq!(password, "pw");
        }
        _ => panic!("expected an update"),
    }
}

#[test]
fn markers_inside_a_chunk_are_stripped() {
    assert_eq!(
        credentials_of(classify_message(b"Q8z!pR3@xYbob;pwQ8z!pR3@xY")),
        Some(("bob".to_string(), "pw".to_string()))
    );
    assert!(matches!(classify_message(b"Q8z!pR3@xYQ8z!pR3@xY"), PipeMessage::Other));
}

#[test]
fn chunks_without_separator_are_dropped() {
    assert!(matches!(classify_message(b"ping"), PipeMessage::Other));
    assert!(matches!(reader_step(Some(b"ping")), ReaderAction::Skip));
    assert!(matches!(classify_message(b""), PipeMessage::Other));
}

#[test]
fn chunks_are_decoded_as_utf8() {
    assert_eq!(
        credentials_of(classify_message("jörg;päss".as_bytes())),
        Some(("jörg".to_string(), "päss".to_string()))
    );
    assert_eq!(
        credentials_of(classify_message(&[0xFF, b';', b'x'])),
        Some(("\u{FFFD}".to_string(), "x".to_string()))
    );
}

#[test]
fn interpret_uses_given_text() {
    assert_eq!(
        credentials_of(interpret(b"raw", "a;b")),
        Some(("a".to_string(), "b".to_string()))
    );
    assert!(matches!(interpret(b"Q8z!pR3@xY", "a;b"), PipeMessage::Heartbeat));
}

#[test]
fn login_message_round_trip() {
    let bytes = login_message(&"bob".to_string(), &"hunter;2".to_string());
    assert_eq!(bytes, b"bob;hunter;2".to_vec());
    assert_eq!(
        credentials_of(classify_message(&bytes)),
        Some(("bob".to_string(), "hunter;2".to_string()))
    );
}

#[test]
fn ping_is_not_credentials() {
    let bytes = ping_message();
    assert_eq!(bytes, b"ping".to_vec());
    assert!(matches!(classify_message(&bytes), PipeMessage::Other));
}
