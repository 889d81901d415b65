use webauth::message::classify_message;
use webauth::message::PipeMessage;
use webauth::service::{
    error_message, link_action, login_request, login_written, ping_written, LinkAction,
    LoginReply, LoginStep, PingOutcome,
};

fn params(pairs: &[(&str, &str)]) -> Vec<(String, String)> {
    pairs.iter().map(|(k, v)| (k.to_string(), v.to_string())).collect()
}

#[test]
fn login_without_connection() {
    let p = params(&[("user", "bob"), ("passwd", "pw")]);
    assert!(matches!(
        login_request(false, &p),
        LoginStep::Reply(LoginReply::NoConnection)
    ));
}

#[test]
fn login_with_both_params_sends_message() {
    let p = params(&[("passwd", "pw"), ("user", "bob")]);
    match login_request(true, &p) {
        LoginStep::Send(bytes) => {
            assert_eq!(bytes, b"bob;pw".to_vec());
            match classify_message(&bytes) {
                PipeMessage::Credentials { username, password } => {
                    assert_eq!(username, "bob");
                    assert_eq!(password, "pw");
                }
                _ => panic!("expected credentials"),
            }
        }
        _ => panic!("expected a write"),
    }
}

#[test]
fn login_with_missing_params() {
    for p in [
        params(&[("user", "bob")]),
        params(&[("passwd", "pw")]),
        params(&[("username", "bob"), ("passwd", "pw")]),
        params(&[]),
    ] {
        assert!(matches!(
            login_request(true, &p),
            LoginStep::Reply(LoginReply::InvalidParams)
        ));
    }
}

#[test]
fn login_write_results() {
    let ok = login_written(Ok(()));
    assert!(ok.reply == LoginReply::Success && !ok.disconnect);
    let broken = login_written(Err(109));
    assert!(broken.reply == LoginReply::NoConnection && broken.disconnect);
    let no_data = login_written(Err(232));
    assert!(no_data.reply == LoginReply::NoConnection && no_data.disconnect);
    let other = login_written(Err(5));
    assert!(other.reply == LoginReply::UnexpectedError(5) && !other.disconnect);
}

#[test]
fn reply_texts() {
    assert_eq!(LoginReply::NoConnection.text(), "no connection");
    assert_eq!(LoginReply::Success.text(), "success");
    assert_eq!(LoginReply::InvalidParams.text(), "invalid params");
    assert_eq!(LoginReply::UnexpectedError(5).text(), "Unexpected error: 5");
    assert_eq!(error_message(1450), "Unexpected error: 1450");
}

#[test]
fn keep_alive_loop() {
    match link_action(true) {
        LinkAction::SendPing(bytes) => assert_eq!(bytes, b"ping".to_vec()),
        _ => panic!("expected a ping"),
    }
    assert!(matches!(link_action(false), LinkAction::AwaitClient));
    assert!(ping_written(Ok(())) == PingOutcome::Continue);
    assert!(ping_written(Err(109)) == PingOutcome::Disconnect);
    assert!(ping_written(Err(232)) == PingOutcome::Disconnect);
    assert!(ping_written(Err(6)) == PingOutcome::Stop(6));
}
