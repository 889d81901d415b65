//! The service side: the HTTP login handler and the loop that keeps the
//! pipe to the provider alive. Both share whether a provider is connected.

use vstd::prelude::*;
use vstd::string::*;
use vstd::utf8::*;

use crate::com::{ERROR_BROKEN_PIPE, ERROR_NO_DATA};
use crate::message::{login_message, login_text, ping_message, ping_text};
use crate::text::{decimal, find_param, lookup, push_decimal, unique_keys};

verus! {

/// The query parameter that carries the user name.
pub open spec fn user_key() -> Seq<char> {
    seq!['u', 's', 'e', 'r']
}

/// The query parameter that carries the password.
pub open spec fn passwd_key() -> Seq<char> {
    seq!['p', 'a', 's', 's', 'w', 'd']
}

/// Whether a failed pipe write with the Win32 error `code` means that the
/// provider went away.
pub open spec fn peer_gone(code: u32) -> bool {
    code == ERROR_BROKEN_PIPE || code == ERROR_NO_DATA
}

/// The answer of the login handler.
#[derive(PartialEq, Eq, Structural)]
pub enum LoginReply {
    /// No provider is connected to the pipe.
    NoConnection,
    /// The credentials were written to the pipe.
    Success,
    /// The user name or the password is missing.
    InvalidParams,
    /// Writing failed with this Win32 error.
    UnexpectedError(u32),
}

/// The text sent back for a reply.
pub open spec fn reply_text(reply: LoginReply) -> Seq<char> {
    match reply {
        LoginReply::NoConnection => seq!['n', 'o', ' ', 'c', 'o', 'n', 'n', 'e', 'c', 't', 'i', 'o', 'n'],
        LoginReply::Success => seq!['s', 'u', 'c', 'c', 'e', 's', 's'],
        LoginReply::InvalidParams => seq!['i', 'n', 'v', 'a', 'l', 'i', 'd', ' ', 'p', 'a', 'r', 'a', 'm', 's'],
        LoginReply::UnexpectedError(code) => error_text(code),
    }
}

/// `Unexpected error: ` followed by the code in decimal.
pub open spec fn error_text(code: u32) -> Seq<char> {
    seq!['U', 'n', 'e', 'x', 'p', 'e', 'c', 't', 'e', 'd', ' ', 'e', 'r', 'r', 'o', 'r', ':', ' ']
        + decimal(code as nat)
}

impl LoginReply {
    /// The text sent back for this reply.
    pub fn text(&self) -> (s: String)
        ensures
            s@ == reply_text(*self),
    {
        match self {
            LoginReply::NoConnection => {
                proof {
                    reveal_strlit("no connection");
                }
                let s: String = "no connection".to_owned();
                assert(s@ =~= reply_text(*self));
                s
            },
            LoginReply::Success => {
                proof {
                    reveal_strlit("success");
                }
                let s: String = "success".to_owned();
                assert(s@ =~= reply_text(*self));
                s
            },
            LoginReply::InvalidParams => {
                proof {
                    reveal_strlit("invalid params");
                }
                let s: String = "invalid params".to_owned();
                assert(s@ =~= reply_text(*self));
                s
            },
            LoginReply::UnexpectedError(code) => error_message(*code),
        }
    }
}

/// `Unexpected error: ` followed by `code` in decimal.
pub fn error_message(code: u32) -> (s: String)
    ensures
        s@ == error_text(code),
{
    proof {
        reveal_strlit("Unexpected error: ");
    }
    let mut s: String = "Unexpected error: ".to_owned();
    assert(s@ =~= seq![
        'U', 'n', 'e', 'x', 'p', 'e', 'c', 't', 'e', 'd', ' ', 'e', 'r', 'r', 'o', 'r', ':', ' '
    ]);
    push_decimal(&mut s, code);
    s
}

/// The first step of a login: answer at once, or write these bytes to the
/// pipe first.
pub enum LoginStep {
    Reply(LoginReply),
    Send(Vec<u8>),
}

/// The first step of a login request with the query parameters `params`,
/// one pair per key as the query map holds them, while a provider is or is
/// not `connected`.
pub fn login_request(connected: bool, params: &Vec<(String, String)>) -> (step: LoginStep)
    requires
        unique_keys(params@),
    ensures
        !connected ==> step == LoginStep::Reply(LoginReply::NoConnection),
        connected ==> match (lookup(params@, user_key()), lookup(params@, passwd_key())) {
            (Some(u), Some(p)) => step matches LoginStep::Send(bytes) && bytes@ == encode_utf8(
                login_text(u, p),
            ),
            _ => step == LoginStep::Reply(LoginReply::InvalidParams),
        },
{
    if !connected {
        return LoginStep::Reply(LoginReply::NoConnection);
    }
    proof {
        reveal_strlit("user");
        reveal_strlit("passwd");
    }
    let user_name: String = "user".to_owned();
    let passwd_name: String = "passwd".to_owned();
    assert(user_name@ =~= user_key());
    assert(passwd_name@ =~= passwd_key());
    match (find_param(params, &user_name), find_param(params, &passwd_name)) {
        (Some(username), Some(passwd)) => LoginStep::Send(login_message(&username, &passwd)),
        _ => LoginStep::Reply(LoginReply::InvalidParams),
    }
}

/// How a login ends after the write: the reply, and whether the pipe is to
/// be disconnected (and the provider counted as gone).
pub struct LoginOutcome {
    pub reply: LoginReply,
    pub disconnect: bool,
}

/// The end of a login, given whether the write succeeded or failed with a
/// Win32 error.
pub fn login_written(written: Result<(), u32>) -> (out: LoginOutcome)
    ensures
        match written {
            Ok(()) => out.reply == LoginReply::Success && !out.disconnect,
            Err(code) => if peer_gone(code) {
                out.reply == LoginReply::NoConnection && out.disconnect
            } else {
                out.reply == LoginReply::UnexpectedError(code) && !out.disconnect
            },
        },
{
    match written {
        Ok(()) => LoginOutcome { reply: LoginReply::Success, disconnect: false },
        Err(code) => {
            if code == ERROR_BROKEN_PIPE || code == ERROR_NO_DATA {
                LoginOutcome { reply: LoginReply::NoConnection, disconnect: true }
            } else {
                LoginOutcome { reply: LoginReply::UnexpectedError(code), disconnect: false }
            }
        },
    }
}

/// What the keep-alive loop does next.
pub enum LinkAction {
    /// Write these keep-alive bytes to the connected provider.
    SendPing(Vec<u8>),
    /// Wait for a provider to connect to the pipe.
    AwaitClient,
}

/// The keep-alive loop's next action while a provider is or is not
/// `connected`.
pub fn link_action(connected: bool) -> (a: LinkAction)
    ensures
        connected ==> (a matches LinkAction::SendPing(bytes) && bytes@ == encode_utf8(ping_text())),
        !connected ==> a is AwaitClient,
{
    if connected {
        LinkAction::SendPing(ping_message())
    } else {
        LinkAction::AwaitClient
    }
}

/// What the keep-alive loop does after writing a keep-alive.
#[derive(PartialEq, Eq, Structural)]
pub enum PingOutcome {
    /// Sleep a second and go on.
    Continue,
    /// Disconnect the pipe, count the provider as gone, sleep and go on.
    Disconnect,
    /// Report the Win32 error and stop the loop.
    Stop(u32),
}

/// The keep-alive loop's reaction to the write of a keep-alive.
pub fn ping_written(written: Result<(), u32>) -> (out: PingOutcome)
    ensures
        match written {
            Ok(()) => out == PingOutcome::Continue,
            Err(code) => out == (if peer_gone(code) {
                PingOutcome::Disconnect
            } else {
                PingOutcome::Stop(code)
            }),
        },
{
    match written {
        Ok(()) => PingOutcome::Continue,
        Err(code) => {
            if code == ERROR_BROKEN_PIPE || code == ERROR_NO_DATA {
                PingOutcome::Disconnect
            } else {
                PingOutcome::Stop(code)
            }
        },
    }
}

} // verus!
