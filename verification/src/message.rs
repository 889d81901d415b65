//! The protocol on the named pipe between the service and the provider.
//!
//! The service writes `user;password` as UTF-8 bytes; the provider reads a
//! chunk of bytes, treats the exact keep-alive marker as a pause, strips any
//! markers that are mixed into a chunk, and takes the text before the first
//! `;` as the user name and the rest as the password.

use vstd::prelude::*;
use vstd::string::*;
use vstd::utf8::*;

use crate::text::{
    lemma_remove_absent, lemma_split_once_join, lemma_split_once_parts, occurs_in, remove_all, remove_all_str,
    split_once, split_once_str,
};

verus! {

/// The characters of the keep-alive marker the provider recognises on the
/// pipe, `Q8z!pR3@xY`.
pub open spec fn heartbeat_text() -> Seq<char> {
    seq!['Q', '8', 'z', '!', 'p', 'R', '3', '@', 'x', 'Y']
}

/// The bytes of the keep-alive marker as they travel on the pipe.
pub open spec fn heartbeat_bytes() -> Seq<u8> {
    encode_utf8(heartbeat_text())
}

/// The characters of the keep-alive the service writes while a client is
/// connected.
pub open spec fn ping_text() -> Seq<char> {
    seq!['p', 'i', 'n', 'g']
}

/// The text of a credentials message: user name, `;`, password.
pub open spec fn login_text(username: Seq<char>, password: Seq<char>) -> Seq<char> {
    username + seq![';'] + password
}

/// What a chunk read from the pipe means.
pub enum PipeMessage {
    /// The keep-alive marker alone.
    Heartbeat,
    /// A user name and a password.
    Credentials { username: String, password: String },
    /// Anything else; it is dropped.
    Other,
}

/// The meaning of a chunk, over character sequences.
pub enum Meaning {
    Heartbeat,
    Credentials(Seq<char>, Seq<char>),
    Other,
}

impl View for PipeMessage {
    type V = Meaning;

    open spec fn view(&self) -> Meaning {
        match self {
            PipeMessage::Heartbeat => Meaning::Heartbeat,
            PipeMessage::Credentials { username, password } => Meaning::Credentials(
                username@,
                password@,
            ),
            PipeMessage::Other => Meaning::Other,
        }
    }
}

/// The meaning of the chunk `bytes`, whose decoded text is `text`.
pub open spec fn meaning(bytes: Seq<u8>, text: Seq<char>) -> Meaning {
    if bytes == heartbeat_bytes() {
        Meaning::Heartbeat
    } else {
        match split_once(remove_all(text, heartbeat_text()), ';') {
            Some((u, p)) => Meaning::Credentials(u, p),
            None => Meaning::Other,
        }
    }
}

/// The text that `String::from_utf8_lossy` makes of `bytes`.
pub uninterp spec fn lossy_utf8(bytes: Seq<u8>) -> Seq<char>;

/// Decodes `bytes` with `String::from_utf8_lossy`. Its documentation
/// promises that valid UTF-8 is decoded as it stands; how invalid sequences
/// are replaced by U+FFFD is not stated here, only named.
#[verifier::external_body]
fn decode_lossy(bytes: &[u8]) -> (text: String)
    ensures
        text@ == lossy_utf8(bytes@),
        valid_utf8(bytes@) ==> text@ == decode_utf8(bytes@),
{
    String::from_utf8_lossy(bytes).into_owned()
}

/// True when the two byte sequences are equal.
fn bytes_equal(a: &[u8], b: &[u8]) -> (r: bool)
    ensures
        r == (a@ == b@),
{
    if a.len() != b.len() {
        return false;
    }
    let mut i: usize = 0;
    while i < a.len()
        invariant
            a@.len() == b@.len(),
            i <= a@.len(),
            forall|k: int| 0 <= k < i ==> a@[k] == b@[k],
        decreases a@.len() - i,
    {
        if a[i] != b[i] {
            return false;
        }
        i = i + 1;
    }
    assert(a@ =~= b@);
    true
}

/// The keep-alive marker as a string, with its contents known.
fn heartbeat() -> (s: &'static str)
    ensures
        s@ == heartbeat_text(),
{
    proof {
        reveal_strlit("Q8z!pR3@xY");
    }
    let s: &'static str = "Q8z!pR3@xY";
    assert(s@ =~= heartbeat_text());
    s
}

/// What the chunk `bytes` means, given the text it decodes to.
pub fn interpret(bytes: &[u8], text: &str) -> (m: PipeMessage)
    ensures
        m@ == meaning(bytes@, text@),
{
    let marker: &str = heartbeat();
    if bytes_equal(bytes, marker.as_bytes()) {
        return PipeMessage::Heartbeat;
    }
    let cleaned: String = remove_all_str(text, marker);
    match split_once_str(cleaned.as_str(), ';') {
        Some((username, password)) => PipeMessage::Credentials { username, password },
        None => PipeMessage::Other,
    }
}

/// What the chunk `bytes` read from the pipe means.
pub fn classify_message(bytes: &[u8]) -> (m: PipeMessage)
    ensures
        m@ == meaning(bytes@, lossy_utf8(bytes@)),
        valid_utf8(bytes@) ==> m@ == meaning(bytes@, decode_utf8(bytes@)),
{
    let text: String = decode_lossy(bytes);
    interpret(bytes, text.as_str())
}

/// What the provider's pipe reader does after one read.
pub enum ReaderAction {
    /// Wait a moment before reading again.
    Pause,
    /// Store these credentials in the provider.
    Update { username: String, password: String },
    /// Drop the chunk and read again at once.
    Skip,
}

/// The action that follows a chunk that means `m`.
pub open spec fn action_for(a: ReaderAction, m: Meaning) -> bool {
    match m {
        Meaning::Heartbeat => a is Pause,
        Meaning::Credentials(u, p) => a matches ReaderAction::Update { username, password }
            && username@ == u && password@ == p,
        Meaning::Other => a is Skip,
    }
}

/// The reader's next action, after a read that failed (`None`) or gave the
/// chunk `read`.
pub fn reader_step(read: Option<&[u8]>) -> (a: ReaderAction)
    ensures
        match read {
            None => a is Pause,
            Some(bytes) => action_for(a, meaning(bytes@, lossy_utf8(bytes@))) && (valid_utf8(
                bytes@,
            ) ==> action_for(a, meaning(bytes@, decode_utf8(bytes@)))),
        },
{
    match read {
        None => ReaderAction::Pause,
        Some(bytes) => match classify_message(bytes) {
            PipeMessage::Heartbeat => ReaderAction::Pause,
            PipeMessage::Credentials { username, password } => ReaderAction::Update {
                username,
                password,
            },
            PipeMessage::Other => ReaderAction::Skip,
        },
    }
}

/// The bytes the service writes to hand `username` and `password` to the
/// provider.
pub fn login_message(username: &String, password: &String) -> (bytes: Vec<u8>)
    ensures
        bytes@ == encode_utf8(login_text(username@, password@)),
{
    let mut text: String = username.clone();
    proof {
        reveal_strlit(";");
    }
    text.append(";");
    text.append(password.as_str());
    assert(text@ =~= login_text(username@, password@));
    text.as_str().as_bytes_vec()
}

/// The keep-alive bytes the service writes while a client is connected.
pub fn ping_message() -> (bytes: Vec<u8>)
    ensures
        bytes@ == encode_utf8(ping_text()),
{
    proof {
        reveal_strlit("ping");
    }
    let s: &str = "ping";
    assert(s@ =~= ping_text());
    s.as_bytes_vec()
}

/// What the service writes for a login is read by the provider as exactly
/// that user name and password, provided the user name holds no `;` and the
/// message holds no keep-alive marker.
pub proof fn lemma_login_round_trip(username: Seq<char>, password: Seq<char>)
    requires
        !username.contains(';'),
        !occurs_in(login_text(username, password), heartbeat_text()),
    ensures
        meaning(
            encode_utf8(login_text(username, password)),
            decode_utf8(encode_utf8(login_text(username, password))),
        ) == Meaning::Credentials(username, password),
{
    let text = login_text(username, password);
    let bytes = encode_utf8(text);
    encode_utf8_decode_utf8(text);
    encode_utf8_decode_utf8(heartbeat_text());
    if bytes == heartbeat_bytes() {
        assert(text[username.len() as int] == ';');
        assert(heartbeat_text().contains(';'));
        assert(false);
    }
    lemma_remove_absent(text, heartbeat_text());
    lemma_split_once_join(username, ';', password);
}

/// The service's keep-alive never reads as credentials, and is not taken for
/// the provider's own marker either.
pub proof fn lemma_ping_is_dropped()
    ensures
        meaning(encode_utf8(ping_text()), decode_utf8(encode_utf8(ping_text()))) == Meaning::Other,
{
    encode_utf8_decode_utf8(ping_text());
    encode_utf8_decode_utf8(heartbeat_text());
    assert(encode_utf8(ping_text()) != heartbeat_bytes()) by {
        if encode_utf8(ping_text()) == heartbeat_bytes() {
            assert(ping_text().len() != heartbeat_text().len());
        }
    }
    assert(!occurs_in(ping_text(), heartbeat_text()));
    lemma_remove_absent(ping_text(), heartbeat_text());
    assert(!exists|i: int| crate::text::is_first(ping_text(), ';', i));
}

/// The marker alone always reads as a keep-alive.
pub proof fn lemma_heartbeat_pauses(text: Seq<char>)
    ensures
        meaning(heartbeat_bytes(), text) == Meaning::Heartbeat,
{
}

/// What the reader does follows the chunk's meaning: a pause for the
/// keep-alive marker, nothing for a chunk without credentials, and for
/// credentials an update that carries exactly that user name and that
/// password, however long they are.
pub proof fn lemma_action_follows_meaning(a: ReaderAction, m: Meaning)
    requires
        action_for(a, m),
    ensures
        m is Heartbeat ==> a is Pause,
        m is Other ==> a is Skip,
        m matches Meaning::Credentials(u, p) ==> (a matches ReaderAction::Update {
            username,
            password,
        } && username@.len() == u.len() && password@.len() == p.len() && username@ == u
            && password@ == p),
{
}

/// Credentials read from a chunk are the text, cleared of keep-alive
/// markers, split at its first `;`: the user name holds no `;`, and user
/// name, `;` and password put back together give that text whole.
pub proof fn lemma_credentials_are_the_text(bytes: Seq<u8>, text: Seq<char>)
    ensures
        meaning(bytes, text) matches Meaning::Credentials(u, p) ==> bytes != heartbeat_bytes()
            && !u.contains(';') && login_text(u, p) == remove_all(text, heartbeat_text()),
        meaning(bytes, text) is Other <==> (bytes != heartbeat_bytes() && !remove_all(
            text,
            heartbeat_text(),
        ).contains(';')),
{
    lemma_split_once_parts(remove_all(text, heartbeat_text()), ';');
}

/// The bytes the service writes for a login make the provider's reader
/// store exactly that user name and password, provided the user name holds
/// no `;` and the message holds no keep-alive marker.
pub proof fn lemma_reader_takes_login(a: ReaderAction, username: Seq<char>, password: Seq<char>)
    requires
        !username.contains(';'),
        !occurs_in(login_text(username, password), heartbeat_text()),
        action_for(
            a,
            meaning(
                encode_utf8(login_text(username, password)),
                decode_utf8(encode_utf8(login_text(username, password))),
            ),
        ),
    ensures
        a matches ReaderAction::Update { username: u, password: p } && u@ == username && p@
            == password,
{
    lemma_login_round_trip(username, password);
}

} // verus!
