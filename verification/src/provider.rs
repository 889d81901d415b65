//! The credential provider: it holds the credentials last received over the
//! pipe and offers one tile for them to the logon UI, telling the UI when
//! they change.

use vstd::prelude::*;

use vstd::utf8::*;

use crate::com::{CPUS_LOGON, CPUS_UNLOCK_WORKSTATION, E_NOTIMPL, S_FALSE};
use crate::credential::CredentialProviderCredential;
use crate::message::{heartbeat_text, lemma_login_round_trip, login_text, meaning, Meaning};
use crate::text::occurs_in;

verus! {

/// The provider. `E` is the logon UI's event sink, handed over by `Advise`.
pub struct CredentialProvider<E> {
    event: Option<E>,
    context: Option<usize>,
    computername: String,
    username: Option<String>,
    password: Option<String>,
}

/// The provider's state, over character sequences.
pub struct ProviderState {
    /// Whether an event sink is held.
    pub advised: bool,
    /// The advise context last given.
    pub context: Option<usize>,
    pub computername: Seq<char>,
    pub username: Option<Seq<char>>,
    pub password: Option<Seq<char>>,
}

/// The character sequence held in an optional string.
pub open spec fn opt_view(s: Option<String>) -> Option<Seq<char>> {
    match s {
        Some(v) => Some(v@),
        None => None,
    }
}

impl<E> View for CredentialProvider<E> {
    type V = ProviderState;

    closed spec fn view(&self) -> ProviderState {
        ProviderState {
            advised: self.event is Some,
            context: self.context,
            computername: self.computername@,
            username: opt_view(self.username),
            password: opt_view(self.password),
        }
    }
}

/// User name and password are held together or not at all.
pub open spec fn paired(s: ProviderState) -> bool {
    s.username is Some == s.password is Some
}

/// The state of a new provider on the computer `computername`.
pub open spec fn fresh(computername: Seq<char>) -> ProviderState {
    ProviderState {
        advised: false,
        context: None,
        computername,
        username: None,
        password: None,
    }
}

/// The state after credentials `username` and `password` arrived.
pub open spec fn after_update(s: ProviderState, username: Seq<char>, password: Seq<char>) -> ProviderState {
    ProviderState { username: Some(username), password: Some(password), ..s }
}

/// The state after the logon UI advised with or without an event sink.
pub open spec fn after_advise(s: ProviderState, advised: bool, context: usize) -> ProviderState {
    ProviderState { advised, context: Some(context), ..s }
}

/// The state after the logon UI withdrew its event sink; the context stays.
pub open spec fn after_unadvise(s: ProviderState) -> ProviderState {
    ProviderState { advised: false, ..s }
}

/// The context with which the logon UI is told of new credentials, if it is
/// told at all: only with an event sink and a context at hand.
pub open spec fn notification(s: ProviderState) -> Option<usize> {
    if s.advised {
        s.context
    } else {
        None
    }
}

/// The number of tiles offered: one once a user name is known.
pub open spec fn credential_count(s: ProviderState) -> u32 {
    if s.username is Some {
        1
    } else {
        0
    }
}

/// The tile offered, as computer name, user name and password, or the
/// status when no complete credentials are held.
pub open spec fn credential_at(s: ProviderState) -> Result<(Seq<char>, Seq<char>, Seq<char>), i32> {
    match (s.username, s.password) {
        (Some(u), Some(p)) => Ok((s.computername, u, p)),
        _ => Err(E_NOTIMPL),
    }
}

/// Whether the provider serves the usage scenario `scenario`: logon and
/// unlock.
pub open spec fn serves_scenario(scenario: i32) -> bool {
    scenario == CPUS_LOGON || scenario == CPUS_UNLOCK_WORKSTATION
}

/// The answer to `GetCredentialCount`: the count, the default tile, and
/// whether to log on with the default tile at once.
pub struct CredentialCount {
    pub count: u32,
    pub default: u32,
    pub autologon_with_default: bool,
}

impl<E> CredentialProvider<E> {
    /// Every provider holds its user name and password together.
    #[verifier::type_invariant]
    spec fn credentials_paired(self) -> bool {
        self.username is Some == self.password is Some
    }

    /// The event sink held.
    pub closed spec fn held_event(&self) -> Option<E> {
        self.event
    }

    /// A provider for the computer named `computername`, or `None` when the
    /// name is not known.
    pub fn new(computername: Option<String>) -> (res: Option<Self>)
        ensures
            match computername {
                Some(name) => res matches Some(p) && p@ == fresh(name@),
                None => res is None,
            },
    {
        match computername {
            Some(name) => Some(
                CredentialProvider {
                    event: None,
                    context: None,
                    computername: name,
                    username: None,
                    password: None,
                },
            ),
            None => None,
        }
    }

    /// Stores new credentials, and returns the context with which to tell
    /// the logon UI's event sink that they changed, if one is held.
    pub fn update(&mut self, username: String, password: String) -> (notify: Option<usize>)
        ensures
            final(self)@ == after_update(old(self)@, username@, password@),
            final(self).held_event() == old(self).held_event(),
            notify == notification(old(self)@),
            paired(final(self)@),
    {
        store_pair(&mut self.username, &mut self.password, username, password);
        if self.event.is_some() && self.context.is_some() {
            self.context
        } else {
            None
        }
    }

    /// The event sink held, if any.
    pub fn event(&self) -> (e: Option<&E>)
        ensures
            e is Some == self@.advised,
            e matches Some(r) ==> self.held_event() == Some(*r),
    {
        self.event.as_ref()
    }

    /// `SetUsageScenario`: logon and unlock are served, nothing else.
    pub fn set_usage_scenario(&self, scenario: i32, _flags: u32) -> (r: Result<(), i32>)
        ensures
            r == (if serves_scenario(scenario) {
                Ok::<(), i32>(())
            } else {
                Err(E_NOTIMPL)
            }),
    {
        if scenario == CPUS_LOGON || scenario == CPUS_UNLOCK_WORKSTATION {
            Ok(())
        } else {
            Err(E_NOTIMPL)
        }
    }

    /// `SetSerialization`: nothing is taken from outside.
    pub fn set_serialization(&self) -> (r: Result<(), i32>)
        ensures
            r == Err::<(), i32>(S_FALSE),
    {
        Err(S_FALSE)
    }

    /// `Advise`: keeps the event sink (or its absence) and the context.
    pub fn advise(&mut self, event: Option<E>, context: usize) -> (r: Result<(), i32>)
        ensures
            final(self)@ == after_advise(old(self)@, event is Some, context),
            final(self).held_event() == event,
            paired(final(self)@),
            r == Ok::<(), i32>(()),
    {
        proof {
            use_type_invariant(&*self);
        }
        self.event = event;
        self.context = Some(context);
        Ok(())
    }

    /// `UnAdvise`: drops the event sink.
    pub fn unadvise(&mut self) -> (r: Result<(), i32>)
        ensures
            final(self)@ == after_unadvise(old(self)@),
            final(self).held_event() is None,
            paired(final(self)@),
            r == Ok::<(), i32>(()),
    {
        proof {
            use_type_invariant(&*self);
        }
        self.event = None;
        Ok(())
    }

    /// `GetFieldDescriptorCount`: the tile has no fields.
    pub fn get_field_descriptor_count(&self) -> (r: Result<u32, i32>)
        ensures
            r == Ok::<u32, i32>(0),
    {
        Ok(0)
    }

    /// `GetFieldDescriptorAt`: the tile has no fields.
    pub fn get_field_descriptor_at(&self, _index: u32) -> (r: Result<(), i32>)
        ensures
            r == Err::<(), i32>(E_NOTIMPL),
    {
        Err(E_NOTIMPL)
    }

    /// `GetCredentialCount`: one tile once a user name is known, tile `0`
    /// as default, logged on with at once.
    pub fn get_credential_count(&self) -> (c: CredentialCount)
        ensures
            c.count == credential_count(self@),
            c.default == 0,
            c.autologon_with_default,
            paired(self@),
    {
        proof {
            use_type_invariant(self);
        }
        let count: u32 = if self.username.is_some() {
            1
        } else {
            0
        };
        CredentialCount { count, default: 0, autologon_with_default: true }
    }

    /// `GetCredentialAt`: the tile for the credentials held, whatever the
    /// index, or `E_NOTIMPL` while the user name or password is missing.
    pub fn get_credential_at(&self, _index: u32) -> (r: Result<CredentialProviderCredential, i32>)
        ensures
            match r {
                Ok(c) => credential_at(self@) == Ok::<(Seq<char>, Seq<char>, Seq<char>), i32>(
                    (c.computername@, c.username@, c.password@),
                ),
                Err(code) => credential_at(self@) == Err::<(Seq<char>, Seq<char>, Seq<char>), i32>(
                    code,
                ),
            },
            paired(self@),
    {
        proof {
            use_type_invariant(self);
        }
        match (&self.username, &self.password) {
            (Some(username), Some(password)) => Ok(
                CredentialProviderCredential {
                    computername: self.computername.clone(),
                    username: username.clone(),
                    password: password.clone(),
                },
            ),
            _ => Err(E_NOTIMPL),
        }
    }
}

/// Stores a user name and a password into their two slots at once.
fn store_pair(
    username_slot: &mut Option<String>,
    password_slot: &mut Option<String>,
    username: String,
    password: String,
)
    ensures
        *final(username_slot) == Some(username),
        *final(password_slot) == Some(password),
    no_unwind
{
    *username_slot = Some(username);
    *password_slot = Some(password);
}

/// Credentials stored by `update` are the ones the next tile carries, and
/// one tile is offered.
pub proof fn lemma_update_then_credential(s: ProviderState, username: Seq<char>, password: Seq<char>)
    ensures
        credential_at(after_update(s, username, password)) == Ok::<
            (Seq<char>, Seq<char>, Seq<char>),
            i32,
        >((s.computername, username, password)),
        credential_count(after_update(s, username, password)) == 1,
{
}

/// The last credentials stored win.
pub proof fn lemma_update_overwrites(
    s: ProviderState,
    u1: Seq<char>,
    p1: Seq<char>,
    u2: Seq<char>,
    p2: Seq<char>,
)
    ensures
        after_update(after_update(s, u1, p1), u2, p2) == after_update(s, u2, p2),
{
}

/// A new provider offers no tile until credentials arrive.
pub proof fn lemma_fresh_offers_nothing(computername: Seq<char>)
    ensures
        credential_count(fresh(computername)) == 0,
        credential_at(fresh(computername)) == Err::<(Seq<char>, Seq<char>, Seq<char>), i32>(
            E_NOTIMPL,
        ),
        notification(fresh(computername)) is None,
{
}

/// After the logon UI advised with an event sink, new credentials are
/// announced with the context it gave.
pub proof fn lemma_advised_update_notifies(s: ProviderState, context: usize)
    ensures
        notification(after_advise(s, true, context)) == Some(context),
{
}

/// After the logon UI withdrew its event sink, new credentials are not
/// announced.
pub proof fn lemma_unadvised_update_is_silent(s: ProviderState)
    ensures
        notification(after_unadvise(s)) is None,
{
}

/// Storing credentials changes neither whether nor how the UI is told.
pub proof fn lemma_update_keeps_notification(s: ProviderState, username: Seq<char>, password: Seq<char>)
    ensures
        notification(after_update(s, username, password)) == notification(s),
{
}

/// A login the service forwards reaches the provider: once the reader
/// stores what it read from the pipe, the provider offers one tile, with
/// exactly the user name and password of the login, provided the user name
/// holds no `;` and the message holds no keep-alive marker.
pub proof fn lemma_login_unlocks(s: ProviderState, username: Seq<char>, password: Seq<char>)
    requires
        !username.contains(';'),
        !occurs_in(login_text(username, password), heartbeat_text()),
    ensures
        match meaning(
            encode_utf8(login_text(username, password)),
            decode_utf8(encode_utf8(login_text(username, password))),
        ) {
            Meaning::Credentials(u, p) => credential_at(after_update(s, u, p)) == Ok::<
                (Seq<char>, Seq<char>, Seq<char>),
                i32,
            >((s.computername, username, password)) && credential_count(after_update(s, u, p))
                == 1,
            _ => false,
        },
{
    lemma_login_round_trip(username, password);
}

/// A call that changes the provider's state: `Advise` with or without an
/// event sink and with a context, `UnAdvise`, or credentials read from the
/// pipe. The other calls only read the state.
pub enum ProviderCall {
    Advise(bool, usize),
    UnAdvise,
    Update(Seq<char>, Seq<char>),
}

/// The state after one call.
pub open spec fn apply(s: ProviderState, call: ProviderCall) -> ProviderState {
    match call {
        ProviderCall::Advise(advised, context) => after_advise(s, advised, context),
        ProviderCall::UnAdvise => after_unadvise(s),
        ProviderCall::Update(username, password) => after_update(s, username, password),
    }
}

/// The state after the calls `calls`, in order.
pub open spec fn run(s: ProviderState, calls: Seq<ProviderCall>) -> ProviderState
    decreases calls.len(),
{
    if calls.len() == 0 {
        s
    } else {
        run(apply(s, calls[0]), calls.drop_first())
    }
}

/// No call in `calls` is an `Advise`.
pub open spec fn no_advise(calls: Seq<ProviderCall>) -> bool {
    forall|i: int| 0 <= i < calls.len() ==> !(#[trigger] calls[i] is Advise)
}

/// Every call in `calls` stores credentials.
pub open spec fn only_updates(calls: Seq<ProviderCall>) -> bool {
    forall|i: int| 0 <= i < calls.len() ==> #[trigger] calls[i] is Update
}

/// Running two lists of calls is running one after the other.
pub proof fn lemma_run_concat(s: ProviderState, a: Seq<ProviderCall>, b: Seq<ProviderCall>)
    ensures
        run(s, a + b) == run(run(s, a), b),
    decreases a.len(),
{
    if a.len() == 0 {
        assert(a + b =~= b);
    } else {
        assert((a + b).drop_first() =~= a.drop_first() + b);
        assert((a + b)[0] == a[0]);
        lemma_run_concat(apply(s, a[0]), a.drop_first(), b);
    }
}

/// Running calls and then one more is applying that one to the result.
pub proof fn lemma_run_push(s: ProviderState, calls: Seq<ProviderCall>, last: ProviderCall)
    ensures
        run(s, calls.push(last)) == apply(run(s, calls), last),
{
    lemma_run_concat(s, calls, seq![last]);
    assert(calls + seq![last] =~= calls.push(last));
    let t = run(s, calls);
    assert(seq![last].drop_first() =~= Seq::<ProviderCall>::empty());
    assert(run(t, seq![last]) == run(apply(t, last), Seq::<ProviderCall>::empty()));
}

/// Whatever calls follow, user name and password stay held together.
pub proof fn lemma_run_keeps_paired(s: ProviderState, calls: Seq<ProviderCall>)
    requires
        paired(s),
    ensures
        paired(run(s, calls)),
    decreases calls.len(),
{
    if calls.len() > 0 {
        lemma_run_keeps_paired(apply(s, calls[0]), calls.drop_first());
    }
}

/// In every state a new provider reaches, user name and password are held
/// together, so a tile is offered exactly when one is counted.
pub proof fn lemma_reachable_credential_iff_count(computername: Seq<char>, calls: Seq<ProviderCall>)
    ensures
        paired(run(fresh(computername), calls)),
        credential_at(run(fresh(computername), calls)) is Ok <==> credential_count(
            run(fresh(computername), calls),
        ) == 1,
{
    lemma_run_keeps_paired(fresh(computername), calls);
}

/// Once a user name is held, the tile count stays `1` whatever calls follow.
pub proof fn lemma_count_stays_one(s: ProviderState, calls: Seq<ProviderCall>)
    requires
        credential_count(s) == 1,
    ensures
        credential_count(run(s, calls)) == 1,
    decreases calls.len(),
{
    if calls.len() > 0 {
        lemma_count_stays_one(apply(s, calls[0]), calls.drop_first());
    }
}

/// Before any credentials arrive a new provider counts no tile; once they
/// have arrived it counts one, whatever calls come before or after.
pub proof fn lemma_count_after_first_update(
    computername: Seq<char>,
    before: Seq<ProviderCall>,
    username: Seq<char>,
    password: Seq<char>,
    after: Seq<ProviderCall>,
)
    ensures
        credential_count(run(fresh(computername), before.push(ProviderCall::Update(username, password)) + after)) == 1,
{
    let first = before.push(ProviderCall::Update(username, password));
    lemma_run_concat(fresh(computername), first, after);
    lemma_run_push(fresh(computername), before, ProviderCall::Update(username, password));
    lemma_count_stays_one(run(fresh(computername), first), after);
}

/// A new provider counts no tile while no credentials have arrived,
/// whatever else is called.
pub proof fn lemma_fresh_without_updates(computername: Seq<char>, calls: Seq<ProviderCall>)
    requires
        forall|i: int| 0 <= i < calls.len() ==> !(#[trigger] calls[i] is Update),
    ensures
        credential_count(run(fresh(computername), calls)) == 0,
{
    lemma_fresh_without_updates_from(fresh(computername), calls);
}

/// Calls without credentials keep a provider that holds none at a count of
/// `0`.
pub proof fn lemma_fresh_without_updates_from(s: ProviderState, calls: Seq<ProviderCall>)
    requires
        s.username is None,
        forall|i: int| 0 <= i < calls.len() ==> !(#[trigger] calls[i] is Update),
    ensures
        credential_count(run(s, calls)) == 0,
    decreases calls.len(),
{
    if calls.len() > 0 {
        assert(!(calls[0] is Update));
        assert forall|i: int| 0 <= i < calls.drop_first().len() implies !(
        #[trigger] calls.drop_first()[i] is Update) by {
            assert(calls.drop_first()[i] == calls[i + 1]);
        }
        lemma_fresh_without_updates_from(apply(s, calls[0]), calls.drop_first());
    }
}

/// After the last `Advise` handed over an event sink with `context`, and no
/// `UnAdvise` followed, every update is announced with that context.
pub proof fn lemma_last_advise_notifies(
    s: ProviderState,
    before: Seq<ProviderCall>,
    context: usize,
    after: Seq<ProviderCall>,
)
    requires
        only_updates(after),
    ensures
        notification(run(s, before.push(ProviderCall::Advise(true, context)) + after)) == Some(
            context,
        ),
{
    let first = before.push(ProviderCall::Advise(true, context));
    lemma_run_concat(s, first, after);
    lemma_run_push(s, before, ProviderCall::Advise(true, context));
    lemma_updates_keep_notification(run(s, first), after);
}

/// Updates alone change neither whether nor how the UI is told.
pub proof fn lemma_updates_keep_notification(s: ProviderState, calls: Seq<ProviderCall>)
    requires
        only_updates(calls),
    ensures
        notification(run(s, calls)) == notification(s),
    decreases calls.len(),
{
    if calls.len() > 0 {
        assert(calls[0] is Update);
        assert forall|i: int| 0 <= i < calls.drop_first().len() implies #[trigger] calls.drop_first()[i] is Update by {
            assert(calls.drop_first()[i] == calls[i + 1]);
        }
        lemma_updates_keep_notification(apply(s, calls[0]), calls.drop_first());
    }
}

/// Without an event sink, and with no `Advise` to come, no update is ever
/// announced; the credentials are stored all the same.
pub proof fn lemma_silent_without_sink(s: ProviderState, calls: Seq<ProviderCall>)
    requires
        !s.advised,
        no_advise(calls),
    ensures
        notification(run(s, calls)) is None,
        !run(s, calls).advised,
    decreases calls.len(),
{
    if calls.len() > 0 {
        assert(!(calls[0] is Advise));
        assert forall|i: int| 0 <= i < calls.drop_first().len() implies !(
        #[trigger] calls.drop_first()[i] is Advise) by {
            assert(calls.drop_first()[i] == calls[i + 1]);
        }
        lemma_silent_without_sink(apply(s, calls[0]), calls.drop_first());
    }
}

/// No update is announced when no `Advise` was ever made, when `UnAdvise`
/// followed the last `Advise`, or when the last `Advise` handed over no
/// event sink.
pub proof fn lemma_unadvised_runs_are_silent(
    computername: Seq<char>,
    s: ProviderState,
    before: Seq<ProviderCall>,
    context: usize,
    after: Seq<ProviderCall>,
)
    requires
        no_advise(after),
    ensures
        no_advise(before) ==> notification(run(fresh(computername), before)) is None,
        notification(run(s, before.push(ProviderCall::UnAdvise) + after)) is None,
        notification(run(s, before.push(ProviderCall::Advise(false, context)) + after)) is None,
{
    if no_advise(before) {
        lemma_silent_without_sink(fresh(computername), before);
    }
    let un = before.push(ProviderCall::UnAdvise);
    lemma_run_concat(s, un, after);
    lemma_run_push(s, before, ProviderCall::UnAdvise);
    lemma_silent_without_sink(run(s, un), after);
    let off = before.push(ProviderCall::Advise(false, context));
    lemma_run_concat(s, off, after);
    lemma_run_push(s, before, ProviderCall::Advise(false, context));
    lemma_silent_without_sink(run(s, off), after);
}

/// The provider takes part in exactly two usage scenarios: logon (`1`) and
/// unlock (`2`); change password, CredUI, PLAP and every other value are
/// refused.
pub proof fn lemma_served_scenarios(scenario: i32)
    ensures
        serves_scenario(scenario) <==> (scenario == 1 || scenario == 2),
{
}

/// A new provider keeps the whole computer name it was given and holds no
/// credentials and no event sink.
pub proof fn lemma_fresh_keeps_name(computername: Seq<char>)
    ensures
        fresh(computername).computername == computername,
        fresh(computername).username is None,
        fresh(computername).password is None,
        !fresh(computername).advised,
        fresh(computername).context is None,
{
}

/// No call changes the computer name.
pub proof fn lemma_run_keeps_name(s: ProviderState, calls: Seq<ProviderCall>)
    ensures
        run(s, calls).computername == s.computername,
    decreases calls.len(),
{
    if calls.len() > 0 {
        lemma_run_keeps_name(apply(s, calls[0]), calls.drop_first());
    }
}

/// Whatever calls a new provider for `computername` receives, the tile it
/// offers carries that whole computer name, and after credentials arrive the
/// tile carries them unchanged.
pub proof fn lemma_tile_carries_computer_name(
    computername: Seq<char>,
    calls: Seq<ProviderCall>,
    username: Seq<char>,
    password: Seq<char>,
)
    ensures
        credential_at(run(fresh(computername), calls)) matches Ok((c, _, _)) ==> c
            == computername,
        credential_at(after_update(run(fresh(computername), calls), username, password)) == Ok::<
            (Seq<char>, Seq<char>, Seq<char>),
            i32,
        >((computername, username, password)),
{
    lemma_run_keeps_name(fresh(computername), calls);
}

} // verus!
