//! One refresh of the service token, as a state machine.
//!
//! A refresh mints a new service token from the long-lived token, takes over the session
//! that came of it, and has it saved where there is a store. The machine takes what
//! happened and answers with what to do next; its caller does the I/O.

use crate::error::BridgeError;
use crate::session::{AuthState, Session};
use vstd::prelude::*;

verus! {

/// How far a refresh has come.
#[derive(Debug, Clone, Copy, PartialEq, Eq, Structural)]
pub enum RefreshPhase {
    /// Nothing has been done.
    Idle,
    /// A new service token is being minted.
    Minting,
    /// The new session is being saved.
    Saving,
    /// The refresh is over.
    Closed,
}

/// What happened.
#[derive(Debug)]
pub enum RefreshEvent {
    /// The refresh can begin.
    Begin,
    /// The login service made this session with a new service token.
    Minted { session: Session },
    /// The login service made none.
    MintFailed,
    /// The account was saved.
    Saved,
    /// The account could not be saved.
    SaveFailed,
}

/// What to do next.
#[derive(Debug)]
pub enum RefreshAction {
    /// Have a new service token minted from this session.
    Mint { session: Session },
    /// Save the account.
    Save,
    /// The refresh is done, and the account holds the new session.
    Succeed,
    /// Hand on the login service's error.
    Raise,
    /// Fail the refresh.
    Fail { error: BridgeError },
    /// Nothing: the event does not belong to the refresh's phase.
    Ignore,
}

/// One refresh of the service token.
#[derive(Debug)]
pub struct TokenRefresh {
    has_store: bool,
    phase: RefreshPhase,
}

/// A [`TokenRefresh`] with its fields open.
pub struct TokenRefreshView {
    /// Whether there is a store to save the account in.
    pub has_store: bool,
    pub phase: RefreshPhase,
}

impl View for TokenRefresh {
    type V = TokenRefreshView;

    closed spec fn view(&self) -> TokenRefreshView {
        TokenRefreshView { has_store: self.has_store, phase: self.phase }
    }
}

/// A refresh and its account, and what to do next.
pub struct RefreshStep {
    pub refresh: TokenRefreshView,
    pub auth: AuthState,
    pub action: RefreshAction,
}

/// A refresh with the given store and phase, beside its account and its next action.
pub open spec fn refresh_step(
    has_store: bool,
    phase: RefreshPhase,
    auth: AuthState,
    action: RefreshAction,
) -> RefreshStep {
    RefreshStep { refresh: TokenRefreshView { has_store, phase }, auth, action }
}

/// What becomes of a refresh and its account by an event, and what to do next.
pub open spec fn after_refresh_event(
    refresh: TokenRefreshView,
    auth: AuthState,
    event: RefreshEvent,
) -> RefreshStep {
    let store = refresh.has_store;
    match (refresh.phase, event) {
        (RefreshPhase::Idle, RefreshEvent::Begin) => if auth.session.pass_token is Some {
            refresh_step(
                store,
                RefreshPhase::Minting,
                auth,
                RefreshAction::Mint { session: auth.session },
            )
        } else {
            refresh_step(
                store,
                RefreshPhase::Closed,
                auth,
                RefreshAction::Fail { error: BridgeError::NotAuthenticated },
            )
        },
        (RefreshPhase::Minting, RefreshEvent::Minted { session }) => if store {
            refresh_step(store, RefreshPhase::Saving, AuthState { session }, RefreshAction::Save)
        } else {
            refresh_step(store, RefreshPhase::Closed, AuthState { session }, RefreshAction::Succeed)
        },
        (RefreshPhase::Minting, RefreshEvent::MintFailed) => refresh_step(
            store,
            RefreshPhase::Closed,
            auth,
            RefreshAction::Raise,
        ),
        (RefreshPhase::Saving, RefreshEvent::Saved) => refresh_step(
            store,
            RefreshPhase::Closed,
            auth,
            RefreshAction::Succeed,
        ),
        (RefreshPhase::Saving, RefreshEvent::SaveFailed) => refresh_step(
            store,
            RefreshPhase::Closed,
            auth,
            RefreshAction::Succeed,
        ),
        _ => refresh_step(store, refresh.phase, auth, RefreshAction::Ignore),
    }
}

impl TokenRefresh {
    /// A refresh of which nothing has been done.
    pub fn new(has_store: bool) -> (refresh: TokenRefresh)
        ensures
            refresh@ == (TokenRefreshView { has_store, phase: RefreshPhase::Idle }),
    {
        TokenRefresh { has_store, phase: RefreshPhase::Idle }
    }

    /// Takes what happened and says what to do next. The account takes over the session
    /// with the new service token; an account that cannot be saved is used all the same.
    pub fn step(&mut self, auth: &mut AuthState, event: RefreshEvent) -> (action: RefreshAction)
        ensures
            (RefreshStep { refresh: final(self)@, auth: *final(auth), action })
                == after_refresh_event(old(self)@, *old(auth), event),
    {
        match (self.phase, event) {
            (RefreshPhase::Idle, RefreshEvent::Begin) => {
                if auth.session.pass_token.is_none() {
                    self.phase = RefreshPhase::Closed;
                    return RefreshAction::Fail { error: BridgeError::NotAuthenticated };
                }
                self.phase = RefreshPhase::Minting;
                RefreshAction::Mint { session: auth.session.clone() }
            },
            (RefreshPhase::Minting, RefreshEvent::Minted { session }) => {
                auth.session = session;
                if self.has_store {
                    self.phase = RefreshPhase::Saving;
                    RefreshAction::Save
                } else {
                    self.phase = RefreshPhase::Closed;
                    RefreshAction::Succeed
                }
            },
            (RefreshPhase::Minting, RefreshEvent::MintFailed) => {
                self.phase = RefreshPhase::Closed;
                RefreshAction::Raise
            },
            (RefreshPhase::Saving, RefreshEvent::Saved)
            | (RefreshPhase::Saving, RefreshEvent::SaveFailed) => {
                self.phase = RefreshPhase::Closed;
                RefreshAction::Succeed
            },
            _ => RefreshAction::Ignore,
        }
    }
}

/// What has become of a refresh and its account after some events, with the last action.
pub open spec fn after_refresh_events(
    refresh: TokenRefreshView,
    auth: AuthState,
    events: Seq<RefreshEvent>,
) -> RefreshStep
    decreases events.len(),
{
    if events.len() == 0 {
        RefreshStep { refresh, auth, action: RefreshAction::Ignore }
    } else {
        let before = after_refresh_events(refresh, auth, events.drop_last());
        after_refresh_event(before.refresh, before.auth, events.last())
    }
}

/// What has become of a new refresh and its account after some events, with the last action.
pub open spec fn refreshed(
    has_store: bool,
    auth: AuthState,
    events: Seq<RefreshEvent>,
) -> RefreshStep {
    after_refresh_events(TokenRefreshView { has_store, phase: RefreshPhase::Idle }, auth, events)
}

/// The events of a refresh in which a session is minted: with a store the account is saved
/// then, which may fail.
pub open spec fn minting_events(has_store: bool, minted: Session, save_fails: bool) -> Seq<
    RefreshEvent,
> {
    if has_store {
        seq![
            RefreshEvent::Begin,
            RefreshEvent::Minted { session: minted },
            if save_fails {
                RefreshEvent::SaveFailed
            } else {
                RefreshEvent::Saved
            },
        ]
    } else {
        seq![RefreshEvent::Begin, RefreshEvent::Minted { session: minted }]
    }
}

/// A refresh in which a session is minted succeeds with an account that holds it, whether
/// or not there is a store and whether or not the account can be saved.
pub proof fn minted_session_is_taken_over(
    has_store: bool,
    auth: AuthState,
    minted: Session,
    save_fails: bool,
)
    requires
        auth.session.pass_token is Some,
    ensures
        refreshed(has_store, auth, minting_events(has_store, minted, save_fails)) == refresh_step(
            has_store,
            RefreshPhase::Closed,
            AuthState { session: minted },
            RefreshAction::Succeed,
        ),
{
    reveal_with_fuel(after_refresh_events, 4);
    let begin = RefreshEvent::Begin;
    let mint = RefreshEvent::Minted { session: minted };
    assert(minting_events(false, minted, save_fails) =~= seq![begin, mint]);
    assert(minting_events(true, minted, save_fails).drop_last() =~= seq![begin, mint]);
    assert(seq![begin, mint].drop_last() =~= seq![begin]);
    assert(seq![begin].drop_last() =~= Seq::<RefreshEvent>::empty());
}

/// A refresh that succeeds leaves the account with a session that was minted in it.
pub proof fn succeeded_refresh_stores_a_minted_session(
    has_store: bool,
    auth: AuthState,
    events: Seq<RefreshEvent>,
)
    requires
        refreshed(has_store, auth, events).action is Succeed,
    ensures
        events.contains(
            RefreshEvent::Minted { session: refreshed(has_store, auth, events).auth.session },
        ),
{
    lemma_stored_session(has_store, auth, events);
}

/// A session is in the account from when it was minted on, and nothing is minted before.
proof fn lemma_stored_session(has_store: bool, auth: AuthState, events: Seq<RefreshEvent>)
    ensures
        ({
            let now = refreshed(has_store, auth, events);
            now.refresh.phase == RefreshPhase::Saving || now.action is Succeed ==> events.contains(
                RefreshEvent::Minted { session: now.auth.session },
            )
        }),
    decreases events.len(),
{
    if events.len() > 0 {
        let front = events.drop_last();
        lemma_stored_session(has_store, auth, front);
        let before = refreshed(has_store, auth, front);
        let minted = RefreshEvent::Minted { session: before.auth.session };
        if front.contains(minted) {
            let k = choose|k: int| 0 <= k < front.len() && front[k] == minted;
            assert(events[k] == minted);
        }
        assert(events[events.len() - 1] == events.last());
    }
}

/// The account changes only by a minted session: any other event leaves it as it was.
pub proof fn account_changes_only_by_minting(
    refresh: TokenRefreshView,
    auth: AuthState,
    event: RefreshEvent,
)
    ensures
        after_refresh_event(refresh, auth, event).auth != auth ==> {
            &&& refresh.phase == RefreshPhase::Minting
            &&& event matches RefreshEvent::Minted { session } && after_refresh_event(
                refresh,
                auth,
                event,
            ).auth.session == session
        },
{
}

/// A refresh whose minting fails hands on the error and leaves the account as it was.
pub proof fn failed_minting_keeps_the_account(has_store: bool, auth: AuthState)
    requires
        auth.session.pass_token is Some,
    ensures
        refreshed(has_store, auth, seq![RefreshEvent::Begin, RefreshEvent::MintFailed])
            == refresh_step(has_store, RefreshPhase::Closed, auth, RefreshAction::Raise),
{
    reveal_with_fuel(after_refresh_events, 3);
    let begin = RefreshEvent::Begin;
    assert(seq![begin, RefreshEvent::MintFailed].drop_last() =~= seq![begin]);
    assert(seq![begin].drop_last() =~= Seq::<RefreshEvent>::empty());
}

/// Without the long-lived token nothing is minted: a full login is needed.
pub proof fn refresh_takes_the_long_lived_token(has_store: bool, auth: AuthState)
    requires
        auth.session.pass_token is None,
    ensures
        after_refresh_event(
            TokenRefreshView { has_store, phase: RefreshPhase::Idle },
            auth,
            RefreshEvent::Begin,
        ) == refresh_step(
            has_store,
            RefreshPhase::Closed,
            auth,
            RefreshAction::Fail { error: BridgeError::NotAuthenticated },
        ),
{
}

/// With the long-lived token a new refresh begins by minting from exactly the account's own
/// session, with a store as well as without one; without the token it fails for want of a login.
/// Beginning changes nothing in the account.
pub proof fn beginning_mints_from_the_account(has_store: bool, auth: AuthState)
    ensures
        ({
            let begun = after_refresh_event(
                TokenRefreshView { has_store, phase: RefreshPhase::Idle },
                auth,
                RefreshEvent::Begin,
            );
            &&& auth.session.pass_token is Some ==> begun.action is Mint && begun.action->session
                == auth.session && begun.refresh.phase == RefreshPhase::Minting
            &&& auth.session.pass_token is None ==> begun.action is Fail && begun.action->error
                == BridgeError::NotAuthenticated && begun.refresh.phase == RefreshPhase::Closed
            &&& begun.auth == auth
            &&& begun.refresh.has_store == has_store
        }),
{
}

/// A minted session is in the account at once. With a store the account is then saved, and only
/// after that, whether or not it could be, has the refresh succeeded; without one it has
/// succeeded at once. Saving does not change the account.
pub proof fn minting_is_followed_by_saving_where_there_is_a_store(
    has_store: bool,
    auth: AuthState,
    minted: Session,
    saved: bool,
)
    requires
        auth.session.pass_token is Some,
    ensures
        ({
            let begun = after_refresh_event(
                TokenRefreshView { has_store, phase: RefreshPhase::Idle },
                auth,
                RefreshEvent::Begin,
            );
            let stored = after_refresh_event(
                begun.refresh,
                begun.auth,
                RefreshEvent::Minted { session: minted },
            );
            let done = after_refresh_event(
                stored.refresh,
                stored.auth,
                if saved {
                    RefreshEvent::Saved
                } else {
                    RefreshEvent::SaveFailed
                },
            );
            &&& stored.auth.session == minted
            &&& has_store ==> stored.action is Save && done.action is Succeed
                && stored.refresh.phase == RefreshPhase::Saving && done.refresh.phase
                == RefreshPhase::Closed
            &&& !has_store ==> stored.action is Succeed && done.action is Ignore
                && stored.refresh.phase == RefreshPhase::Closed
            &&& done.auth.session == minted
        }),
{
}

/// Where nothing could be minted, the login service's error is handed on and the account is what
/// it was, with a store as well as without one.
pub proof fn failed_minting_is_raised(has_store: bool, auth: AuthState)
    requires
        auth.session.pass_token is Some,
    ensures
        ({
            let begun = after_refresh_event(
                TokenRefreshView { has_store, phase: RefreshPhase::Idle },
                auth,
                RefreshEvent::Begin,
            );
            let failed = after_refresh_event(begun.refresh, begun.auth, RefreshEvent::MintFailed);
            &&& failed.action is Raise
            &&& failed.auth == auth
            &&& failed.refresh.phase == RefreshPhase::Closed
        }),
{
}

/// A refresh waits for the start, then for the outcome of the minting, then for that of the
/// saving. Anything else is ignored and changes nothing, and whether there is a store never
/// changes.
pub proof fn refresh_takes_only_what_it_waits_for(
    refresh: TokenRefreshView,
    auth: AuthState,
    event: RefreshEvent,
)
    ensures
        ({
            let next = after_refresh_event(refresh, auth, event);
            let waits = match refresh.phase {
                RefreshPhase::Idle => event is Begin,
                RefreshPhase::Minting => event is Minted || event is MintFailed,
                RefreshPhase::Saving => event is Saved || event is SaveFailed,
                RefreshPhase::Closed => false,
            };
            &&& next.action is Ignore <==> !waits
            &&& !waits ==> next.refresh == refresh && next.auth == auth
            &&& next.refresh.has_store == refresh.has_store
            &&& refresh.phase == RefreshPhase::Saving && waits ==> next.action is Succeed
                && next.refresh.phase == RefreshPhase::Closed && next.auth == auth
        }),
{
}

/// While a session is being minted the account may change; whatever it has become, the minted
/// session takes its place, and a failure leaves it.
pub proof fn minting_decides_over_any_account(
    refresh: TokenRefreshView,
    auth: AuthState,
    minted: Session,
)
    requires
        refresh.phase == RefreshPhase::Minting,
    ensures
        ({
            let stored = after_refresh_event(
                refresh,
                auth,
                RefreshEvent::Minted { session: minted },
            );
            let failed = after_refresh_event(refresh, auth, RefreshEvent::MintFailed);
            &&& stored.auth.session == minted
            &&& refresh.has_store ==> stored.action is Save && stored.refresh.phase
                == RefreshPhase::Saving
            &&& !refresh.has_store ==> stored.action is Succeed && stored.refresh.phase
                == RefreshPhase::Closed
            &&& failed.action is Raise && failed.auth == auth && failed.refresh.phase
                == RefreshPhase::Closed
        }),
{
}

} // verus!
