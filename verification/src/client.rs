//! The client of the mimo channel: its session, its settings and its calls.

use crate::config::{
    config_of, host_of, mimo_host, timeout_of, ClientConfig, PATH_CHAT, PATH_QUOTA,
};
use crate::error::BridgeErrorView;
use crate::exchange::{
    actions, after, after_all, each_request_is_the_call_again, exchange_retries_at_most_once,
    in_phase, prepared, refreshes, refused_token_is_refreshed_and_the_request_replayed, sends,
    ActionView, Event, EventView, Exchange, ExchangeView, Method, Phase, RequestView,
};
use crate::headers::{is_field_text, request_carries_six_headers, request_headers};
use crate::refresh::{
    minted_session_is_taken_over, minting_events, refreshed,
    succeeded_refresh_stores_a_minted_session, RefreshEvent, RefreshStep,
};
use crate::session::{AuthSnapshot, AuthState, Session};
use crate::status::UNAUTHORIZED;
use serde_json::Value;
use vstd::prelude::*;
use vstd::utf8::encode_utf8;

verus! {

/// The client of the mimo channel.
#[derive(Debug)]
pub struct MimoClient {
    /// The account that calls are made for.
    pub auth: AuthState,
    /// How the connections are kept. The service token travels with each request, so
    /// these settings outlive every refresh.
    pub config: ClientConfig,
}

/// The event that a client's calls can be sent to a host with its session.
pub open spec fn ready_event(client: MimoClient, host: Seq<char>) -> EventView {
    EventView::Ready { session: client.auth.session, host }
}

/// A client whose account is another.
pub open spec fn with_auth(client: MimoClient, auth: AuthState) -> MimoClient {
    MimoClient { auth, config: client.config }
}

/// What is shown of a client's account.
pub open spec fn status_of(client: MimoClient) -> AuthSnapshot {
    AuthSnapshot {
        authenticated: client.auth.session.authenticated,
        nick: client.auth.session.nick,
        user_id: client.auth.session.user_id,
        refreshed_at: client.auth.session.refreshed_at,
    }
}

impl MimoClient {
    /// A client for an account, with the ceiling for one upstream call as set.
    pub fn new(auth: AuthState, timeout_setting: Option<&str>) -> (client: MimoClient)
        ensures
            client.auth == auth,
            client.config == config_of(
                timeout_of(
                    match timeout_setting {
                        Some(text) => Some(text@),
                        None => None,
                    },
                ),
            ),
    {
        MimoClient { auth, config: ClientConfig::new(timeout_setting) }
    }

    /// A call that posts a JSON body. Streaming is asked for by the body itself.
    pub fn post_json(&self, path: &str, body: Value) -> (exchange: Exchange)
        ensures
            exchange@ == (ExchangeView {
                method: Method::Post,
                path: path@,
                body: Some(body),
                phase: Phase::Idle,
            }),
    {
        Exchange::new(Method::Post, path, Some(body))
    }

    /// A call that fetches.
    pub fn get(&self, path: &str) -> (exchange: Exchange)
        ensures
            exchange@ == (ExchangeView {
                method: Method::Get,
                path: path@,
                body: None,
                phase: Phase::Idle,
            }),
    {
        Exchange::new(Method::Get, path, None)
    }

    /// A call to the chat endpoint.
    pub fn chat(&self, body: Value) -> (exchange: Exchange)
        ensures
            exchange@ == (ExchangeView {
                method: Method::Post,
                path: PATH_CHAT@,
                body: Some(body),
                phase: Phase::Idle,
            }),
    {
        self.post_json(PATH_CHAT, body)
    }

    /// A call to the quota endpoint.
    pub fn quota(&self) -> (exchange: Exchange)
        ensures
            exchange@ == (ExchangeView {
                method: Method::Get,
                path: PATH_QUOTA@,
                body: None,
                phase: Phase::Idle,
            }),
    {
        self.get(PATH_QUOTA)
    }

    /// The event that a call can be sent with the session as it is now.
    pub fn ready(&self, host_override: Option<String>) -> (event: Event)
        ensures
            event@ == ready_event(*self, host_of(host_override)),
    {
        Event::Ready { session: self.auth.session.clone(), host: mimo_host(host_override) }
    }

    /// What is shown of the account.
    pub fn quick_status(&self) -> (snapshot: AuthSnapshot)
        ensures
            snapshot == status_of(*self),
    {
        AuthSnapshot {
            authenticated: self.auth.session.authenticated,
            nick: self.auth.session.nick.clone(),
            user_id: self.auth.session.user_id.clone(),
            refreshed_at: self.auth.session.refreshed_at,
        }
    }
}

/// A call whose service token is refused, and for which the account's refresh mints a new
/// session, is replayed with that session, whether or not it can be saved, and then answered
/// with whatever comes back.
pub proof fn call_is_replayed_with_the_minted_session(
    client: MimoClient,
    exchange: ExchangeView,
    minted: Session,
    has_store: bool,
    save_fails: bool,
    host: Seq<char>,
    status: u16,
)
    requires
        exchange.phase == Phase::Idle,
        client.auth.session.pass_token is Some,
        prepared(exchange.method, exchange.path, client.auth.session, host) is Ok,
        prepared(exchange.method, exchange.path, minted, host) is Ok,
    ensures
        ({
            let refresh = refreshed(
                has_store,
                client.auth,
                minting_events(has_store, minted, save_fails),
            );
            &&& refresh.action is Succeed
            &&& actions(
                exchange,
                seq![
                    ready_event(client, host),
                    EventView::Replied { status: UNAUTHORIZED },
                    ready_event(with_auth(client, refresh.auth), host),
                    EventView::Replied { status },
                ],
            ) == seq![
                ActionView::Send {
                    request: prepared(
                        exchange.method,
                        exchange.path,
                        client.auth.session,
                        host,
                    )->Ok_0,
                },
                ActionView::Refresh,
                ActionView::Send {
                    request: prepared(exchange.method, exchange.path, minted, host)->Ok_0,
                },
                ActionView::Deliver,
            ]
        }),
{
    minted_session_is_taken_over(has_store, client.auth, minted, save_fails);
    refused_token_is_refreshed_and_the_request_replayed(
        exchange,
        client.auth.session,
        minted,
        host,
        status,
    );
}

/// Whether the events of a call offer the account's session: before a refresh the one that
/// the account held, and after one, which must have succeeded, the one that it left there.
pub open spec fn offers_the_account(
    call: ExchangeView,
    auth: AuthState,
    refresh: RefreshStep,
    events: Seq<EventView>,
) -> bool {
    forall|i: int|
        0 <= i < events.len() ==> (#[trigger] events[i] matches EventView::Ready { session, host }
            ==> if after_all(call, events.take(i)).phase == Phase::Refreshing {
            refresh.action is Succeed && session == refresh.auth.session
        } else {
            session == auth.session
        })
}

/// Whether the answer to an event is to send the call: with the call's method, path and body,
/// and with the cookie of this session.
pub open spec fn is_the_call(
    call: ExchangeView,
    session: Session,
    events: Seq<EventView>,
    i: int,
) -> bool {
    &&& events[i] is Ready
    &&& session.authenticated
    &&& session.cookie_header is Some
    &&& actions(call, events)[i] == (ActionView::Send {
        request: RequestView {
            method: call.method,
            url: events[i]->host + call.path,
            headers: request_headers(session.cookie_header->0@),
        },
    })
    &&& after_all(call, events.take(i + 1)).body == call.body
}

/// Whatever the upstream answers and whatever becomes of the refresh, a call is sent at most
/// twice and refreshes the service token at most once. Every request goes to the call's path
/// with the call's method and with the body as it was given. The first carries the cookie of
/// the session that the account held; the second is sent only after a refresh that succeeded,
/// and carries the cookie of the session that was minted in it and left in the account.
pub proof fn call_is_sent_at_most_twice_as_it_was_made(
    client: MimoClient,
    call: ExchangeView,
    has_store: bool,
    refresh_events: Seq<RefreshEvent>,
    events: Seq<EventView>,
)
    requires
        call.phase == Phase::Idle,
        offers_the_account(
            call,
            client.auth,
            refreshed(has_store, client.auth, refresh_events),
            events,
        ),
    ensures
        sends(actions(call, events)) <= 2,
        refreshes(actions(call, events)) <= 1,
        forall|i: int|
            0 <= i < events.len() && (#[trigger] actions(call, events)[i]) is Send ==> {
                let before = actions(call, events.take(i));
                let refresh = refreshed(has_store, client.auth, refresh_events);
                ||| sends(before) == 0 && refreshes(before) == 0 && is_the_call(
                    call,
                    client.auth.session,
                    events,
                    i,
                )
                ||| sends(before) == 1 && refreshes(before) == 1 && refresh.action is Succeed
                    && refresh_events.contains(
                    RefreshEvent::Minted { session: refresh.auth.session },
                ) && is_the_call(call, refresh.auth.session, events, i)
            },
{
    exchange_retries_at_most_once(call, events);
    let refresh = refreshed(has_store, client.auth, refresh_events);
    if refresh.action is Succeed {
        succeeded_refresh_stores_a_minted_session(has_store, client.auth, refresh_events);
    }
    assert forall|i: int|
        0 <= i < events.len() && (#[trigger] actions(call, events)[i]) is Send implies {
        let before = actions(call, events.take(i));
        ||| sends(before) == 0 && refreshes(before) == 0 && is_the_call(
            call,
            client.auth.session,
            events,
            i,
        )
        ||| sends(before) == 1 && refreshes(before) == 1 && refresh.action is Succeed
            && refresh_events.contains(RefreshEvent::Minted { session: refresh.auth.session })
            && is_the_call(call, refresh.auth.session, events, i)
    } by {
        each_request_is_the_call_again(call, events, i);
    }
}

/// An account that is shown as not logged in has none of its calls sent: each fails for
/// want of a login.
pub proof fn shown_status_agrees_with_calls(
    client: MimoClient,
    exchange: ExchangeView,
    host: Seq<char>,
)
    requires
        exchange.phase == Phase::Idle,
        !status_of(client).authenticated,
    ensures
        after(exchange, ready_event(client, host)) == (
            in_phase(exchange, Phase::Closed),
            ActionView::Fail { error: BridgeErrorView::NotAuthenticated },
        ),
{
}

/// What is shown of an account is what its session says, in both directions: it is shown as logged
/// in exactly where the session is, with the session's nick, user and moment of refresh, whatever
/// tokens and cookies the session holds.
pub proof fn shown_account_is_that_of_the_session(client: MimoClient)
    ensures
        status_of(client).authenticated <==> client.auth.session.authenticated,
        status_of(client).nick == client.auth.session.nick,
        status_of(client).user_id == client.auth.session.user_id,
        status_of(client).refreshed_at == client.auth.session.refreshed_at,
{
}

/// An account with a cookie that can be a header value is shown as logged in exactly where its
/// calls are sent.
pub proof fn account_shown_as_logged_in_has_its_calls_sent(
    client: MimoClient,
    call: ExchangeView,
    host: Seq<char>,
)
    requires
        call.phase == Phase::Idle,
        client.auth.session.cookie_header is Some,
        is_field_text(client.auth.session.cookie_header->0@),
    ensures
        status_of(client).authenticated <==> after(call, ready_event(client, host)).1 is Send,
{
}

/// The calls of a client are offered its own session, tokens and all, and the host as given.
pub proof fn calls_are_offered_the_own_session(client: MimoClient, host: Seq<char>)
    ensures
        ready_event(client, host) matches EventView::Ready { session, host: offered } && session
            == client.auth.session && offered == host,
{
}

/// A client whose account is another keeps its settings.
pub proof fn another_account_keeps_the_settings(client: MimoClient, auth: AuthState)
    ensures
        with_auth(client, auth).auth == auth,
        with_auth(client, auth).config == client.config,
        ready_event(with_auth(client, auth), Seq::empty())->session == auth.session,
{
}

/// A call of a logged-in client to an endpoint goes to that endpoint at the channel's host, or at
/// the one that is set, and carries the client's cookie.
pub proof fn calls_go_to_their_endpoint(
    client: MimoClient,
    call: ExchangeView,
    host_override: Option<String>,
)
    requires
        call.phase == Phase::Idle,
        client.auth.session.authenticated,
        client.auth.session.cookie_header is Some,
        is_field_text(client.auth.session.cookie_header->0@),
    ensures
        ({
            let (sent, action) = after(call, ready_event(client, host_of(host_override)));
            &&& action is Send
            &&& action->request.method == call.method
            &&& sent.body == call.body
            &&& host_override is None ==> action->request.url == "https://api.miclaw.xiaomi.net"@
                + call.path
            &&& host_override matches Some(host) ==> action->request.url == host@ + call.path
            &&& action->request.headers["cookie"@] == seq![
                encode_utf8(client.auth.session.cookie_header->0@),
            ]
        }),
{
    request_carries_six_headers(client.auth.session.cookie_header->0@);
}

} // verus!
