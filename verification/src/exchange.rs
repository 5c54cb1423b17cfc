//! One call to the mimo channel, as a state machine.
//!
//! A call sends its request, and where the upstream answers that the service token is
//! stale, it has the token refreshed and sends the request once more. The machine takes
//! what happened and answers with what to do next; its caller does the I/O.

use crate::cookie::{
    is_visible_text, is_writable, names_and_byte_lengths, shown_list,
    visible_shape_lists_byte_lengths, written,
};
use crate::error::{BridgeError, BridgeErrorView};
use crate::headers::{
    build_headers, carried_shape, cookie_shape, header_entries, is_field_text,
    request_carries_six_headers, request_cookie_reads_back, request_headers, unwritable_cookie,
};
use crate::session::Session;
use crate::status::{Status, UNAUTHORIZED};
use crate::text::optional_text;
use reqwest::header::HeaderMap;
use serde_json::Value;
use vstd::prelude::*;
use vstd::utf8::encode_utf8;

verus! {

/// Declares `serde_json::Value`, the body of a request. It is carried through as it is.
#[verifier::external_type_specification]
#[verifier::external_body]
pub struct ExValue(Value);

/// The method of a request.
#[derive(Debug, Clone, Copy, PartialEq, Eq, Structural)]
pub enum Method {
    Get,
    Post,
}

/// A request that is ready to be sent with the exchange's body, where it has one.
#[derive(Debug)]
pub struct Request {
    pub method: Method,
    pub url: String,
    pub headers: HeaderMap,
}

/// A [`Request`] with its URL as characters and its headers as a map.
pub struct RequestView {
    pub method: Method,
    pub url: Seq<char>,
    pub headers: Map<Seq<char>, Seq<Seq<u8>>>,
}

impl View for Request {
    type V = RequestView;

    open spec fn view(&self) -> RequestView {
        RequestView {
            method: self.method,
            url: self.url@,
            headers: header_entries(self.headers),
        }
    }
}

/// What is logged of a request before it is sent: of a post, the shape of its cookie.
pub open spec fn logged_line(request: RequestView) -> Option<Seq<char>> {
    match (request.method, carried_shape(request.headers)) {
        (Method::Post, Some(shape)) => Some("cookie shape: ["@ + shape + "]"@),
        _ => None,
    }
}

impl Request {
    /// What is logged of this request before it is sent, where anything is. It shows the
    /// lengths of the cookie's values, never the values.
    pub fn log_line(&self) -> (line: Option<String>)
        ensures
            optional_text(line) == logged_line(self@),
    {
        match (self.method, cookie_shape(&self.headers)) {
            (Method::Post, Some(shape)) => {
                let mut line: String = "cookie shape: [".to_owned();
                line.append(shape.as_str());
                line.append("]");
                Some(line)
            },
            _ => None,
        }
    }
}

/// How far an exchange has come.
#[derive(Debug, Clone, Copy, PartialEq, Eq, Structural)]
pub enum Phase {
    /// Nothing has been sent.
    Idle,
    /// The request is on its way.
    FirstSent,
    /// The service token is being refreshed.
    Refreshing,
    /// The request is on its way for the second time.
    SecondSent,
    /// The exchange is over.
    Closed,
}

/// What happened.
#[derive(Debug)]
pub enum Event {
    /// The request can be sent to this host with this session: at the start, and again
    /// once the service token has been refreshed.
    Ready { session: Session, host: String },
    /// The upstream answered.
    Replied { status: Status },
    /// The request could not be sent or its answer not be received.
    SendFailed,
    /// The service token could not be refreshed.
    RefreshFailed,
}

/// An [`Event`] with its host as characters and its status as a number.
pub enum EventView {
    Ready { session: Session, host: Seq<char> },
    Replied { status: u16 },
    SendFailed,
    RefreshFailed,
}

impl View for Event {
    type V = EventView;

    open spec fn view(&self) -> EventView {
        match self {
            Event::Ready { session, host } => EventView::Ready { session: *session, host: host@ },
            Event::Replied { status } => EventView::Replied { status: status@ },
            Event::SendFailed => EventView::SendFailed,
            Event::RefreshFailed => EventView::RefreshFailed,
        }
    }
}

/// What to do next.
#[derive(Debug)]
pub enum Action {
    /// Send this request with the exchange's body.
    Send { request: Request },
    /// Discard the answer and refresh the service token.
    Refresh,
    /// Hand the answer to whoever made the call.
    Deliver,
    /// Hand the transport's error to whoever made the call.
    Raise,
    /// Fail the call.
    Fail { error: BridgeError },
    /// Nothing: the event does not belong to the exchange's phase.
    Ignore,
}

/// An [`Action`] with its request and its error viewed.
pub enum ActionView {
    Send { request: RequestView },
    Refresh,
    Deliver,
    Raise,
    Fail { error: BridgeErrorView },
    Ignore,
}

impl View for Action {
    type V = ActionView;

    open spec fn view(&self) -> ActionView {
        match self {
            Action::Send { request } => ActionView::Send { request: request@ },
            Action::Refresh => ActionView::Refresh,
            Action::Deliver => ActionView::Deliver,
            Action::Raise => ActionView::Raise,
            Action::Fail { error } => ActionView::Fail { error: error@ },
            Action::Ignore => ActionView::Ignore,
        }
    }
}

/// One call to the mimo channel.
#[derive(Debug)]
pub struct Exchange {
    method: Method,
    path: String,
    body: Option<Value>,
    phase: Phase,
}

/// An [`Exchange`] with its path as characters.
pub struct ExchangeView {
    pub method: Method,
    pub path: Seq<char>,
    pub body: Option<Value>,
    pub phase: Phase,
}

impl View for Exchange {
    type V = ExchangeView;

    closed spec fn view(&self) -> ExchangeView {
        ExchangeView {
            method: self.method,
            path: self.path@,
            body: self.body,
            phase: self.phase,
        }
    }
}

/// The request that a session makes of a method and a path at a host, or why it makes
/// none: it is not logged in, it has no cookie, or its cookie is no header value.
pub open spec fn prepared(
    method: Method,
    path: Seq<char>,
    session: Session,
    host: Seq<char>,
) -> Result<RequestView, BridgeErrorView> {
    if !session.authenticated {
        Err(BridgeErrorView::NotAuthenticated)
    } else {
        match session.cookie_header {
            None => Err(BridgeErrorView::NotAuthenticated),
            Some(cookie) => if is_field_text(cookie@) {
                Ok(RequestView { method, url: host + path, headers: request_headers(cookie@) })
            } else {
                Err(unwritable_cookie())
            },
        }
    }
}

/// An exchange in another phase.
pub open spec fn in_phase(exchange: ExchangeView, phase: Phase) -> ExchangeView {
    ExchangeView { phase, ..exchange }
}

/// An exchange that sends its request, or fails where the session makes none.
pub open spec fn sending(
    exchange: ExchangeView,
    session: Session,
    host: Seq<char>,
    sent: Phase,
) -> (ExchangeView, ActionView) {
    match prepared(exchange.method, exchange.path, session, host) {
        Ok(request) => (in_phase(exchange, sent), ActionView::Send { request }),
        Err(error) => (in_phase(exchange, Phase::Closed), ActionView::Fail { error }),
    }
}

/// What becomes of an exchange by an event, and what to do next.
pub open spec fn after(exchange: ExchangeView, event: EventView) -> (ExchangeView, ActionView) {
    match (exchange.phase, event) {
        (Phase::Idle, EventView::Ready { session, host }) => sending(
            exchange,
            session,
            host,
            Phase::FirstSent,
        ),
        (Phase::FirstSent, EventView::Replied { status }) => if status == UNAUTHORIZED {
            (in_phase(exchange, Phase::Refreshing), ActionView::Refresh)
        } else {
            (in_phase(exchange, Phase::Closed), ActionView::Deliver)
        },
        (Phase::FirstSent, EventView::SendFailed) => (
            in_phase(exchange, Phase::Closed),
            ActionView::Raise,
        ),
        (Phase::Refreshing, EventView::Ready { session, host }) => sending(
            exchange,
            session,
            host,
            Phase::SecondSent,
        ),
        (Phase::Refreshing, EventView::RefreshFailed) => (
            in_phase(exchange, Phase::Closed),
            ActionView::Fail { error: BridgeErrorView::NotAuthenticated },
        ),
        (Phase::SecondSent, EventView::Replied { status }) => (
            in_phase(exchange, Phase::Closed),
            ActionView::Deliver,
        ),
        (Phase::SecondSent, EventView::SendFailed) => (
            in_phase(exchange, Phase::Closed),
            ActionView::Raise,
        ),
        _ => (exchange, ActionView::Ignore),
    }
}

/// The request that a session makes of a method and a path at a host.
pub fn prepare(method: Method, path: &str, session: &Session, host: &str) -> (result: Result<
    Request,
    BridgeError,
>)
    ensures
        match prepared(method, path@, *session, host@) {
            Ok(request) => result matches Ok(made) && made@ == request,
            Err(error) => result matches Err(given) && given@ == error,
        },
{
    let session = match session.snapshot() {
        Ok(session) => session,
        Err(error) => return Err(error),
    };
    let headers = match build_headers(&session) {
        Ok(headers) => headers,
        Err(error) => return Err(error),
    };
    let mut url: String = host.to_owned();
    url.append(path);
    Ok(Request { method, url, headers })
}

impl Exchange {
    /// An exchange of which nothing has been sent.
    pub fn new(method: Method, path: &str, body: Option<Value>) -> (exchange: Exchange)
        ensures
            exchange@ == (ExchangeView { method, path: path@, body, phase: Phase::Idle }),
    {
        Exchange { method, path: path.to_owned(), body, phase: Phase::Idle }
    }

    /// The body that each request of this exchange is sent with.
    pub fn body(&self) -> (body: Option<&Value>)
        ensures
            body == (match self@.body {
                Some(value) => Some(&value),
                None => None,
            }),
    {
        match &self.body {
            Some(value) => Some(value),
            None => None,
        }
    }

    /// The path that this exchange calls.
    pub fn path(&self) -> (path: &str)
        ensures
            path@ == self@.path,
    {
        self.path.as_str()
    }

    /// Sends the request, or fails where the session makes none.
    fn send(&mut self, session: &Session, host: &str, sent: Phase) -> (action: Action)
        ensures
            (final(self)@, action@) == sending(old(self)@, *session, host@, sent),
    {
        match prepare(self.method, self.path.as_str(), session, host) {
            Ok(request) => {
                self.phase = sent;
                Action::Send { request }
            },
            Err(error) => {
                self.phase = Phase::Closed;
                Action::Fail { error }
            },
        }
    }

    /// Takes what happened and says what to do next.
    pub fn step(&mut self, event: Event) -> (action: Action)
        ensures
            (final(self)@, action@) == after(old(self)@, event@),
    {
        match (self.phase, event) {
            (Phase::Idle, Event::Ready { session, host }) => self.send(
                &session,
                host.as_str(),
                Phase::FirstSent,
            ),
            (Phase::FirstSent, Event::Replied { status }) => {
                if status.is_unauthorized() {
                    self.phase = Phase::Refreshing;
                    Action::Refresh
                } else {
                    self.phase = Phase::Closed;
                    Action::Deliver
                }
            },
            (Phase::Refreshing, Event::Ready { session, host }) => self.send(
                &session,
                host.as_str(),
                Phase::SecondSent,
            ),
            (Phase::Refreshing, Event::RefreshFailed) => {
                self.phase = Phase::Closed;
                Action::Fail { error: BridgeError::NotAuthenticated }
            },
            (Phase::SecondSent, Event::Replied { status: _ }) => {
                self.phase = Phase::Closed;
                Action::Deliver
            },
            (Phase::FirstSent, Event::SendFailed) | (Phase::SecondSent, Event::SendFailed) => {
                self.phase = Phase::Closed;
                Action::Raise
            },
            _ => Action::Ignore,
        }
    }
}

/// A post with the given cookie.
pub open spec fn post_with_cookie(url: Seq<char>, cookie: Seq<char>) -> RequestView {
    RequestView { method: Method::Post, url, headers: request_headers(cookie) }
}

/// A post logs its cookie's names, each with its value's length in bytes, where the cookie
/// is visible ASCII, and otherwise nothing; a fetch logs nothing.
pub proof fn log_line_lists_names_and_lengths(
    url: Seq<char>,
    pairs: Seq<(Seq<char>, Seq<char>)>,
)
    requires
        pairs.len() > 0,
        forall|i: int| 0 <= i < pairs.len() ==> is_writable(#[trigger] pairs[i]),
    ensures
        logged_line(post_with_cookie(url, written(pairs))) == if is_visible_text(written(pairs)) {
            Some("cookie shape: ["@ + shown_list(names_and_byte_lengths(pairs)) + "]"@)
        } else {
            None
        },
        forall|request: RequestView|
            request.method == Method::Get ==> #[trigger] logged_line(request) is None,
{
    request_cookie_reads_back(written(pairs));
    if is_visible_text(written(pairs)) {
        visible_shape_lists_byte_lengths(pairs);
    }
}

/// Cookie values are never logged: two posts whose cookies hold the same names in the same
/// order, with values of the same byte lengths, log the same line. Of a cookie that is not
/// visible ASCII nothing is logged, so both are or neither is.
pub proof fn log_line_hides_cookie_values(
    first_url: Seq<char>,
    second_url: Seq<char>,
    first: Seq<(Seq<char>, Seq<char>)>,
    second: Seq<(Seq<char>, Seq<char>)>,
)
    requires
        first.len() > 0,
        first.len() == second.len(),
        forall|i: int| 0 <= i < first.len() ==> is_writable(#[trigger] first[i]),
        forall|i: int| 0 <= i < second.len() ==> is_writable(#[trigger] second[i]),
        forall|i: int|
            0 <= i < first.len() ==> (#[trigger] first[i]).0 == second[i].0 && encode_utf8(
                first[i].1,
            ).len() == encode_utf8(second[i].1).len(),
        is_visible_text(written(first)) <==> is_visible_text(written(second)),
    ensures
        logged_line(post_with_cookie(first_url, written(first))) == logged_line(
            post_with_cookie(second_url, written(second)),
        ),
{
    log_line_lists_names_and_lengths(first_url, first);
    log_line_lists_names_and_lengths(second_url, second);
    assert(names_and_byte_lengths(first) =~= names_and_byte_lengths(second));
}

/// What an exchange has become after some events.
pub open spec fn after_all(exchange: ExchangeView, events: Seq<EventView>) -> ExchangeView
    decreases events.len(),
{
    if events.len() == 0 {
        exchange
    } else {
        after(after_all(exchange, events.drop_last()), events.last()).0
    }
}

/// What an exchange asks for over some events, one action for each.
pub open spec fn actions(exchange: ExchangeView, events: Seq<EventView>) -> Seq<ActionView>
    decreases events.len(),
{
    if events.len() == 0 {
        Seq::empty()
    } else {
        actions(exchange, events.drop_last()).push(
            after(after_all(exchange, events.drop_last()), events.last()).1,
        )
    }
}

/// How many of some actions send a request.
pub open spec fn sends(actions: Seq<ActionView>) -> nat
    decreases actions.len(),
{
    if actions.len() == 0 {
        0
    } else {
        sends(actions.drop_last()) + if actions.last() is Send {
            1nat
        } else {
            0nat
        }
    }
}

/// How many of some actions refresh the service token.
pub open spec fn refreshes(actions: Seq<ActionView>) -> nat
    decreases actions.len(),
{
    if actions.len() == 0 {
        0
    } else {
        refreshes(actions.drop_last()) + if actions.last() is Refresh {
            1nat
        } else {
            0nat
        }
    }
}

/// Whether an action ends the exchange.
pub open spec fn is_end(action: ActionView) -> bool {
    action is Deliver || action is Raise || action is Fail
}

/// How many of some actions end the exchange.
pub open spec fn ends(actions: Seq<ActionView>) -> nat
    decreases actions.len(),
{
    if actions.len() == 0 {
        0
    } else {
        ends(actions.drop_last()) + if is_end(actions.last()) {
            1nat
        } else {
            0nat
        }
    }
}

/// The method, the path and the body of an exchange never change, so what is sent after
/// a refresh is what was sent before it, but for the session's cookie and the host.
pub proof fn exchange_keeps_its_request(exchange: ExchangeView, events: Seq<EventView>)
    ensures
        after_all(exchange, events).method == exchange.method,
        after_all(exchange, events).path == exchange.path,
        after_all(exchange, events).body == exchange.body,
    decreases events.len(),
{
    if events.len() > 0 {
        exchange_keeps_its_request(exchange, events.drop_last());
    }
}

/// Whatever happens, an exchange sends its request at most twice, refreshes the service
/// token at most once, and ends at most once; a second request is sent only after a
/// refresh, and once the exchange has ended it asks for nothing more.
pub proof fn exchange_retries_at_most_once(exchange: ExchangeView, events: Seq<EventView>)
    requires
        exchange.phase == Phase::Idle,
    ensures
        sends(actions(exchange, events)) <= 1 + refreshes(actions(exchange, events)) <= 2,
        ends(actions(exchange, events)) <= 1,
        ends(actions(exchange, events)) == 1 <==> after_all(exchange, events).phase
            == Phase::Closed,
{
    lemma_progress(exchange, events);
}

/// What an exchange has done, by the phase that it has come to.
proof fn lemma_progress(exchange: ExchangeView, events: Seq<EventView>)
    requires
        exchange.phase == Phase::Idle,
    ensures
        ({
            let done = actions(exchange, events);
            match after_all(exchange, events).phase {
                Phase::Idle => sends(done) == 0 && refreshes(done) == 0 && ends(done) == 0,
                Phase::FirstSent => sends(done) == 1 && refreshes(done) == 0 && ends(done) == 0,
                Phase::Refreshing => sends(done) == 1 && refreshes(done) == 1 && ends(done) == 0,
                Phase::SecondSent => sends(done) == 2 && refreshes(done) == 1 && ends(done) == 0,
                Phase::Closed => sends(done) <= 1 + refreshes(done) <= 2 && ends(done) == 1,
            }
        }),
    decreases events.len(),
{
    if events.len() > 0 {
        lemma_progress(exchange, events.drop_last());
        let done = actions(exchange, events);
        assert(done.drop_last() =~= actions(exchange, events.drop_last()));
    }
}

/// Each action is the answer to its event.
proof fn lemma_action_at(exchange: ExchangeView, events: Seq<EventView>, i: int)
    requires
        0 <= i < events.len(),
    ensures
        actions(exchange, events).len() == events.len(),
        actions(exchange, events)[i] == after(after_all(exchange, events.take(i)), events[i]).1,
        after_all(exchange, events.take(i + 1)) == after(
            after_all(exchange, events.take(i)),
            events[i],
        ).0,
    decreases events.len(),
{
    let front = events.drop_last();
    assert(events.take(i + 1).drop_last() =~= events.take(i));
    if i == events.len() - 1 {
        assert(events.take(i) =~= front);
        lemma_actions_len(exchange, front);
    } else {
        lemma_action_at(exchange, front, i);
        assert(front.take(i) =~= events.take(i));
    }
}

/// There is one action for each event.
proof fn lemma_actions_len(exchange: ExchangeView, events: Seq<EventView>)
    ensures
        actions(exchange, events).len() == events.len(),
    decreases events.len(),
{
    if events.len() > 0 {
        lemma_actions_len(exchange, events.drop_last());
    }
}

/// Whatever happens, each request of an exchange is sent on an event that offers a session
/// and a host, and is made of them and of the exchange's own method and path; the body that
/// goes with it is the exchange's own; and it is the first, with no refresh before it, or
/// the second, with one.
pub proof fn each_request_is_the_call_again(
    exchange: ExchangeView,
    events: Seq<EventView>,
    i: int,
)
    requires
        exchange.phase == Phase::Idle,
        0 <= i < events.len(),
        actions(exchange, events)[i] is Send,
    ensures
        ({
            let before = actions(exchange, events.take(i));
            &&& events[i] matches EventView::Ready { session, host } && {
                &&& session.authenticated
                &&& session.cookie_header matches Some(cookie) && actions(exchange, events)[i] == (
                ActionView::Send {
                    request: RequestView {
                        method: exchange.method,
                        url: host + exchange.path,
                        headers: request_headers(cookie@),
                    },
                })
            }
            &&& after_all(exchange, events.take(i + 1)).body == exchange.body
            &&& sends(before) == refreshes(before) <= 1
            &&& refreshes(before) == 1 <==> after_all(exchange, events.take(i)).phase
                == Phase::Refreshing
        }),
{
    lemma_action_at(exchange, events, i);
    lemma_progress(exchange, events.take(i));
    exchange_keeps_its_request(exchange, events.take(i));
    exchange_keeps_its_request(exchange, events.take(i + 1));
}

/// An exchange that has ended ignores whatever happens.
pub proof fn ended_exchange_stays_ended(exchange: ExchangeView, event: EventView)
    requires
        exchange.phase == Phase::Closed,
    ensures
        after(exchange, event) == (exchange, ActionView::Ignore),
{
}

/// How far a phase is from the start.
pub open spec fn progress(phase: Phase) -> nat {
    match phase {
        Phase::Idle => 0,
        Phase::FirstSent => 1,
        Phase::Refreshing => 2,
        Phase::SecondSent => 3,
        Phase::Closed => 4,
    }
}

/// An exchange comes to an end: every event that is not ignored brings it further, and one
/// that is ignored leaves it as it is.
pub proof fn exchange_moves_forward(exchange: ExchangeView, event: EventView)
    ensures
        after(exchange, event).1 is Ignore ==> after(exchange, event).0 == exchange,
        !(after(exchange, event).1 is Ignore) ==> progress(exchange.phase) < progress(
            after(exchange, event).0.phase,
        ) <= 4,
{
}

/// A session that is not logged in sends nothing: the call fails for want of a login,
/// at the start as well as after a refresh.
pub proof fn nothing_is_sent_without_a_login(
    exchange: ExchangeView,
    session: Session,
    host: Seq<char>,
)
    requires
        exchange.phase == Phase::Idle || exchange.phase == Phase::Refreshing,
        !session.authenticated || session.cookie_header is None,
    ensures
        after(exchange, EventView::Ready { session, host }) == (
            in_phase(exchange, Phase::Closed),
            ActionView::Fail { error: BridgeErrorView::NotAuthenticated },
        ),
{
}

/// A session that is logged in with a cookie that can be sent has its request sent: to
/// the path at the host, with that cookie.
pub proof fn logged_in_session_is_sent(exchange: ExchangeView, session: Session, host: Seq<char>)
    requires
        exchange.phase == Phase::Idle || exchange.phase == Phase::Refreshing,
        session.authenticated,
        session.cookie_header matches Some(cookie) && is_field_text(cookie@),
    ensures
        after(exchange, EventView::Ready { session, host }).1 == (ActionView::Send {
            request: RequestView {
                method: exchange.method,
                url: host + exchange.path,
                headers: request_headers(session.cookie_header->0@),
            },
        }),
{
}

/// An answer other than the refusal of the service token is delivered as it is, without a
/// refresh and without a second request.
pub proof fn other_answers_are_delivered(
    exchange: ExchangeView,
    session: Session,
    host: Seq<char>,
    status: u16,
)
    requires
        exchange.phase == Phase::Idle,
        prepared(exchange.method, exchange.path, session, host) is Ok,
        status != UNAUTHORIZED,
    ensures
        actions(
            exchange,
            seq![EventView::Ready { session, host }, EventView::Replied { status }],
        ) == seq![
            ActionView::Send {
                request: prepared(exchange.method, exchange.path, session, host)->Ok_0,
            },
            ActionView::Deliver,
        ],
{
    reveal_with_fuel(actions, 3);
    reveal_with_fuel(after_all, 3);
    let ready = EventView::Ready { session, host };
    let events = seq![ready, EventView::Replied { status }];
    assert(events.drop_last() =~= seq![ready]);
    assert(seq![ready].drop_last() =~= Seq::<EventView>::empty());
}

/// A request that cannot be sent is not sent again: the transport's error is raised, without
/// a refresh.
pub proof fn failed_send_is_raised(exchange: ExchangeView, session: Session, host: Seq<char>)
    requires
        exchange.phase == Phase::Idle,
        prepared(exchange.method, exchange.path, session, host) is Ok,
    ensures
        actions(exchange, seq![EventView::Ready { session, host }, EventView::SendFailed]) == seq![
            ActionView::Send {
                request: prepared(exchange.method, exchange.path, session, host)->Ok_0,
            },
            ActionView::Raise,
        ],
{
    reveal_with_fuel(actions, 3);
    reveal_with_fuel(after_all, 3);
    let ready = EventView::Ready { session, host };
    assert(seq![ready, EventView::SendFailed].drop_last() =~= seq![ready]);
    assert(seq![ready].drop_last() =~= Seq::<EventView>::empty());
}

/// Where the service token is refused and can be refreshed, the request is sent once more,
/// with the refreshed session, and the second answer is delivered whatever it is, a second
/// refusal among it.
pub proof fn refused_token_is_refreshed_and_the_request_replayed(
    exchange: ExchangeView,
    stale: Session,
    fresh: Session,
    host: Seq<char>,
    status: u16,
)
    requires
        exchange.phase == Phase::Idle,
        prepared(exchange.method, exchange.path, stale, host) is Ok,
        prepared(exchange.method, exchange.path, fresh, host) is Ok,
    ensures
        actions(
            exchange,
            seq![
                EventView::Ready { session: stale, host },
                EventView::Replied { status: UNAUTHORIZED },
                EventView::Ready { session: fresh, host },
                EventView::Replied { status },
            ],
        ) == seq![
            ActionView::Send {
                request: prepared(exchange.method, exchange.path, stale, host)->Ok_0,
            },
            ActionView::Refresh,
            ActionView::Send {
                request: prepared(exchange.method, exchange.path, fresh, host)->Ok_0,
            },
            ActionView::Deliver,
        ],
{
    reveal_with_fuel(actions, 5);
    reveal_with_fuel(after_all, 5);
    let first = EventView::Ready { session: stale, host };
    let refused = EventView::Replied { status: UNAUTHORIZED };
    let again = EventView::Ready { session: fresh, host };
    let events = seq![first, refused, again, EventView::Replied { status }];
    assert(events.drop_last() =~= seq![first, refused, again]);
    assert(seq![first, refused, again].drop_last() =~= seq![first, refused]);
    assert(seq![first, refused].drop_last() =~= seq![first]);
    assert(seq![first].drop_last() =~= Seq::<EventView>::empty());
}

/// Where the service token is refused and cannot be refreshed, the call fails for want of
/// a login, and nothing more is sent.
pub proof fn failed_refresh_needs_a_login(
    exchange: ExchangeView,
    session: Session,
    host: Seq<char>,
)
    requires
        exchange.phase == Phase::Idle,
        prepared(exchange.method, exchange.path, session, host) is Ok,
    ensures
        actions(
            exchange,
            seq![
                EventView::Ready { session, host },
                EventView::Replied { status: UNAUTHORIZED },
                EventView::RefreshFailed,
            ],
        ) == seq![
            ActionView::Send {
                request: prepared(exchange.method, exchange.path, session, host)->Ok_0,
            },
            ActionView::Refresh,
            ActionView::Fail { error: BridgeErrorView::NotAuthenticated },
        ],
{
    reveal_with_fuel(actions, 4);
    reveal_with_fuel(after_all, 4);
    let first = EventView::Ready { session, host };
    let refused = EventView::Replied { status: UNAUTHORIZED };
    let events = seq![first, refused, EventView::RefreshFailed];
    assert(events.drop_last() =~= seq![first, refused]);
    assert(seq![first, refused].drop_last() =~= seq![first]);
    assert(seq![first].drop_last() =~= Seq::<EventView>::empty());
}

/// A request is made of a session exactly where the session is logged in with a cookie that can
/// be a header value, whatever the method, the path and the host. It has that method, goes to the
/// path at the host, and carries that cookie. A session that is not logged in or has no cookie
/// needs a login, and a cookie that cannot be a header value is refused as such.
pub proof fn requests_are_made_of_usable_sessions(
    method: Method,
    path: Seq<char>,
    session: Session,
    host: Seq<char>,
)
    ensures
        ({
            let made = prepared(method, path, session, host);
            let cookie = session.cookie_header->0@;
            let logged_in = session.authenticated && session.cookie_header is Some;
            &&& made is Ok <==> logged_in && is_field_text(cookie)
            &&& !logged_in ==> made->Err_0 is NotAuthenticated
            &&& logged_in && !is_field_text(cookie) ==> made->Err_0 == BridgeErrorView::Other(
                "failed to parse header value"@,
            )
            &&& made is Ok ==> {
                &&& made->Ok_0.method == method
                &&& made->Ok_0.url == host + path
                &&& made->Ok_0.headers == request_headers(cookie)
                &&& made->Ok_0.headers["cookie"@] == seq![encode_utf8(cookie)]
            }
        }),
{
    if session.cookie_header is Some {
        request_carries_six_headers(session.cookie_header->0@);
    }
}

/// A call with a usable session, of either method and with any body, is sent as it was made, and
/// its answer decides: the refusal of the service token is followed by a refresh, and every other
/// answer, good or bad, is delivered and ends the call.
pub proof fn call_is_sent_and_its_answer_decides(
    exchange: ExchangeView,
    session: Session,
    host: Seq<char>,
    status: u16,
)
    requires
        exchange.phase == Phase::Idle,
        session.authenticated,
        session.cookie_header is Some,
        is_field_text(session.cookie_header->0@),
    ensures
        ({
            let (sent, first) = after(exchange, EventView::Ready { session, host });
            let (answered, second) = after(sent, EventView::Replied { status });
            &&& first is Send
            &&& first->request.method == exchange.method
            &&& first->request.url == host + exchange.path
            &&& first->request.headers["cookie"@] == seq![
                encode_utf8(session.cookie_header->0@),
            ]
            &&& sent.body == exchange.body
            &&& status == 401 ==> second is Refresh && answered.phase == Phase::Refreshing
            &&& status != 401 ==> second is Deliver && answered.phase == Phase::Closed
        }),
{
    request_carries_six_headers(session.cookie_header->0@);
}

/// A call whose service token is refused and refreshed is sent once more, of either method: with
/// the same method, path and body, to the host and with the cookie that are offered then. Its
/// second answer is delivered whatever it is, and ends the call.
pub proof fn refused_call_is_sent_once_more(
    exchange: ExchangeView,
    stale: Session,
    fresh: Session,
    first_host: Seq<char>,
    second_host: Seq<char>,
    status: u16,
)
    requires
        exchange.phase == Phase::Idle,
        stale.authenticated && stale.cookie_header is Some,
        is_field_text(stale.cookie_header->0@),
        fresh.authenticated && fresh.cookie_header is Some,
        is_field_text(fresh.cookie_header->0@),
    ensures
        ({
            let (sent, first) = after(
                exchange,
                EventView::Ready { session: stale, host: first_host },
            );
            let (refused, second) = after(sent, EventView::Replied { status: 401 });
            let (again, third) = after(
                refused,
                EventView::Ready { session: fresh, host: second_host },
            );
            let (answered, fourth) = after(again, EventView::Replied { status });
            &&& first is Send
            &&& second is Refresh
            &&& third is Send
            &&& third->request.method == exchange.method
            &&& third->request.url == second_host + exchange.path
            &&& third->request.headers["cookie"@] == seq![encode_utf8(fresh.cookie_header->0@)]
            &&& again.body == exchange.body
            &&& fourth is Deliver
            &&& answered.phase == Phase::Closed
        }),
{
    request_carries_six_headers(stale.cookie_header->0@);
    request_carries_six_headers(fresh.cookie_header->0@);
}

/// A call of either method whose service token is refused and cannot be refreshed fails for want
/// of a login and is over.
pub proof fn refused_call_without_a_refresh_fails(
    exchange: ExchangeView,
    session: Session,
    host: Seq<char>,
)
    requires
        exchange.phase == Phase::Idle,
        session.authenticated && session.cookie_header is Some,
        is_field_text(session.cookie_header->0@),
    ensures
        ({
            let (sent, first) = after(exchange, EventView::Ready { session, host });
            let (refused, second) = after(sent, EventView::Replied { status: 401 });
            let (failed, third) = after(refused, EventView::RefreshFailed);
            &&& first is Send
            &&& second is Refresh
            &&& third is Fail
            &&& third->error is NotAuthenticated
            &&& failed.phase == Phase::Closed
        }),
{
}

/// A send that fails is raised and ends the call, the first as well as the one after a refresh.
pub proof fn failed_sends_are_raised(
    exchange: ExchangeView,
    session: Session,
    fresh: Session,
    host: Seq<char>,
)
    requires
        exchange.phase == Phase::Idle,
        session.authenticated && session.cookie_header is Some,
        is_field_text(session.cookie_header->0@),
        fresh.authenticated && fresh.cookie_header is Some,
        is_field_text(fresh.cookie_header->0@),
    ensures
        ({
            let (sent, first) = after(exchange, EventView::Ready { session, host });
            let (lost, second) = after(sent, EventView::SendFailed);
            let (refused, third) = after(sent, EventView::Replied { status: 401 });
            let (again, fourth) = after(refused, EventView::Ready { session: fresh, host });
            let (lost_again, fifth) = after(again, EventView::SendFailed);
            &&& first is Send && second is Raise && lost.phase == Phase::Closed
            &&& third is Refresh && fourth is Send && fifth is Raise && lost_again.phase
                == Phase::Closed
        }),
{
}

/// A session that cannot be used ends a call of either method before anything is sent with it, at
/// the start as well as after a refresh: for want of a login, or because its cookie cannot be a
/// header value.
pub proof fn unusable_sessions_end_the_call(
    exchange: ExchangeView,
    session: Session,
    host: Seq<char>,
)
    requires
        exchange.phase == Phase::Idle || exchange.phase == Phase::Refreshing,
    ensures
        ({
            let (next, action) = after(exchange, EventView::Ready { session, host });
            let logged_in = session.authenticated && session.cookie_header is Some;
            let writable = is_field_text(session.cookie_header->0@);
            &&& !logged_in ==> action is Fail && action->error is NotAuthenticated && next.phase
                == Phase::Closed
            &&& logged_in && !writable ==> action is Fail && action->error
                == BridgeErrorView::Other("failed to parse header value"@) && next.phase
                == Phase::Closed
            &&& logged_in && writable ==> action is Send && next.phase == (if exchange.phase
                == Phase::Idle {
                Phase::FirstSent
            } else {
                Phase::SecondSent
            })
        }),
{
}

/// An exchange waits for a session, then for an answer, then for a refresh, then for an answer
/// again. Anything else is ignored and changes nothing, and its method, path and body never change.
pub proof fn exchange_takes_only_what_it_waits_for(exchange: ExchangeView, event: EventView)
    ensures
        ({
            let (next, action) = after(exchange, event);
            let waits = match exchange.phase {
                Phase::Idle => event is Ready,
                Phase::FirstSent => event is Replied || event is SendFailed,
                Phase::Refreshing => event is Ready || event is RefreshFailed,
                Phase::SecondSent => event is Replied || event is SendFailed,
                Phase::Closed => false,
            };
            &&& action is Ignore <==> !waits
            &&& !waits ==> next == exchange
            &&& next.method == exchange.method
            &&& next.path == exchange.path
            &&& next.body == exchange.body
            &&& action is Refresh <==> exchange.phase == Phase::FirstSent && (event matches
                EventView::Replied { status } && status == 401)
        }),
{
}

/// What is logged of a request depends on its method and its cookie alone: of a post the shape of
/// its cookie in words, where there is one, and of a fetch nothing.
pub proof fn only_posts_log_their_cookie(request: RequestView)
    ensures
        request.method == Method::Get ==> logged_line(request) is None,
        request.method == Method::Post && carried_shape(request.headers) is None ==> logged_line(
            request,
        ) is None,
        request.method == Method::Post && carried_shape(request.headers) is Some ==> logged_line(
            request,
        ) == Some("cookie shape: ["@ + carried_shape(request.headers)->0 + "]"@),
{
}

/// Events, actions and requests are viewed as they are.
pub proof fn exchange_views_keep_what_they_view(event: Event, action: Action, request: Request)
    ensures
        event matches Event::Ready { session, host } ==> event@ == (EventView::Ready {
            session,
            host: host@,
        }),
        event matches Event::Replied { status } ==> event@ == (EventView::Replied {
            status: status@,
        }),
        event is SendFailed <==> event@ is SendFailed,
        event is RefreshFailed <==> event@ is RefreshFailed,
        action matches Action::Send { request: sent } ==> action@ == (ActionView::Send {
            request: sent@,
        }),
        action is Refresh <==> action@ is Refresh,
        action is Deliver <==> action@ is Deliver,
        action is Raise <==> action@ is Raise,
        action matches Action::Fail { error } ==> action@ == (ActionView::Fail { error: error@ }),
        action is Ignore <==> action@ is Ignore,
        request@.method == request.method,
        request@.url == request.url@,
        request@.headers == header_entries(request.headers),
{
}

} // verus!
