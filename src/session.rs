//! The per-client streaming session: a state machine from state and event to
//! next state and action. The connection handler performs each action and
//! hands the outcome back as the next event.
use vstd::prelude::*;
use crate::history::later_than;
use crate::message::{ChatMessage, MessageView, SERVER_NAME, welcome, welcome_view};

verus! {

/// Where a session stands in its life.
#[derive(Debug, Clone, Copy, PartialEq, Eq, Structural)]
pub enum SessionState {
    Opening,
    Welcoming,
    Live,
    Closing,
    Closed,
}

/// A freshly inserted message with its store-assigned sequence position.
#[derive(Debug, Clone, PartialEq, Eq)]
pub struct ChangeEvent {
    pub position: u64,
    pub message: ChatMessage,
}

impl ChangeEvent {
    /// A field-by-field copy.
    pub fn duplicate(&self) -> (r: ChangeEvent)
        ensures
            r.position == self.position,
            r.message@ == self.message@,
    {
        ChangeEvent { position: self.position, message: self.message.duplicate() }
    }
}

/// What the connection handler reports to a session.
#[derive(Debug, Clone, PartialEq, Eq)]
pub enum SessionEvent {
    /// The connection was accepted at instant `now` (milliseconds).
    Start { now: i64 },
    /// The welcome frame was handed to the transport, successfully or not.
    WelcomeSent,
    /// The change feed was opened.
    FeedOpened,
    /// The store could not open a change feed.
    FeedUnavailable,
    /// The change feed (or a catch-up query) produced a message.
    Inserted(ChangeEvent),
    /// The change feed dropped.
    FeedClosed,
    /// The client disconnected.
    TransportClosed,
    /// The process is shutting down.
    Shutdown,
    /// The feed handle and the transport were released.
    Released,
}

/// What a session asks the connection handler to do.
#[derive(Debug, Clone, PartialEq, Eq)]
pub enum SessionAction {
    /// Send this message as the first frame.
    SendWelcome(ChatMessage),
    /// Open a change feed for this session.
    OpenFeed,
    /// Send this stored message to the client.
    Forward(ChangeEvent),
    /// Close the transport, and the feed handle where `close_feed` holds.
    Release { close_feed: bool },
    /// Nothing to do.
    Idle,
}

/// The mathematical value of a `SessionEvent`.
pub enum EventView {
    Start(i64),
    WelcomeSent,
    FeedOpened,
    FeedUnavailable,
    Inserted(u64, MessageView),
    FeedClosed,
    TransportClosed,
    Shutdown,
    Released,
}

/// The mathematical value of a `SessionAction`.
pub enum ActionView {
    SendWelcome(MessageView),
    OpenFeed,
    Forward(u64, MessageView),
    Release(bool),
    Idle,
}

impl View for SessionEvent {
    type V = EventView;

    open spec fn view(&self) -> EventView {
        match self {
            SessionEvent::Start { now } => EventView::Start(*now),
            SessionEvent::WelcomeSent => EventView::WelcomeSent,
            SessionEvent::FeedOpened => EventView::FeedOpened,
            SessionEvent::FeedUnavailable => EventView::FeedUnavailable,
            SessionEvent::Inserted(c) => EventView::Inserted(c.position, c.message@),
            SessionEvent::FeedClosed => EventView::FeedClosed,
            SessionEvent::TransportClosed => EventView::TransportClosed,
            SessionEvent::Shutdown => EventView::Shutdown,
            SessionEvent::Released => EventView::Released,
        }
    }
}

impl View for SessionAction {
    type V = ActionView;

    open spec fn view(&self) -> ActionView {
        match self {
            SessionAction::SendWelcome(m) => ActionView::SendWelcome(m@),
            SessionAction::OpenFeed => ActionView::OpenFeed,
            SessionAction::Forward(c) => ActionView::Forward(c.position, c.message@),
            SessionAction::Release { close_feed } => ActionView::Release(*close_feed),
            SessionAction::Idle => ActionView::Idle,
        }
    }
}

/// The state of one streaming connection.
#[derive(Debug, Clone, Copy, PartialEq, Eq, Structural)]
pub struct StreamingSession {
    pub state: SessionState,
    /// Instant at which the connection was accepted (milliseconds).
    pub connected_at: i64,
    /// Sequence position of the last forwarded message; none before any.
    pub cursor: Option<u64>,
    /// Whether a change feed is held open for this session.
    pub feed_open: bool,
}

/// A feed is only held while the session is live.
pub open spec fn well_formed(s: StreamingSession) -> bool {
    s.feed_open ==> s.state == SessionState::Live
}

/// A message at `position` has not been delivered yet under `cursor`.
pub open spec fn after_cursor(cursor: Option<u64>, position: u64) -> bool {
    match cursor {
        None => true,
        Some(c) => position > c,
    }
}

/// A session that has not been started.
pub open spec fn initial_session() -> StreamingSession {
    StreamingSession { state: SessionState::Opening, connected_at: 0, cursor: None, feed_open: false }
}

/// Leaving for `Closing`: the transport is released, and the feed if one is held.
pub open spec fn close(s: StreamingSession) -> (StreamingSession, ActionView) {
    (
        StreamingSession { state: SessionState::Closing, feed_open: false, ..s },
        ActionView::Release(s.feed_open),
    )
}

/// The transition table: next state and action for one event.
pub open spec fn next(s: StreamingSession, e: EventView) -> (StreamingSession, ActionView) {
    match (s.state, e) {
        (SessionState::Opening, EventView::Start(now)) => (
            StreamingSession { state: SessionState::Welcoming, connected_at: now, ..s },
            ActionView::SendWelcome(welcome_view(now)),
        ),
        (SessionState::Welcoming, EventView::WelcomeSent) => (
            StreamingSession { state: SessionState::Live, ..s },
            ActionView::OpenFeed,
        ),
        (SessionState::Live, EventView::FeedOpened) => (
            StreamingSession { feed_open: true, ..s },
            ActionView::Idle,
        ),
        (SessionState::Live, EventView::Inserted(p, m)) => if after_cursor(s.cursor, p) {
            (StreamingSession { cursor: Some(p), ..s }, ActionView::Forward(p, m))
        } else {
            (s, ActionView::Idle)
        },
        (SessionState::Live, EventView::FeedUnavailable) => close(s),
        (SessionState::Live, EventView::FeedClosed) => close(s),
        (SessionState::Opening, EventView::TransportClosed) => close(s),
        (SessionState::Welcoming, EventView::TransportClosed) => close(s),
        (SessionState::Live, EventView::TransportClosed) => close(s),
        (SessionState::Opening, EventView::Shutdown) => close(s),
        (SessionState::Welcoming, EventView::Shutdown) => close(s),
        (SessionState::Live, EventView::Shutdown) => close(s),
        (SessionState::Closing, EventView::Released) => (
            StreamingSession { state: SessionState::Closed, ..s },
            ActionView::Idle,
        ),
        _ => (s, ActionView::Idle),
    }
}

/// The state after a sequence of events, and the actions asked on the way.
pub open spec fn run(s: StreamingSession, es: Seq<EventView>) -> (StreamingSession, Seq<ActionView>)
    decreases es.len(),
{
    if es.len() == 0 {
        (s, Seq::empty())
    } else {
        let (s1, a) = next(s, es[0]);
        let (s2, rest) = run(s1, es.drop_first());
        (s2, seq![a] + rest)
    }
}

/// The events that hand a list of stored messages to a session, in order.
pub open spec fn inserted_all(cs: Seq<ChangeEvent>) -> Seq<EventView> {
    cs.map_values(|c: ChangeEvent| EventView::Inserted(c.position, c.message@))
}

/// The actions that forward a list of stored messages, in order.
pub open spec fn forwards_of(cs: Seq<ChangeEvent>) -> Seq<ActionView> {
    cs.map_values(|c: ChangeEvent| ActionView::Forward(c.position, c.message@))
}

/// The values of a list of actions.
pub open spec fn action_views(acts: Seq<SessionAction>) -> Seq<ActionView> {
    acts.map_values(|a: SessionAction| a@)
}

/// Positions strictly increase along `cs`.
pub open spec fn positions_increase(cs: Seq<ChangeEvent>) -> bool {
    forall|i: int, j: int| 0 <= i < j < cs.len() ==> cs[i].position < cs[j].position
}

proof fn lemma_run_push(s: StreamingSession, es: Seq<EventView>, e: EventView)
    ensures
        run(s, es.push(e)) == (next(run(s, es).0, e).0, run(s, es).1.push(next(run(s, es).0, e).1)),
    decreases es.len(),
{
    if es.len() == 0 {
        assert(es.push(e).drop_first() =~= es);
        assert(run(next(s, e).0, es) == (next(s, e).0, Seq::<ActionView>::empty()));
        assert(seq![next(s, e).1] + Seq::<ActionView>::empty() =~= Seq::<ActionView>::empty().push(next(s, e).1));
    } else {
        let (s1, a) = next(s, es[0]);
        assert(es.push(e).drop_first() =~= es.drop_first().push(e));
        lemma_run_push(s1, es.drop_first(), e);
        let rest = run(s1, es.drop_first()).1;
        let last = next(run(s1, es.drop_first()).0, e).1;
        assert(seq![a] + rest.push(last) =~= (seq![a] + rest).push(last));
    }
}

impl StreamingSession {
    /// A session for a connection that has just been accepted.
    pub fn new() -> (r: StreamingSession)
        ensures
            r == initial_session(),
            well_formed(r),
    {
        StreamingSession { state: SessionState::Opening, connected_at: 0, cursor: None, feed_open: false }
    }

    fn close(&mut self) -> (a: SessionAction)
        ensures
            (*final(self), a@) == close(*old(self)),
    {
        let close_feed = self.feed_open;
        self.state = SessionState::Closing;
        self.feed_open = false;
        SessionAction::Release { close_feed }
    }

    /// Takes one event and returns the action it calls for.
    pub fn step(&mut self, e: SessionEvent) -> (a: SessionAction)
        ensures
            (*final(self), a@) == next(*old(self), e@),
            well_formed(*old(self)) ==> well_formed(*final(self)),
    {
        match (self.state, e) {
            (SessionState::Opening, SessionEvent::Start { now }) => {
                self.state = SessionState::Welcoming;
                self.connected_at = now;
                SessionAction::SendWelcome(welcome(now))
            },
            (SessionState::Welcoming, SessionEvent::WelcomeSent) => {
                self.state = SessionState::Live;
                SessionAction::OpenFeed
            },
            (SessionState::Live, SessionEvent::FeedOpened) => {
                self.feed_open = true;
                SessionAction::Idle
            },
            (SessionState::Live, SessionEvent::Inserted(c)) => {
                let fresh = match self.cursor {
                    None => true,
                    Some(p) => c.position > p,
                };
                if fresh {
                    self.cursor = Some(c.position);
                    SessionAction::Forward(c)
                } else {
                    SessionAction::Idle
                }
            },
            (SessionState::Live, SessionEvent::FeedUnavailable)
            | (SessionState::Live, SessionEvent::FeedClosed)
            | (SessionState::Opening, SessionEvent::TransportClosed)
            | (SessionState::Welcoming, SessionEvent::TransportClosed)
            | (SessionState::Live, SessionEvent::TransportClosed)
            | (SessionState::Opening, SessionEvent::Shutdown)
            | (SessionState::Welcoming, SessionEvent::Shutdown)
            | (SessionState::Live, SessionEvent::Shutdown) => self.close(),
            (SessionState::Closing, SessionEvent::Released) => {
                self.state = SessionState::Closed;
                SessionAction::Idle
            },
            _ => SessionAction::Idle,
        }
    }

    /// Hands a list of stored messages (a catch-up backlog) to the session,
    /// one event each, in order, and returns the actions asked for.
    pub fn deliver_backlog(&mut self, backlog: &Vec<ChangeEvent>) -> (r: Vec<SessionAction>)
        ensures
            (*final(self), action_views(r@)) == run(*old(self), inserted_all(backlog@)),
            well_formed(*old(self)) ==> well_formed(*final(self)),
    {
        let ghost s0 = *self;
        let mut out: Vec<SessionAction> = Vec::new();
        let mut i: usize = 0;
        assert(inserted_all(backlog@.take(0)) =~= Seq::<EventView>::empty());
        assert(action_views(out@) =~= Seq::<ActionView>::empty());
        while i < backlog.len()
            invariant
                0 <= i <= backlog.len(),
                well_formed(s0) ==> well_formed(*self),
                (*self, action_views(out@)) == run(s0, inserted_all(backlog@.take(i as int))),
            decreases backlog.len() - i,
        {
            let ghost before = out@;
            let c = backlog[i].duplicate();
            let a = self.step(SessionEvent::Inserted(c));
            out.push(a);
            proof {
                let e = EventView::Inserted(backlog@[i as int].position, backlog@[i as int].message@);
                assert(inserted_all(backlog@.take(i + 1)) =~= inserted_all(backlog@.take(i as int)).push(e));
                lemma_run_push(s0, inserted_all(backlog@.take(i as int)), e);
                assert(action_views(out@) =~= action_views(before).push(a@));
            }
            i = i + 1;
        }
        assert(backlog@.take(backlog.len() as int) =~= backlog@);
        out
    }
}

/// A session that is closing or closed sends nothing more.
proof fn lemma_closing_is_quiet(s: StreamingSession, es: Seq<EventView>)
    requires
        s.state == SessionState::Closing || s.state == SessionState::Closed,
    ensures
        forall|i: int| 0 <= i < run(s, es).1.len() ==> !(#[trigger] run(s, es).1[i] is Forward)
            && !(run(s, es).1[i] is SendWelcome),
    decreases es.len(),
{
    if es.len() > 0 {
        let (s1, a) = next(s, es[0]);
        lemma_closing_is_quiet(s1, es.drop_first());
        let acts = run(s, es).1;
        let rest = run(s1, es.drop_first()).1;
        assert forall|i: int| 0 <= i < acts.len() implies !(#[trigger] acts[i] is Forward) && !(acts[i] is SendWelcome) by {
            if i > 0 {
                assert(acts[i] == rest[i - 1]);
            }
        }
    }
}

proof fn lemma_welcome_before_forward(s: StreamingSession, es: Seq<EventView>)
    requires
        s.state == SessionState::Opening,
    ensures
        forall|i: int| 0 <= i < run(s, es).1.len() && #[trigger] run(s, es).1[i] is Forward ==>
            exists|j: int| 0 <= j < i && run(s, es).1[j] is SendWelcome
                && run(s, es).1[j]->SendWelcome_0.username == SERVER_NAME@,
    decreases es.len(),
{
    if es.len() > 0 {
        let (s1, a) = next(s, es[0]);
        let acts = run(s, es).1;
        let rest = run(s1, es.drop_first()).1;
        assert(acts == seq![a] + rest);
        if s1.state == SessionState::Opening {
            lemma_welcome_before_forward(s1, es.drop_first());
            assert forall|i: int| 0 <= i < acts.len() && #[trigger] acts[i] is Forward implies
                exists|j: int| 0 <= j < i && acts[j] is SendWelcome && acts[j]->SendWelcome_0.username == SERVER_NAME@ by {
                assert(acts[i] == rest[i - 1]);
                let j = choose|j: int| 0 <= j < i - 1 && rest[j] is SendWelcome && rest[j]->SendWelcome_0.username == SERVER_NAME@;
                assert(acts[j + 1] == rest[j]);
            }
        } else if s1.state == SessionState::Welcoming {
            assert(a is SendWelcome && a->SendWelcome_0.username == SERVER_NAME@);
            assert forall|i: int| 0 <= i < acts.len() && #[trigger] acts[i] is Forward implies
                exists|j: int| 0 <= j < i && acts[j] is SendWelcome && acts[j]->SendWelcome_0.username == SERVER_NAME@ by {
                assert(acts[0] == a);
            }
        } else {
            lemma_closing_is_quiet(s1, es.drop_first());
            assert forall|i: int| 0 <= i < acts.len() implies !(#[trigger] acts[i] is Forward) by {
                if i > 0 {
                    assert(acts[i] == rest[i - 1]);
                }
            }
        }
    }
}

/// Every session's first frame is the welcome message: along any run from a
/// fresh session, each forwarded message comes after a welcome message from
/// the server, whatever the store holds.
pub proof fn welcome_comes_first(es: Seq<EventView>)
    ensures
        forall|i: int| 0 <= i < run(initial_session(), es).1.len()
            && #[trigger] run(initial_session(), es).1[i] is Forward ==>
            exists|j: int| 0 <= j < i && run(initial_session(), es).1[j] is SendWelcome
                && run(initial_session(), es).1[j]->SendWelcome_0.username == SERVER_NAME@,
{
    lemma_welcome_before_forward(initial_session(), es);
}

/// No message is forwarded twice: along any run, the sequence positions of
/// forwarded messages strictly increase, and all lie past the cursor that the
/// run started from.
pub proof fn forwarded_positions_increase(s: StreamingSession, es: Seq<EventView>)
    ensures
        forall|i: int, j: int| 0 <= i < j < run(s, es).1.len()
            && #[trigger] run(s, es).1[i] is Forward && #[trigger] run(s, es).1[j] is Forward ==>
            run(s, es).1[i]->Forward_0 < run(s, es).1[j]->Forward_0,
        forall|i: int| 0 <= i < run(s, es).1.len() && #[trigger] run(s, es).1[i] is Forward ==>
            after_cursor(s.cursor, run(s, es).1[i]->Forward_0),
    decreases es.len(),
{
    if es.len() > 0 {
        let (s1, a) = next(s, es[0]);
        let acts = run(s, es).1;
        let rest = run(s1, es.drop_first()).1;
        forwarded_positions_increase(s1, es.drop_first());
        assert(acts == seq![a] + rest);
        assert forall|i: int| 0 <= i < acts.len() && #[trigger] acts[i] is Forward implies
            after_cursor(s.cursor, acts[i]->Forward_0) by {
            if i > 0 {
                assert(acts[i] == rest[i - 1]);
            }
        }
        assert forall|i: int, j: int| 0 <= i < j < acts.len()
            && #[trigger] acts[i] is Forward && #[trigger] acts[j] is Forward implies
            acts[i]->Forward_0 < acts[j]->Forward_0 by {
            assert(acts[j] == rest[j - 1]);
            if i > 0 {
                assert(acts[i] == rest[i - 1]);
            }
        }
    }
}

/// Catch-up and live delivery keep the store's order, each message exactly
/// once: a live session handed messages whose positions strictly increase past
/// its cursor forwards exactly those messages, in that order, and stays live.
pub proof fn live_delivery_in_order(s: StreamingSession, cs: Seq<ChangeEvent>)
    requires
        s.state == SessionState::Live,
        positions_increase(cs),
        forall|i: int| 0 <= i < cs.len() ==> after_cursor(s.cursor, #[trigger] cs[i].position),
    ensures
        run(s, inserted_all(cs)).1 == forwards_of(cs),
        run(s, inserted_all(cs)).0.state == SessionState::Live,
    decreases cs.len(),
{
    if cs.len() == 0 {
        assert(forwards_of(cs) =~= Seq::<ActionView>::empty());
    } else {
        let es = inserted_all(cs);
        let (s1, a) = next(s, es[0]);
        let tail = cs.drop_first();
        assert(es.drop_first() =~= inserted_all(tail));
        assert(s1.cursor == Some(cs[0].position));
        assert forall|i: int| 0 <= i < tail.len() implies after_cursor(s1.cursor, #[trigger] tail[i].position) by {
            assert(tail[i] == cs[i + 1]);
        }
        live_delivery_in_order(s1, tail);
        assert(forwards_of(cs) =~= seq![a] + forwards_of(tail));
    }
}

/// Inserts numbered from `first` on, in order, as a feed adapter numbers
/// them (or as a catch-up backlog is numbered from 0).
pub open spec fn numbered_inserts(first: nat, ms: Seq<MessageView>) -> Seq<EventView> {
    Seq::new(ms.len(), |i: int| EventView::Inserted((first + i) as u64, ms[i]))
}

/// Forwards of the same messages with the same numbers.
pub open spec fn numbered_forwards(first: nat, ms: Seq<MessageView>) -> Seq<ActionView> {
    Seq::new(ms.len(), |i: int| ActionView::Forward((first + i) as u64, ms[i]))
}

/// Every message inserted while a session is live is forwarded exactly once,
/// in insertion order: a live session handed inserts numbered consecutively
/// from a position past its cursor forwards each of them once, with its
/// number, none lost and none added, and stays live.
pub proof fn live_inserts_forwarded_once(s: StreamingSession, first: nat, ms: Seq<MessageView>)
    requires
        s.state == SessionState::Live,
        first + ms.len() <= u64::MAX,
        after_cursor(s.cursor, first as u64),
    ensures
        run(s, numbered_inserts(first, ms)).1 == numbered_forwards(first, ms),
        run(s, numbered_inserts(first, ms)).0.state == SessionState::Live,
    decreases ms.len(),
{
    let es = numbered_inserts(first, ms);
    if ms.len() == 0 {
        assert(numbered_forwards(first, ms) =~= Seq::<ActionView>::empty());
        assert(es =~= Seq::<EventView>::empty());
    } else {
        let (s1, a) = next(s, es[0]);
        assert(es[0] == EventView::Inserted(first as u64, ms[0]));
        assert(s1.cursor == Some(first as u64));
        assert(es.drop_first() =~= numbered_inserts(first + 1, ms.drop_first()));
        live_inserts_forwarded_once(s1, first + 1, ms.drop_first());
        assert(numbered_forwards(first, ms) =~= seq![a] + numbered_forwards(first + 1, ms.drop_first()));
    }
}

/// Catch-up keeps the store's query order and hands over to the live feed
/// without loss or repetition: a live session that has forwarded nothing,
/// handed the result of the history query for `min_date` numbered from 0 and
/// then the live inserts numbered on from there, forwards exactly the query's
/// messages in the query's order followed by the live ones.
pub proof fn catch_up_then_live_in_order(
    s: StreamingSession,
    stored: Seq<ChatMessage>,
    min_date: i64,
    live: Seq<MessageView>,
)
    requires
        s.state == SessionState::Live,
        s.cursor is None,
        later_than(stored, min_date).len() + live.len() <= u64::MAX,
    ensures
        run(
            s,
            numbered_inserts(0, later_than(stored, min_date)) + numbered_inserts(
                later_than(stored, min_date).len(),
                live,
            ),
        ).1 == numbered_forwards(0, later_than(stored, min_date) + live),
{
    let q = later_than(stored, min_date);
    assert(numbered_inserts(0, q) + numbered_inserts(q.len(), live) =~= numbered_inserts(0, q + live));
    live_inserts_forwarded_once(s, 0, q + live);
}

} // verus!
