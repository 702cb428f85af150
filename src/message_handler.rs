use vstd::prelude::*;
use crate::connection_details::{
    backoff_delay_ms, ConnectionDetails, FAILURE_CEILING,
};
use crate::incoming::{incoming_of, to_struct, Incoming, MessageValues, ParsedMessage, ScreenStatus};
use crate::json::{Json, JsonValue};
use crate::outgoing::{envelope_json, token_view, Response, ResponseView, StructuredResponse};
use crate::watchdog::{after_check, fires_at, Watchdog, WatchdogView, WATCHDOG_WINDOW_MS};

verus! {

broadcast use vstd::std_specs::vec::group_vec_axioms;

/// Pause between switching the display and reading its state back, so the
/// report reflects the change.
pub const SETTLE_DELAY_MS: u64 = 250;

/// An event for the router. Every source (socket reader, timers, scheduler,
/// signal handler, connection attempts) feeds the router through one queue.
#[derive(Debug)]
pub enum Msg {
    /// The process is shutting down.
    Exit,
    /// The peer sent a ping.
    Ping,
    /// A text frame arrived; `None` when it was not JSON.
    Received(Option<JsonValue>),
    ScreenOn,
    Status,
    ScreenOff,
    /// A response is ready to be sent, with the token of the request it answers.
    ToSend(Response, Option<String>),
    /// The peer closed the link, or it failed.
    WsClose,
    /// A connection attempt succeeded.
    WsConnected,
    /// A connection attempt failed.
    ConnectFailed,
    /// The idle timer ran out.
    WatchdogExpired,
    /// Switching the display failed, with the token of the request behind it.
    /// The peer hears of it only when the token is known.
    DeviceError(String, Option<String>),
}

/// What the socket reader got: a frame of some kind, or a failure (a read
/// error, or the stream ending without a close frame).
#[derive(Debug)]
pub enum Frame {
    /// A text frame, parsed; `None` when it was not JSON.
    Text(Option<JsonValue>),
    Ping,
    Close,
    /// Any other kind of frame.
    Other,
    Failed,
}

/// The event a frame stands for: text is received, a ping is a ping, a
/// close frame or a failed read closes the link, and other frames are
/// ignored. After a close or a failure the reader stops.
pub fn frame_event(frame: Frame) -> (r: Option<Msg>)
    ensures
        match frame {
            Frame::Text(d) => r matches Some(m) && m.view() == Msg::Received(d).view(),
            Frame::Ping => r matches Some(Msg::Ping),
            Frame::Close | Frame::Failed => r matches Some(Msg::WsClose),
            Frame::Other => r is None,
        },
{
    match frame {
        Frame::Text(d) => Some(Msg::Received(d)),
        Frame::Ping => Some(Msg::Ping),
        Frame::Close | Frame::Failed => Some(Msg::WsClose),
        Frame::Other => None,
    }
}

/// Whether the reader stops after this frame.
pub fn frame_ends_reading(frame: &Frame) -> (r: bool)
    ensures
        r <==> (*frame is Close || *frame is Failed),
{
    match frame {
        Frame::Close | Frame::Failed => true,
        _ => false,
    }
}

/// Work the router asks of its environment.
#[derive(Debug)]
pub enum Action {
    /// Wait, then attempt one connection; it ends in `WsConnected` or `ConnectFailed`.
    Connect { delay_ms: u64 },
    /// Close the live socket and cancel its reader and idle timer.
    CloseSocket,
    /// Restart the idle timer: `WatchdogExpired` after this many milliseconds.
    ArmWatchdog { after_ms: u64 },
    /// Switch the display; a failure comes back as `DeviceError`.
    Toggle { status: ScreenStatus, unique: Option<String> },
    /// After the delay, gather a status snapshot and hand it back as `ToSend`.
    PushStatus { delay_ms: u64, unique: Option<String> },
    /// Write this envelope to the socket.
    Send(JsonValue),
    /// Leave the event loop.
    Stop,
}

/// Where the link stands.
#[derive(Debug, Clone, Copy, PartialEq, Eq, Structural)]
pub enum LinkState {
    /// Not started.
    Idle,
    /// One connection attempt is pending.
    Connecting,
    /// A session is live.
    Connected,
    /// Shut down; nothing more happens.
    Stopped,
}

pub enum MsgView {
    Exit,
    Ping,
    Received(Option<Json>),
    ScreenOn,
    Status,
    ScreenOff,
    ToSend(ResponseView, Option<Seq<char>>),
    WsClose,
    WsConnected,
    ConnectFailed,
    WatchdogExpired,
    DeviceError(Seq<char>, Option<Seq<char>>),
}

pub enum ActionView {
    Connect(u64),
    CloseSocket,
    ArmWatchdog(u64),
    Toggle(ScreenStatus, Option<Seq<char>>),
    PushStatus(u64, Option<Seq<char>>),
    Send(Json),
    Stop,
}

pub struct HandlerView {
    pub link: LinkState,
    pub failures: nat,
    pub watchdog: WatchdogView,
    /// A display switch asked for while no session was live.
    pub pending: Option<(ScreenStatus, Option<Seq<char>>)>,
}

impl Msg {
    pub open spec fn view(&self) -> MsgView {
        match self {
            Msg::Exit => MsgView::Exit,
            Msg::Ping => MsgView::Ping,
            Msg::Received(d) => MsgView::Received(
                match d {
                    Some(v) => Some(v.model()),
                    None => None,
                },
            ),
            Msg::ScreenOn => MsgView::ScreenOn,
            Msg::Status => MsgView::Status,
            Msg::ScreenOff => MsgView::ScreenOff,
            Msg::ToSend(r, u) => MsgView::ToSend(r.view(), token_view(*u)),
            Msg::WsClose => MsgView::WsClose,
            Msg::WsConnected => MsgView::WsConnected,
            Msg::ConnectFailed => MsgView::ConnectFailed,
            Msg::WatchdogExpired => MsgView::WatchdogExpired,
            Msg::DeviceError(m, u) => MsgView::DeviceError(m@, token_view(*u)),
        }
    }
}

impl Action {
    pub open spec fn view(&self) -> ActionView {
        match self {
            Action::Connect { delay_ms } => ActionView::Connect(*delay_ms),
            Action::CloseSocket => ActionView::CloseSocket,
            Action::ArmWatchdog { after_ms } => ActionView::ArmWatchdog(*after_ms),
            Action::Toggle { status, unique } => ActionView::Toggle(*status, token_view(*unique)),
            Action::PushStatus { delay_ms, unique } => ActionView::PushStatus(
                *delay_ms,
                token_view(*unique),
            ),
            Action::Send(doc) => ActionView::Send(doc.model()),
            Action::Stop => ActionView::Stop,
        }
    }
}

pub open spec fn actions_view(acts: Seq<Action>) -> Seq<ActionView> {
    Seq::new(acts.len(), |i: int| acts[i].view())
}

/// Failure count after one more failed attempt.
pub open spec fn failures_after_fail(f: nat) -> nat {
    if f < FAILURE_CEILING {
        f + 1
    } else {
        f
    }
}

/// Close the live session and schedule one new attempt.
pub open spec fn close_and_retry(h: HandlerView) -> (HandlerView, Seq<ActionView>) {
    (
        HandlerView { link: LinkState::Connecting, ..h },
        seq![ActionView::CloseSocket, ActionView::Connect(backoff_delay_ms(h.failures) as u64)],
    )
}

/// Run a command: a status query pushes the status at once; a display switch
/// is followed by a status push after the settle delay. Without a live
/// session a status query is dropped and a switch is kept for later.
pub open spec fn command_spec(
    h: HandlerView,
    c: ParsedMessage,
    unique: Option<Seq<char>>,
) -> (HandlerView, Seq<ActionView>) {
    let connected = h.link == LinkState::Connected;
    match c {
        ParsedMessage::Status => if connected {
            (h, seq![ActionView::PushStatus(0, unique)])
        } else {
            (h, Seq::empty())
        },
        _ => {
            let s = if c == ParsedMessage::ScreenOn {
                ScreenStatus::On
            } else {
                ScreenStatus::Off
            };
            if connected {
                (
                    h,
                    seq![
                        ActionView::Toggle(s, unique),
                        ActionView::PushStatus(SETTLE_DELAY_MS, unique),
                    ],
                )
            } else {
                (HandlerView { pending: Some((s, unique)), ..h }, Seq::empty())
            }
        },
    }
}

/// Actions owed when a session comes up: arm the idle timer, apply a switch
/// kept while disconnected, and push the status.
pub open spec fn on_connect_actions(pending: Option<(ScreenStatus, Option<Seq<char>>)>) -> Seq<
    ActionView,
> {
    seq![ActionView::ArmWatchdog(WATCHDOG_WINDOW_MS)] + match pending {
        Some((s, u)) => seq![ActionView::Toggle(s, u), ActionView::PushStatus(SETTLE_DELAY_MS, u)],
        None => Seq::empty(),
    } + seq![ActionView::PushStatus(0, None)]
}

/// The router's transition: new state and the actions owed, for one event at
/// clock reading `now`.
pub open spec fn step_spec(h: HandlerView, m: MsgView, now: nat) -> (HandlerView, Seq<ActionView>) {
    let connected = h.link == LinkState::Connected;
    if h.link == LinkState::Stopped {
        (h, Seq::empty())
    } else {
        match m {
            MsgView::Exit => (
                HandlerView { link: LinkState::Stopped, ..h },
                if connected {
                    seq![ActionView::CloseSocket, ActionView::Stop]
                } else {
                    seq![ActionView::Stop]
                },
            ),
            MsgView::Ping => if connected {
                (
                    HandlerView { watchdog: WatchdogView { last_reset: now, fired: false }, ..h },
                    seq![ActionView::ArmWatchdog(WATCHDOG_WINDOW_MS)],
                )
            } else {
                (h, Seq::empty())
            },
            MsgView::WatchdogExpired => if connected && fires_at(h.watchdog, now) {
                close_and_retry(HandlerView { watchdog: after_check(h.watchdog, now), ..h })
            } else {
                (h, Seq::empty())
            },
            MsgView::WsClose => if connected {
                close_and_retry(h)
            } else {
                (h, Seq::empty())
            },
            MsgView::ConnectFailed => if h.link == LinkState::Connecting {
                let f = failures_after_fail(h.failures);
                (
                    HandlerView { failures: f, ..h },
                    seq![ActionView::Connect(backoff_delay_ms(f) as u64)],
                )
            } else {
                (h, Seq::empty())
            },
            MsgView::WsConnected => if h.link == LinkState::Connecting || connected {
                (
                    HandlerView {
                        link: LinkState::Connected,
                        failures: 0,
                        watchdog: WatchdogView { last_reset: now, fired: false },
                        pending: None,
                    },
                    if connected {
                        seq![ActionView::CloseSocket] + on_connect_actions(h.pending)
                    } else {
                        on_connect_actions(h.pending)
                    },
                )
            } else {
                (h, Seq::empty())
            },
            MsgView::Received(doc) => match doc {
                Some(j) => match incoming_of(j) {
                    Some(Incoming::Command(c, u)) => if connected {
                        command_spec(h, c, Some(u))
                    } else {
                        (h, Seq::empty())
                    },
                    _ => (h, Seq::empty()),
                },
                None => (h, Seq::empty()),
            },
            MsgView::ScreenOn => command_spec(h, ParsedMessage::ScreenOn, None),
            MsgView::ScreenOff => command_spec(h, ParsedMessage::ScreenOff, None),
            MsgView::Status => command_spec(h, ParsedMessage::Status, None),
            MsgView::ToSend(r, u) => if connected {
                (h, seq![ActionView::Send(envelope_json(r, u))])
            } else {
                (h, Seq::empty())
            },
            MsgView::DeviceError(text, u) => if connected && u is Some {
                (h, seq![ActionView::Send(envelope_json(ResponseView::Error(text), u))])
            } else {
                (h, Seq::empty())
            },
        }
    }
}

/// The actions schedule a connection attempt.
pub open spec fn schedules_attempt(acts: Seq<ActionView>) -> bool {
    exists|i: int| 0 <= i < acts.len() && #[trigger] acts[i] is Connect
}

/// The actions schedule at most one connection attempt.
pub open spec fn at_most_one_attempt(acts: Seq<ActionView>) -> bool {
    forall|i: int, j: int|
        0 <= i < acts.len() && 0 <= j < acts.len() && #[trigger] acts[i] is Connect
            && #[trigger] acts[j] is Connect ==> i == j
}

/// Closing a live session, on the peer's close or failure or on the idle
/// timer running out, schedules exactly one new connection attempt and
/// leaves the link waiting on it.
pub proof fn law_close_schedules_one_attempt(h: HandlerView, m: MsgView, now: nat)
    requires
        h.link == LinkState::Connected,
        m is WsClose || (m is WatchdogExpired && fires_at(h.watchdog, now)),
    ensures
        schedules_attempt(step_spec(h, m, now).1),
        at_most_one_attempt(step_spec(h, m, now).1),
        step_spec(h, m, now).0.link == LinkState::Connecting,
{
    let acts = step_spec(h, m, now).1;
    assert(acts[1] is Connect);
}

/// No event schedules two attempts; an event that schedules one leaves the
/// link waiting on it; and while an attempt is pending, only its failure
/// schedules another, so attempts never overlap.
pub proof fn law_attempts_never_overlap(h: HandlerView, m: MsgView, now: nat)
    ensures
        at_most_one_attempt(step_spec(h, m, now).1),
        schedules_attempt(step_spec(h, m, now).1) ==> step_spec(h, m, now).0.link
            == LinkState::Connecting,
        h.link == LinkState::Connecting && !(m is ConnectFailed) ==> !schedules_attempt(
            step_spec(h, m, now).1,
        ),
{
    let acts = step_spec(h, m, now).1;
    if m is WsConnected && (h.link == LinkState::Connecting || h.link == LinkState::Connected) {
        let tail = on_connect_actions(h.pending);
        assert(forall|i: int| 0 <= i < tail.len() ==> !(#[trigger] tail[i] is Connect));
    }
    if m is Received {
        if let Some(j) = m->Received_0 {
            if let Some(Incoming::Command(c, u)) = incoming_of(j) {
                assert(forall|i: int| 0 <= i < acts.len() ==> !(#[trigger] acts[i] is Connect));
            }
        }
    }
}

/// The router after a run of events, each with its clock reading, and the
/// actions of the whole run in order.
pub open spec fn run_router(h: HandlerView, events: Seq<(MsgView, nat)>) -> (
    HandlerView,
    Seq<ActionView>,
)
    decreases events.len(),
{
    if events.len() == 0 {
        (h, Seq::empty())
    } else {
        let before = run_router(h, events.drop_last());
        let after = step_spec(before.0, events.last().0, events.last().1);
        (after.0, before.1 + after.1)
    }
}

/// A run of pings and idle-timer expiries in which every expiry comes less
/// than one window after the latest ping before it (or after the session
/// came up).
pub open spec fn pinged_in_every_window(h: HandlerView, events: Seq<(MsgView, nat)>) -> bool {
    forall|i: int|
        0 <= i < events.len() ==> (#[trigger] events[i]).0 is Ping || (events[i].0 is WatchdogExpired
            && events[i].1 < run_router(h, events.take(i)).0.watchdog.last_reset
            + WATCHDOG_WINDOW_MS)
}

/// On a live session, pings within every window keep the idle timer from
/// ever closing it: the link stays up, and the only actions are re-arming
/// the timer.
pub proof fn law_router_watchdog_quiet(h: HandlerView, events: Seq<(MsgView, nat)>)
    requires
        h.link == LinkState::Connected,
        pinged_in_every_window(h, events),
    ensures
        run_router(h, events).0.link == LinkState::Connected,
        forall|i: int|
            0 <= i < run_router(h, events).1.len() ==> (#[trigger] run_router(h, events).1[i]) is ArmWatchdog,
    decreases events.len(),
{
    if events.len() > 0 {
        let prefix = events.drop_last();
        assert forall|i: int| 0 <= i < prefix.len() implies (#[trigger] prefix[i]).0 is Ping || (
        prefix[i].0 is WatchdogExpired && prefix[i].1 < run_router(h, prefix.take(i)).0.watchdog.last_reset
            + WATCHDOG_WINDOW_MS) by {
            assert(prefix[i] == events[i]);
            assert(prefix.take(i) =~= events.take(i));
        }
        law_router_watchdog_quiet(h, prefix);
        let n = events.len() - 1;
        assert(events.take(n) =~= prefix);
        assert(events[n] == events.last());
        let before = run_router(h, prefix);
        let after = step_spec(before.0, events.last().0, events.last().1);
        assert forall|i: int| 0 <= i < after.1.len() implies (#[trigger] after.1[i]) is ArmWatchdog by {}
        let all = before.1 + after.1;
        assert forall|i: int| 0 <= i < all.len() implies (#[trigger] all[i]) is ArmWatchdog by {
            if i < before.1.len() {
                assert(all[i] == before.1[i]);
            } else {
                assert(all[i] == after.1[i - before.1.len()]);
            }
        }
    }
}

/// With a live session, switching the display on and then asking for the
/// status at once: the switch goes out first and its status report waits
/// the settle delay, while the query is answered at once from whatever the
/// device reports then. Neither event changes the router's state.
pub proof fn law_switch_then_status(h: HandlerView, now1: nat, now2: nat)
    requires
        h.link == LinkState::Connected,
    ensures
        step_spec(h, MsgView::ScreenOn, now1) == (
            h,
            seq![
                ActionView::Toggle(ScreenStatus::On, None),
                ActionView::PushStatus(SETTLE_DELAY_MS, None),
            ],
        ),
        step_spec(step_spec(h, MsgView::ScreenOn, now1).0, MsgView::Status, now2) == (
            h,
            seq![ActionView::PushStatus(0, None)],
        ),
        SETTLE_DELAY_MS > 0,
{
}

/// The single consumer of the event queue: the only holder of link state.
pub struct MessageHandler {
    link: LinkState,
    connection_details: ConnectionDetails,
    watchdog: Watchdog,
    pending: Option<(ScreenStatus, Option<String>)>,
}

fn clone_token(u: &Option<String>) -> (r: Option<String>)
    ensures
        token_view(r) == token_view(*u),
{
    match u {
        Some(s) => Some(s.clone()),
        None => None,
    }
}

impl MessageHandler {
    pub closed spec fn view(&self) -> HandlerView {
        HandlerView {
            link: self.link,
            failures: self.connection_details.failures(),
            watchdog: self.watchdog.view(),
            pending: match self.pending {
                Some((s, u)) => Some((s, token_view(u))),
                None => None,
            },
        }
    }

    pub closed spec fn wf(&self) -> bool {
        self.connection_details.wf()
    }

    pub fn new() -> (r: Self)
        ensures
            r.wf(),
            r.view().link == LinkState::Idle,
            r.view().failures == 0,
            r.view().pending is None,
    {
        MessageHandler {
            link: LinkState::Idle,
            connection_details: ConnectionDetails::new(),
            watchdog: Watchdog::new(0),
            pending: None,
        }
    }

    pub fn link(&self) -> (r: LinkState)
        ensures
            r == self.view().link,
    {
        self.link
    }

    /// Start the link: the first attempt, after the minimum delay.
    pub fn start(&mut self) -> (r: Vec<Action>)
        requires
            old(self).wf(),
        ensures
            final(self).wf(),
            old(self).view().link == LinkState::Idle ==> final(self).view() == (HandlerView {
                link: LinkState::Connecting,
                ..old(self).view()
            }) && actions_view(r@) == seq![
                ActionView::Connect(backoff_delay_ms(old(self).view().failures) as u64),
            ],
            old(self).view().link != LinkState::Idle ==> final(self).view() == old(self).view()
                && r@.len() == 0,
    {
        let mut acts: Vec<Action> = Vec::new();
        if self.link == LinkState::Idle {
            self.link = LinkState::Connecting;
            acts.push(Action::Connect { delay_ms: self.connection_details.get_delay_ms() });
            proof {
                assert(actions_view(acts@) =~= seq![
                    ActionView::Connect(backoff_delay_ms(old(self).view().failures) as u64),
                ]);
            }
        }
        acts
    }

    fn command(&mut self, c: ParsedMessage, unique: Option<String>) -> (r: Vec<Action>)
        requires
            old(self).wf(),
            old(self).view().link != LinkState::Stopped,
        ensures
            final(self).wf(),
            (final(self).view(), actions_view(r@)) == command_spec(
                old(self).view(),
                c,
                token_view(unique),
            ),
    {
        let mut acts: Vec<Action> = Vec::new();
        let connected = self.link == LinkState::Connected;
        let ghost u = token_view(unique);
        match c {
            ParsedMessage::Status => {
                if connected {
                    acts.push(Action::PushStatus { delay_ms: 0, unique });
                }
                proof {
                    assert(actions_view(acts@) =~= command_spec(self.view(), c, u).1);
                }
            },
            _ => {
                let s = if c == ParsedMessage::ScreenOn {
                    ScreenStatus::On
                } else {
                    ScreenStatus::Off
                };
                if connected {
                    let again = clone_token(&unique);
                    acts.push(Action::Toggle { status: s, unique });
                    acts.push(Action::PushStatus { delay_ms: SETTLE_DELAY_MS, unique: again });
                    proof {
                        assert(actions_view(acts@) =~= command_spec(self.view(), c, u).1);
                    }
                } else {
                    self.pending = Some((s, unique));
                    proof {
                        assert(actions_view(acts@) =~= Seq::<ActionView>::empty());
                    }
                }
            },
        }
        acts
    }

    fn close_and_retry(&mut self) -> (r: Vec<Action>)
        requires
            old(self).wf(),
        ensures
            final(self).wf(),
            (final(self).view(), actions_view(r@)) == close_and_retry(old(self).view()),
    {
        let mut acts: Vec<Action> = Vec::new();
        self.link = LinkState::Connecting;
        acts.push(Action::CloseSocket);
        acts.push(Action::Connect { delay_ms: self.connection_details.get_delay_ms() });
        proof {
            assert(actions_view(acts@) =~= close_and_retry(old(self).view()).1);
        }
        acts
    }

    /// Handle one event at clock reading `now_ms` (milliseconds, monotonic):
    /// update the link state and return the actions owed, in order.
    pub fn step(&mut self, msg: Msg, now_ms: u64) -> (r: Vec<Action>)
        requires
            old(self).wf(),
        ensures
            final(self).wf(),
            (final(self).view(), actions_view(r@)) == step_spec(
                old(self).view(),
                msg.view(),
                now_ms as nat,
            ),
    {
        let ghost h = self.view();
        let ghost m = msg.view();
        let mut acts: Vec<Action> = Vec::new();
        if self.link == LinkState::Stopped {
            proof {
                assert(actions_view(acts@) =~= Seq::<ActionView>::empty());
            }
            return acts;
        }
        let connected = self.link == LinkState::Connected;
        match msg {
            Msg::Exit => {
                if connected {
                    acts.push(Action::CloseSocket);
                }
                acts.push(Action::Stop);
                self.link = LinkState::Stopped;
                proof {
                    assert(actions_view(acts@) =~= step_spec(h, m, now_ms as nat).1);
                }
                acts
            },
            Msg::Ping => {
                if connected {
                    self.watchdog.reset(now_ms);
                    acts.push(Action::ArmWatchdog { after_ms: WATCHDOG_WINDOW_MS });
                }
                proof {
                    assert(actions_view(acts@) =~= step_spec(h, m, now_ms as nat).1);
                }
                acts
            },
            Msg::WatchdogExpired => {
                if connected {
                    if self.watchdog.check(now_ms) {
                        return self.close_and_retry();
                    }
                }
                proof {
                    assert(actions_view(acts@) =~= step_spec(h, m, now_ms as nat).1);
                }
                acts
            },
            Msg::WsClose => {
                if connected {
                    return self.close_and_retry();
                }
                proof {
                    assert(actions_view(acts@) =~= step_spec(h, m, now_ms as nat).1);
                }
                acts
            },
            Msg::ConnectFailed => {
                if self.link == LinkState::Connecting {
                    self.connection_details.fail_connect();
                    acts.push(Action::Connect { delay_ms: self.connection_details.get_delay_ms() });
                }
                proof {
                    assert(actions_view(acts@) =~= step_spec(h, m, now_ms as nat).1);
                }
                acts
            },
            Msg::WsConnected => {
                if self.link == LinkState::Connecting || connected {
                    if connected {
                        acts.push(Action::CloseSocket);
                    }
                    self.link = LinkState::Connected;
                    self.connection_details.valid_connect();
                    self.watchdog.reset(now_ms);
                    acts.push(Action::ArmWatchdog { after_ms: WATCHDOG_WINDOW_MS });
                    let pending = self.pending.take();
                    match pending {
                        Some((s, u)) => {
                            let again = clone_token(&u);
                            acts.push(Action::Toggle { status: s, unique: u });
                            acts.push(Action::PushStatus { delay_ms: SETTLE_DELAY_MS, unique: again });
                        },
                        None => {},
                    }
                    acts.push(Action::PushStatus { delay_ms: 0, unique: None });
                }
                proof {
                    assert(actions_view(acts@) =~= step_spec(h, m, now_ms as nat).1);
                }
                acts
            },
            Msg::Received(doc) => {
                if connected {
                    if let Some(d) = doc {
                        if let Some(MessageValues::Valid(c, u)) = to_struct(&d) {
                            return self.command(c, Some(u));
                        }
                    }
                }
                proof {
                    assert(actions_view(acts@) =~= step_spec(h, m, now_ms as nat).1);
                }
                acts
            },
            Msg::ScreenOn => self.command(ParsedMessage::ScreenOn, None),
            Msg::ScreenOff => self.command(ParsedMessage::ScreenOff, None),
            Msg::Status => self.command(ParsedMessage::Status, None),
            Msg::ToSend(response, unique) => {
                if connected {
                    acts.push(Action::Send(StructuredResponse::data(response, unique)));
                }
                proof {
                    assert(actions_view(acts@) =~= step_spec(h, m, now_ms as nat).1);
                }
                acts
            },
            Msg::DeviceError(text, unique) => {
                if connected && unique.is_some() {
                    acts.push(Action::Send(StructuredResponse::data(Response::Error(text), unique)));
                }
                proof {
                    assert(actions_view(acts@) =~= step_spec(h, m, now_ms as nat).1);
                }
                acts
            },
        }
    }
}

} // verus!
