//! The monitor: classification of probe results, the notify decision, and
//! the scan cycle as a state machine driven by its environment.
use vstd::prelude::*;
use crate::store::views;
use crate::watch::{Status, Watch, WatchView, status_word, status_text};

verus! {

/// Why a probe got no response.
#[derive(PartialEq, Eq, Structural, Clone, Copy, Debug)]
pub enum ProbeFailure {
    /// No response arrived within the probe's time bound.
    TimedOut,
    /// The connection could not be established.
    ConnectionFailed,
    /// Any other transport failure after the request was built.
    Transport,
    /// The URL could not be turned into a request.
    InvalidUrl,
}

/// The classification of one probe.
#[derive(PartialEq, Eq, Structural, Clone, Copy, Debug)]
pub enum ProbeOutcome {
    /// A response arrived, whatever its status code.
    Reachable,
    /// No response arrived: refused, failed or timed out.
    Unreachable,
    /// The URL was malformed, so nothing could be sent.
    Malformed,
}

/// The classification of a probe that returned a response status code or
/// failed.
pub open spec fn classified(r: Result<u16, ProbeFailure>) -> ProbeOutcome {
    match r {
        Ok(_) => ProbeOutcome::Reachable,
        Err(ProbeFailure::InvalidUrl) => ProbeOutcome::Malformed,
        Err(_) => ProbeOutcome::Unreachable,
    }
}

/// Classifies a probe: any response is `Reachable`; a malformed URL is
/// `Malformed`; a timeout or any other failure is `Unreachable`.
pub fn classify_probe(r: Result<u16, ProbeFailure>) -> (o: ProbeOutcome)
    ensures
        o == classified(r),
        r == Err::<u16, ProbeFailure>(ProbeFailure::TimedOut) ==> o == ProbeOutcome::Unreachable,
{
    match r {
        Ok(_) => ProbeOutcome::Reachable,
        Err(ProbeFailure::InvalidUrl) => ProbeOutcome::Malformed,
        Err(_) => ProbeOutcome::Unreachable,
    }
}

/// Whether a watch asking for `desired` is notified after a probe with
/// outcome `o`: the URL counts as up exactly when it was reachable.
pub open spec fn notify_due(desired: Status, o: ProbeOutcome) -> bool {
    let up = o == ProbeOutcome::Reachable;
    (desired == Status::Up && up) || (desired == Status::Down && !up)
}

/// Decides whether a watch asking for `desired` is notified after a probe
/// with outcome `o`.
pub fn should_notify(desired: Status, o: ProbeOutcome) -> (r: bool)
    ensures
        r == notify_due(desired, o),
{
    let up = o == ProbeOutcome::Reachable;
    match desired {
        Status::Up => up,
        Status::Down => !up,
    }
}

/// The message sent to a watch's owner: `<url> is up!` or `<url> is down!`.
pub open spec fn notice_words(w: WatchView) -> Seq<char> {
    w.url + " is "@ + status_word(w.status) + "!"@
}

/// Builds the message sent to the owner of `w`.
pub fn notice_text(w: &Watch) -> (r: String)
    ensures
        r@ == notice_words(w@),
{
    let mut r = w.url.clone();
    r.append(" is ");
    let st = status_text(w.status);
    r.append(st.as_str());
    r.append("!");
    r
}

/// Where the monitor stands.
#[derive(PartialEq, Eq, Structural, Clone, Copy, Debug)]
pub enum Phase {
    /// Not started.
    Idle,
    /// Waiting for the full list of watches.
    Loading,
    /// Waiting for the probe of the current watch.
    Probing,
    /// Waiting for the delivery of the current watch's notification.
    Notifying,
    /// Waiting out the idle period between cycles.
    Sleeping,
    /// Shut down; no further cycle starts.
    Stopped,
}

/// What the environment reports to the monitor.
pub enum Event {
    /// Begin monitoring.
    Start,
    /// Every stored watch, as loaded for a new cycle.
    Loaded(Vec<Watch>),
    /// Loading the watches failed.
    LoadFailed,
    /// The probe of the current watch finished with this outcome.
    Probed(ProbeOutcome),
    /// The current watch's notification was handed to the notifier; whether
    /// delivery succeeded.
    Delivered(bool),
    /// The idle period is over.
    Woke,
    /// Shut down once the cycle in flight is finished.
    Stop,
}

/// What the monitor asks the environment to do next.
#[derive(Debug)]
pub enum Action {
    /// Load every stored watch.
    Load,
    /// Probe this URL.
    Probe(String),
    /// Send this message to this owner.
    Notify(i64, String),
    /// Wait this many seconds, then report `Woke`.
    Sleep(u64),
    /// Stop running.
    Halt,
    /// Nothing new: keep waiting for the event the monitor expects.
    Wait,
}

/// The mathematical value of an event.
pub enum EventView {
    Start,
    Loaded(Seq<WatchView>),
    LoadFailed,
    Probed(ProbeOutcome),
    Delivered(bool),
    Woke,
    Stop,
}

impl View for Event {
    type V = EventView;

    open spec fn view(&self) -> EventView {
        match self {
            Event::Start => EventView::Start,
            Event::Loaded(ws) => EventView::Loaded(views(ws@)),
            Event::LoadFailed => EventView::LoadFailed,
            Event::Probed(o) => EventView::Probed(*o),
            Event::Delivered(ok) => EventView::Delivered(*ok),
            Event::Woke => EventView::Woke,
            Event::Stop => EventView::Stop,
        }
    }
}

/// The mathematical value of an action.
pub enum ActionView {
    Load,
    Probe(Seq<char>),
    Notify(i64, Seq<char>),
    Sleep(u64),
    Halt,
    Wait,
}

impl View for Action {
    type V = ActionView;

    open spec fn view(&self) -> ActionView {
        match self {
            Action::Load => ActionView::Load,
            Action::Probe(u) => ActionView::Probe(u@),
            Action::Notify(o, t) => ActionView::Notify(*o, t@),
            Action::Sleep(n) => ActionView::Sleep(*n),
            Action::Halt => ActionView::Halt,
            Action::Wait => ActionView::Wait,
        }
    }
}

/// The mathematical value of a monitor: its phase, the watches of the cycle
/// in flight, the position of the current one, whether a shutdown was
/// requested, and the idle period in seconds.
pub struct MonitorView {
    pub phase: Phase,
    pub watches: Seq<WatchView>,
    pub pos: int,
    pub stopping: bool,
    pub interval: u64,
}

/// The monitor's invariant: while probing or notifying, the position names
/// one of the cycle's watches.
pub open spec fn monitor_wf(s: MonitorView) -> bool {
    (s.phase == Phase::Probing || s.phase == Phase::Notifying) ==> 0 <= s.pos < s.watches.len()
}

/// The end of a cycle: the loaded watches are dropped; then shut down if
/// asked to, else sleep for the idle period.
pub open spec fn end_cycle(s: MonitorView) -> (MonitorView, ActionView) {
    if s.stopping {
        (
            MonitorView { phase: Phase::Stopped, watches: Seq::empty(), pos: 0, ..s },
            ActionView::Halt,
        )
    } else {
        (
            MonitorView { phase: Phase::Sleeping, watches: Seq::empty(), pos: 0, ..s },
            ActionView::Sleep(s.interval),
        )
    }
}

/// Moving past the current watch: probe the next one, or end the cycle.
pub open spec fn advance(s: MonitorView) -> (MonitorView, ActionView) {
    if s.pos + 1 < s.watches.len() {
        (
            MonitorView { phase: Phase::Probing, pos: s.pos + 1, ..s },
            ActionView::Probe(s.watches[s.pos + 1].url),
        )
    } else {
        end_cycle(s)
    }
}

/// The monitor's transition on an event: the next state and the action the
/// environment performs next. A failed load abandons the cycle; each probe
/// leads to at most one notification; a failed delivery is not retried; a
/// shutdown request lets the cycle in flight finish.
pub open spec fn next(s: MonitorView, e: EventView) -> (MonitorView, ActionView) {
    match (s.phase, e) {
        (Phase::Stopped, _) => (s, ActionView::Halt),
        (Phase::Idle, EventView::Start) => (MonitorView { phase: Phase::Loading, ..s }, ActionView::Load),
        (Phase::Idle, EventView::Stop) => (MonitorView { phase: Phase::Stopped, ..s }, ActionView::Halt),
        (Phase::Sleeping, EventView::Woke) => (MonitorView { phase: Phase::Loading, ..s }, ActionView::Load),
        (Phase::Sleeping, EventView::Stop) => (MonitorView { phase: Phase::Stopped, ..s }, ActionView::Halt),
        (Phase::Loading, EventView::Loaded(ws)) => if ws.len() == 0 {
            end_cycle(s)
        } else {
            (MonitorView { phase: Phase::Probing, watches: ws, pos: 0, ..s }, ActionView::Probe(ws[0].url))
        },
        (Phase::Loading, EventView::LoadFailed) => end_cycle(s),
        (Phase::Probing, EventView::Probed(o)) => {
            let w = s.watches[s.pos];
            if notify_due(w.status, o) {
                (MonitorView { phase: Phase::Notifying, ..s }, ActionView::Notify(w.owner, notice_words(w)))
            } else {
                advance(s)
            }
        },
        (Phase::Notifying, EventView::Delivered(_)) => advance(s),
        (_, EventView::Stop) => (MonitorView { stopping: true, ..s }, ActionView::Wait),
        _ => (s, ActionView::Wait),
    }
}

/// The scheduler of scan cycles. Its environment performs each action it
/// returns and reports the outcome as the next event.
pub struct Monitor {
    phase: Phase,
    watches: Vec<Watch>,
    pos: usize,
    stopping: bool,
    interval: u64,
}

impl View for Monitor {
    type V = MonitorView;

    closed spec fn view(&self) -> MonitorView {
        MonitorView {
            phase: self.phase,
            watches: views(self.watches@),
            pos: self.pos as int,
            stopping: self.stopping,
            interval: self.interval,
        }
    }
}

impl Monitor {
    /// Whether the monitor's invariant holds.
    pub open spec fn wf(&self) -> bool {
        monitor_wf(self@)
    }

    /// A monitor that has not started, idling `interval_secs` seconds
    /// between cycles.
    pub fn new(interval_secs: u64) -> (r: Monitor)
        ensures
            r@ == (MonitorView {
                phase: Phase::Idle,
                watches: Seq::empty(),
                pos: 0,
                stopping: false,
                interval: interval_secs,
            }),
            r.wf(),
    {
        let r = Monitor {
            phase: Phase::Idle,
            watches: Vec::new(),
            pos: 0,
            stopping: false,
            interval: interval_secs,
        };
        assert(views(r.watches@) =~= Seq::<WatchView>::empty());
        r
    }

    /// The current phase.
    pub fn phase(&self) -> (r: Phase)
        ensures
            r == self@.phase,
    {
        self.phase
    }

    fn end_cycle(&mut self) -> (a: Action)
        ensures
            (final(self)@, a@) == end_cycle(old(self)@),
    {
        self.watches = Vec::new();
        self.pos = 0;
        assert(views(self.watches@) =~= Seq::<WatchView>::empty());
        if self.stopping {
            self.phase = Phase::Stopped;
            Action::Halt
        } else {
            self.phase = Phase::Sleeping;
            Action::Sleep(self.interval)
        }
    }

    fn advance(&mut self) -> (a: Action)
        requires
            old(self)@.pos < old(self)@.watches.len(),
        ensures
            (final(self)@, a@) == advance(old(self)@),
    {
        if self.pos < self.watches.len() - 1 {
            self.pos = self.pos + 1;
            self.phase = Phase::Probing;
            Action::Probe(self.watches[self.pos].url.clone())
        } else {
            self.end_cycle()
        }
    }

    /// Takes the event the environment reports and returns the next action,
    /// as `next` describes.
    pub fn step(&mut self, e: Event) -> (a: Action)
        requires
            old(self).wf(),
        ensures
            final(self).wf(),
            (final(self)@, a@) == next(old(self)@, e@),
    {
        match (self.phase, e) {
            (Phase::Stopped, _) => Action::Halt,
            (Phase::Idle, Event::Start) => {
                self.phase = Phase::Loading;
                Action::Load
            },
            (Phase::Idle, Event::Stop) => {
                self.phase = Phase::Stopped;
                Action::Halt
            },
            (Phase::Sleeping, Event::Woke) => {
                self.phase = Phase::Loading;
                Action::Load
            },
            (Phase::Sleeping, Event::Stop) => {
                self.phase = Phase::Stopped;
                Action::Halt
            },
            (Phase::Loading, Event::Loaded(ws)) => {
                if ws.len() == 0 {
                    self.end_cycle()
                } else {
                    let u = ws[0].url.clone();
                    self.watches = ws;
                    self.pos = 0;
                    self.phase = Phase::Probing;
                    Action::Probe(u)
                }
            },
            (Phase::Loading, Event::LoadFailed) => self.end_cycle(),
            (Phase::Probing, Event::Probed(o)) => {
                let w = &self.watches[self.pos];
                if should_notify(w.status, o) {
                    let owner = w.owner;
                    let text = notice_text(w);
                    self.phase = Phase::Notifying;
                    Action::Notify(owner, text)
                } else {
                    self.advance()
                }
            },
            (Phase::Notifying, Event::Delivered(_)) => self.advance(),
            (_, Event::Stop) => {
                self.stopping = true;
                Action::Wait
            },
            _ => Action::Wait,
        }
    }
}

/// Whether a transition moved past the current watch: on to the next one,
/// or to the end of the cycle after the last one.
pub open spec fn moved_past(s: MonitorView, t: MonitorView) -> bool {
    if s.pos + 1 < s.watches.len() {
        t.phase == Phase::Probing && t.pos == s.pos + 1 && t.watches == s.watches
    } else {
        t.phase == Phase::Sleeping || (t.phase == Phase::Stopped && s.stopping)
    }
}

/// Within a cycle, each watch gets exactly one notification when its probe
/// outcome matches the status it asks for (up and reachable, or down and
/// not reachable) and none otherwise: the probe leads either to one
/// `Notify` to the watch's owner, after whose delivery report (successful
/// or not) the monitor moves past the watch, or directly past the watch.
pub proof fn law_one_notice_per_match(s: MonitorView, o: ProbeOutcome, delivered: bool)
    requires
        monitor_wf(s),
        s.phase == Phase::Probing,
    ensures
        notify_due(Status::Up, ProbeOutcome::Reachable),
        !notify_due(Status::Up, ProbeOutcome::Unreachable),
        notify_due(Status::Down, ProbeOutcome::Unreachable),
        !notify_due(Status::Down, ProbeOutcome::Reachable),
        ({
            let w = s.watches[s.pos];
            let (t, a) = next(s, EventView::Probed(o));
            if notify_due(w.status, o) {
                &&& a == ActionView::Notify(w.owner, notice_words(w))
                &&& t.phase == Phase::Notifying
                &&& t.pos == s.pos
                &&& !(next(t, EventView::Delivered(delivered)).1 is Notify)
                &&& moved_past(s, next(t, EventView::Delivered(delivered)).0)
            } else {
                &&& !(a is Notify)
                &&& moved_past(s, t)
            }
        }),
{
}

/// A probe that timed out is classified as unreachable, and that outcome
/// carries the cycle on: to the watch's notification, or past the watch.
pub proof fn law_timeout_continues_cycle(s: MonitorView)
    requires
        monitor_wf(s),
        s.phase == Phase::Probing,
    ensures
        classified(Err(ProbeFailure::TimedOut)) == ProbeOutcome::Unreachable,
        ({
            let (t, a) = next(s, EventView::Probed(ProbeOutcome::Unreachable));
            (t.phase == Phase::Notifying && t.pos == s.pos) || moved_past(s, t)
        }),
{
}

} // verus!
