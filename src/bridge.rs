//! The bridge's state machine: the process lifecycle, the single pending move
//! request, and the fan-out of output events to bounded subscriber queues.
//!
//! The caller owns the process. It asks the bridge what to do (`start`,
//! `send`, `request_move`, `stop`), performs that I/O, and hands back what the
//! engine produced (`on_line`, `on_stream_end`, `on_read_error`) and the
//! passing of time (`on_tick`).
use vstd::prelude::*;
use crate::protocol::{
    EngineMove, ParseError, WriteError, bestmove_marker, decimal, echo_marker, frame_command,
    contains_line_break, line_of,
    go_command, has_line_break, has_move_code, is_bestmove_line, is_echo_line, is_prefix_of,
    parse_best_move, position_command, second_token, trim_line_end, trimmed_end,
};

verus! {

/// The margin that the bridge adds to an engine's time limit before it gives
/// up on a move request.
pub const DEFAULT_SAFETY_MARGIN_MS: u64 = 4000;

/// What subscribers receive, in the order the engine produced it.
#[derive(Debug)]
pub enum OutputEvent {
    /// A line of engine output that is neither an echo nor a consumed reply.
    Notification(String),
    /// Reading the engine's output failed; the stream is over.
    Error(String),
    /// The engine closed its output.
    StreamEnded,
}

impl OutputEvent {
    /// A copy of the event.
    pub fn duplicate(&self) -> (r: OutputEvent)
        ensures
            r == *self,
    {
        match self {
            OutputEvent::Notification(s) => OutputEvent::Notification(s.clone()),
            OutputEvent::Error(s) => OutputEvent::Error(s.clone()),
            OutputEvent::StreamEnded => OutputEvent::StreamEnded,
        }
    }
}

/// Why `start` refused.
#[derive(Debug)]
pub enum StartError {
    /// A process is already running on this bridge.
    AlreadyRunning,
    /// The executable does not exist.
    NotFound,
    /// The executable may not be run.
    PermissionDenied,
    /// The process or its pipes could not be set up; the text says why.
    SpawnFailed(String),
}

/// Why a move request failed.
#[derive(Debug, Clone, Copy, PartialEq, Eq, Structural)]
pub enum MoveError {
    /// No engine process is running.
    NotRunning,
    /// Another move request is still outstanding.
    AlreadyPending,
    /// The position holds a line break and cannot be sent as one command.
    InvalidPosition,
    /// No reply came before the deadline.
    Timeout,
    /// The engine's output ended before it replied.
    EngineTerminated,
    /// The reply could not be parsed.
    Parse(ParseError),
}

/// What became of one report handed to the bridge.
#[derive(Debug)]
pub enum LineOutcome {
    /// Nothing changed: an echo, or output while no live process is attached.
    Ignored,
    /// An event was queued for every subscriber.
    Published,
    /// The pending move request was settled.
    Resolved(Result<EngineMove, MoveError>),
}

struct PendingRequest {
    fen: String,
    deadline_ms: u64,
}

/// One engine connection.
pub struct XiangqiEngine {
    engine_path: String,
    safety_margin_ms: u64,
    running: bool,
    ended: bool,
    pending: Option<PendingRequest>,
    queues: Vec<Vec<OutputEvent>>,
    capacities: Vec<usize>,
}

/// `q` with `e` added at the back, its oldest event dropped when it is full.
pub open spec fn push_bounded(q: Seq<OutputEvent>, cap: usize, e: OutputEvent) -> Seq<OutputEvent> {
    if q.len() < cap {
        q.push(e)
    } else {
        q.subrange(1, q.len() as int).push(e)
    }
}

/// Every queue of `qs` after `e` is published to it.
pub open spec fn published(qs: Seq<Seq<OutputEvent>>, caps: Seq<usize>, e: OutputEvent) -> Seq<
    Seq<OutputEvent>,
> {
    Seq::new(qs.len(), |i: int| push_bounded(qs[i], caps[i], e))
}

/// Now plus the time limit plus the margin, held at `u64::MAX`.
pub open spec fn deadline_after(now: u64, limit: u64, margin: u64) -> u64 {
    if now + limit + margin <= u64::MAX {
        (now + limit + margin) as u64
    } else {
        u64::MAX
    }
}

/// What a settled move request yields for a terminal line.
pub open spec fn reply_result(line: Seq<char>, fen: Seq<char>, r: Result<EngineMove, MoveError>) -> bool {
    match r {
        Ok(m) => has_move_code(line) && m.from@ == second_token(line).subrange(0, 2) && m.to@
            == second_token(line).subrange(2, 4) && m.fen@ == fen,
        Err(e) => !has_move_code(line) && e == MoveError::Parse(ParseError::MalformedMove),
    }
}

/// The configuration that the lifecycle operations leave alone: the
/// executable, the safety margin and the subscriber queue bounds.
pub open spec fn same_setup(a: XiangqiEngine, b: XiangqiEngine) -> bool {
    &&& b.path() == a.path()
    &&& b.margin() == a.margin()
    &&& b.capacities() == a.capacities()
}

/// How `start(spawned)` moves the bridge from `a` to `b`, returning `r`.
pub open spec fn start_post(
    a: XiangqiEngine,
    b: XiangqiEngine,
    spawned: Result<(), StartError>,
    r: Result<(), StartError>,
) -> bool {
    &&& same_setup(a, b)
    &&& a.is_running() ==> (r matches Err(StartError::AlreadyRunning)) && b == a
    &&& !a.is_running() && spawned is Err ==> r == spawned && b == a
    &&& !a.is_running() && spawned is Ok ==> {
        &&& r is Ok
        &&& b.is_running()
        &&& !b.has_ended()
        &&& b.pending() is None
        &&& b.queues().len() == a.queues().len()
        &&& forall|i: int| 0 <= i < b.queues().len() ==> #[trigger] b.queues()[i].len() == 0
    }
}

/// How `stop` moves the bridge from `a` to `b`, returning `r`.
pub open spec fn stop_post(a: XiangqiEngine, b: XiangqiEngine, r: bool) -> bool {
    &&& same_setup(a, b)
    &&& r == a.is_running()
    &&& !b.is_running()
    &&& !b.has_ended()
    &&& b.pending() is None
    &&& b.queues() == if a.is_running() && !a.has_ended() {
        published(a.queues(), a.capacities(), OutputEvent::StreamEnded)
    } else {
        a.queues()
    }
    &&& !a.is_running() ==> b == a
}

/// How `request_move(fen, time_limit_ms, now_ms)` moves the bridge from `a`
/// to `b`, returning `r`.
pub open spec fn request_post(
    a: XiangqiEngine,
    b: XiangqiEngine,
    fen: Seq<char>,
    time_limit_ms: u64,
    now_ms: u64,
    r: Result<Vec<String>, MoveError>,
) -> bool {
    &&& same_setup(a, b)
    &&& b.is_running() == a.is_running()
    &&& b.has_ended() == a.has_ended()
    &&& b.queues() == a.queues()
    &&& r is Err ==> b == a
    &&& !a.is_running() ==> r == Err::<Vec<String>, MoveError>(MoveError::NotRunning)
    &&& a.is_running() && a.has_ended() ==> r == Err::<Vec<String>, MoveError>(MoveError::EngineTerminated)
    &&& a.is_running() && !a.has_ended() && a.pending() is Some ==> r == Err::<Vec<String>, MoveError>(MoveError::AlreadyPending)
    &&& a.is_running() && !a.has_ended() && a.pending() is None && has_line_break(fen) ==> r == Err::<Vec<String>, MoveError>(MoveError::InvalidPosition)
    &&& a.is_running() && !a.has_ended() && a.pending() is None && !has_line_break(fen) ==> r is Ok
    &&& r matches Ok(lines) ==> {
        &&& lines@.len() == 2
        &&& lines@[0]@ == ("position fen "@ + fen).push('\n')
        &&& lines@[1]@ == ("go movetime "@ + decimal(time_limit_ms as nat)).push('\n')
        &&& b.pending() == Some((fen, deadline_after(now_ms, time_limit_ms, a.margin())))
    }
}

/// The pending request of `a` has reached its deadline at `now_ms`.
pub open spec fn expired(a: XiangqiEngine, now_ms: u64) -> bool {
    a.pending() matches Some(p) && now_ms >= p.1
}

/// How `on_tick(now_ms)` moves the bridge from `a` to `b`, returning `r`.
pub open spec fn tick_post(a: XiangqiEngine, b: XiangqiEngine, now_ms: u64, r: Option<MoveError>) -> bool {
    &&& same_setup(a, b)
    &&& b.is_running() == a.is_running()
    &&& b.has_ended() == a.has_ended()
    &&& b.queues() == a.queues()
    &&& expired(a, now_ms) ==> r == Some(MoveError::Timeout) && b.pending() is None
    &&& !expired(a, now_ms) ==> r is None && b == a
}

/// How `on_line(raw)` moves the bridge from `a` to `b`, returning `r`.
pub open spec fn line_post(a: XiangqiEngine, b: XiangqiEngine, raw: Seq<char>, r: LineOutcome) -> bool {
    let line = trimmed_end(raw);
    let live = a.is_running() && !a.has_ended();
    let echo = is_prefix_of(echo_marker(), line);
    let reply = a.pending() is Some && is_prefix_of(bestmove_marker(), line);
    &&& same_setup(a, b)
    &&& b.is_running() == a.is_running()
    &&& b.has_ended() == a.has_ended()
    &&& !live || echo ==> (r is Ignored) && b == a
    &&& live && !echo && reply ==> {
        &&& r matches LineOutcome::Resolved(res) && reply_result(line, a.pending().unwrap().0, res)
        &&& b.pending() is None
        &&& b.queues() == a.queues()
    }
    &&& live && !echo && !reply ==> {
        &&& r is Published
        &&& b.pending() == a.pending()
        &&& exists|e: OutputEvent|
            #[trigger] is_notification_of(e, line) && b.queues() == published(a.queues(), a.capacities(), e)
    }
}

/// How the end of the output stream, announced to subscribers by `last`,
/// moves the bridge from `a` to `b`, returning `r`.
pub open spec fn stream_closed_post(a: XiangqiEngine, b: XiangqiEngine, last: OutputEvent, r: LineOutcome) -> bool {
    &&& !a.is_running() || a.has_ended() ==> (r is Ignored) && b == a
    &&& a.is_running() && !a.has_ended() ==> {
        &&& same_setup(a, b)
        &&& b.is_running()
        &&& b.has_ended()
        &&& b.pending() is None
        &&& b.queues() == published(a.queues(), a.capacities(), last)
        &&& a.pending() is Some ==> (r matches LineOutcome::Resolved(Err(MoveError::EngineTerminated)))
        &&& a.pending() is None ==> (r is Published)
    }
}

/// `e` is a notification that carries the text `t`.
pub open spec fn is_notification_of(e: OutputEvent, t: Seq<char>) -> bool {
    e matches OutputEvent::Notification(s) && s@ == t
}

impl XiangqiEngine {
    /// The executable this bridge runs.
    pub closed spec fn path(&self) -> Seq<char> {
        self.engine_path@
    }

    /// The time a request waits beyond the engine's own limit.
    pub closed spec fn margin(&self) -> u64 {
        self.safety_margin_ms
    }

    /// A process is attached.
    pub closed spec fn is_running(&self) -> bool {
        self.running
    }

    /// The attached process's output has ended; the bridge is inert until
    /// stopped and started again.
    pub closed spec fn has_ended(&self) -> bool {
        self.ended
    }

    /// The outstanding move request: its position and its deadline.
    pub closed spec fn pending(&self) -> Option<(Seq<char>, u64)> {
        match self.pending {
            Some(p) => Some((p.fen@, p.deadline_ms)),
            None => None,
        }
    }

    /// The events waiting in each subscriber's queue, oldest first.
    pub closed spec fn queues(&self) -> Seq<Seq<OutputEvent>> {
        self.queues@.map_values(|q: Vec<OutputEvent>| q@)
    }

    /// The bound of each subscriber's queue.
    pub closed spec fn capacities(&self) -> Seq<usize> {
        self.capacities@
    }

    /// The queues match their bounds, the margin is positive, and an
    /// unstarted bridge has neither an ended stream nor a pending request.
    pub open spec fn wf(&self) -> bool {
        &&& self.margin() > 0
        &&& self.queues().len() == self.capacities().len()
        &&& forall|i: int|
            0 <= i < self.capacities().len() ==> 1 <= #[trigger] self.capacities()[i]
                && self.queues()[i].len() <= self.capacities()[i]
        &&& !self.is_running() ==> !self.has_ended()
        &&& !self.is_running() ==> self.pending() is None
        &&& self.has_ended() ==> self.pending() is None
    }

    /// A bridge for the engine at `engine_path`, not started, with the
    /// default safety margin.
    pub fn new(engine_path: &str) -> (r: Self)
        ensures
            r.wf(),
            r.path() == engine_path@,
            r.margin() == DEFAULT_SAFETY_MARGIN_MS,
            !r.is_running(),
            !r.has_ended(),
            r.pending() is None,
            r.queues().len() == 0,
            r.capacities().len() == 0,
    {
        Self::with_safety_margin(engine_path, DEFAULT_SAFETY_MARGIN_MS)
    }

    /// A bridge that waits `safety_margin_ms` beyond an engine's own time
    /// limit before a move request times out.
    pub fn with_safety_margin(engine_path: &str, safety_margin_ms: u64) -> (r: Self)
        requires
            safety_margin_ms > 0,
        ensures
            r.wf(),
            r.path() == engine_path@,
            r.margin() == safety_margin_ms,
            !r.is_running(),
            !r.has_ended(),
            r.pending() is None,
            r.queues().len() == 0,
            r.capacities().len() == 0,
    {
        let r = XiangqiEngine {
            engine_path: String::from_str(engine_path),
            safety_margin_ms,
            running: false,
            ended: false,
            pending: None,
            queues: Vec::new(),
            capacities: Vec::new(),
        };
        assert(r.queues() =~= Seq::<Seq<OutputEvent>>::empty());
        r
    }

    /// The executable this bridge runs.
    pub fn engine_path(&self) -> (r: &str)
        ensures
            r@ == self.path(),
    {
        self.engine_path.as_str()
    }

    /// Queues `e` for every subscriber.
    fn publish(&mut self, e: OutputEvent)
        requires
            old(self).wf(),
        ensures
            final(self).wf(),
            final(self).queues() == published(old(self).queues(), old(self).capacities(), e),
            final(self).capacities() == old(self).capacities(),
            final(self).path() == old(self).path(),
            final(self).margin() == old(self).margin(),
            final(self).is_running() == old(self).is_running(),
            final(self).has_ended() == old(self).has_ended(),
            final(self).pending() == old(self).pending(),
    {
        let ghost q0 = self.queues();
        let n = self.queues.len();
        assert(forall|k: int| 0 <= k < n ==> #[trigger] self.queues@[k]@ == q0[k]);
        let mut i: usize = 0;
        while i < n
            invariant
                self.wf(),
                n == self.queues@.len(),
                i <= n,
                self.capacities() == old(self).capacities(),
                self.path() == old(self).path(),
                self.margin() == old(self).margin(),
                self.is_running() == old(self).is_running(),
                self.has_ended() == old(self).has_ended(),
                self.pending() == old(self).pending(),
                q0 == old(self).queues(),
                q0.len() == n,
                forall|k: int| 0 <= k < i ==> #[trigger] self.queues@[k]@ == push_bounded(q0[k], self.capacities@[k], e),
                forall|k: int| i <= k < n ==> #[trigger] self.queues@[k]@ == q0[k],
            decreases n - i,
        {
            let mut q: Vec<OutputEvent> = Vec::new();
            self.queues.set_and_swap(i, &mut q);
            let cap = self.capacities[i];
            let ghost before = q@;
            assert(before == q0[i as int]);
            if q.len() >= cap {
                q.remove(0);
            }
            q.push(e.duplicate());
            assert(q@ =~= push_bounded(before, cap, e));
            self.queues.set(i, q);
            i = i + 1;
        }
        assert(self.queues() =~= published(q0, self.capacities(), e));
    }

    /// Takes the outcome of spawning the executable. The caller spawns only
    /// while `running()` is false; a bridge that is already running refuses
    /// with `AlreadyRunning`. A failed spawn is returned as it is, and the
    /// bridge stays unstarted with its queues untouched. A successful one
    /// starts a fresh process generation: no pending request, no ended
    /// stream, and every subscriber queue emptied so that nothing of an
    /// earlier generation leaks into this one.
    pub fn start(&mut self, spawned: Result<(), StartError>) -> (r: Result<(), StartError>)
        requires
            old(self).wf(),
        ensures
            final(self).wf(),
            start_post(*old(self), *final(self), spawned, r),
    {
        if self.running {
            return Err(StartError::AlreadyRunning);
        }
        if let Err(e) = spawned {
            return Err(e);
        }
        let n = self.queues.len();
        let mut i: usize = 0;
        while i < n
            invariant
                self.wf(),
                !self.running,
                n == self.queues@.len(),
                i <= n,
                self.capacities() == old(self).capacities(),
                self.path() == old(self).path(),
                self.margin() == old(self).margin(),
                forall|k: int| 0 <= k < i ==> #[trigger] self.queues@[k]@.len() == 0,
            decreases n - i,
        {
            self.queues.set(i, Vec::new());
            i = i + 1;
        }
        self.running = true;
        self.ended = false;
        self.pending = None;
        Ok(())
    }

    /// Returns the bridge to its unstarted state. The result says whether a
    /// process was attached, which the caller then kills. Killing it ends its
    /// output, so a live stream is announced to every subscriber with one
    /// `StreamEnded` here; the reader's own report of that end then finds the
    /// bridge stopped and changes nothing, provided it comes before the next
    /// `start`: the bridge cannot tell one process from the next, so the
    /// caller waits for the old reader to finish before it starts again.
    /// Stopping a stopped bridge changes nothing.
    pub fn stop(&mut self) -> (r: bool)
        requires
            old(self).wf(),
        ensures
            final(self).wf(),
            stop_post(*old(self), *final(self), r),
    {
        let was_running = self.running;
        if self.running && !self.ended {
            self.publish(OutputEvent::StreamEnded);
        }
        self.running = false;
        self.ended = false;
        self.pending = None;
        was_running
    }

    /// The bytes to write to the engine for `command`: the command and a line
    /// ending. Fails when no process is running, when its output has ended,
    /// or when the command holds a line break.
    pub fn send(&self, command: &str) -> (r: Result<String, WriteError>)
        ensures
            !self.is_running() ==> r == Err::<String, WriteError>(WriteError::NotRunning),
            self.is_running() && self.has_ended() ==> r == Err::<String, WriteError>(WriteError::BrokenPipe),
            self.is_running() && !self.has_ended() ==> (r is Ok <==> !has_line_break(command@)),
            self.is_running() && !self.has_ended() && has_line_break(command@) ==> r == Err::<String, WriteError>(WriteError::InvalidCommand),
            r matches Ok(s) ==> s@ == command@.push('\n'),
    {
        if !self.running {
            return Err(WriteError::NotRunning);
        }
        if self.ended {
            return Err(WriteError::BrokenPipe);
        }
        frame_command(command)
    }

    /// Opens a move request for the position `fen`, searched for at most
    /// `time_limit_ms`, at time `now_ms`. On success the result holds the two
    /// lines to write to the engine, the position command and then the compute
    /// command, and the request waits until `deadline_after(now_ms,
    /// time_limit_ms, margin)`. A refused request leaves the bridge as it was.
    pub fn request_move(&mut self, fen: &str, time_limit_ms: u64, now_ms: u64) -> (r: Result<
        Vec<String>,
        MoveError,
    >)
        requires
            old(self).wf(),
        ensures
            final(self).wf(),
            request_post(*old(self), *final(self), fen@, time_limit_ms, now_ms, r),
    {
        if !self.running {
            return Err(MoveError::NotRunning);
        }
        if self.ended {
            return Err(MoveError::EngineTerminated);
        }
        if self.pending.is_some() {
            return Err(MoveError::AlreadyPending);
        }
        if contains_line_break(fen) {
            return Err(MoveError::InvalidPosition);
        }
        let margin = self.safety_margin_ms;
        let deadline_ms: u64 = if now_ms <= u64::MAX - time_limit_ms && now_ms + time_limit_ms <= u64::MAX - margin {
            now_ms + time_limit_ms + margin
        } else {
            u64::MAX
        };
        let position = position_command(fen);
        let go = go_command(time_limit_ms);
        let mut lines: Vec<String> = Vec::new();
        lines.push(line_of(position.as_str()));
        lines.push(line_of(go.as_str()));
        self.pending = Some(PendingRequest { fen: String::from_str(fen), deadline_ms });
        Ok(lines)
    }

    /// Gives up on the pending request once `now_ms` has reached its deadline:
    /// the slot is cleared and `Timeout` returned. Otherwise nothing changes.
    /// The engine's computation is left to finish; its reply then arrives as
    /// an ordinary notification.
    pub fn on_tick(&mut self, now_ms: u64) -> (r: Option<MoveError>)
        requires
            old(self).wf(),
        ensures
            final(self).wf(),
            tick_post(*old(self), *final(self), now_ms, r),
    {
        let expired = match &self.pending {
            Some(p) => now_ms >= p.deadline_ms,
            None => false,
        };
        if expired {
            self.pending = None;
            Some(MoveError::Timeout)
        } else {
            None
        }
    }

    /// Handles one line of engine output. The line is trimmed of its trailing
    /// whitespace. While no live process is attached, and for an echo of a
    /// command, nothing changes. A `bestmove` line settles a pending request
    /// with the move it names, or with a parse failure. Any other line is
    /// published to every subscriber as a notification.
    pub fn on_line(&mut self, raw: &str) -> (r: LineOutcome)
        requires
            old(self).wf(),
        ensures
            final(self).wf(),
            line_post(*old(self), *final(self), raw@, r),
    {
        if !self.running || self.ended {
            return LineOutcome::Ignored;
        }
        let line = trim_line_end(raw);
        if is_echo_line(line.as_str()) {
            return LineOutcome::Ignored;
        }
        if self.pending.is_some() && is_bestmove_line(line.as_str()) {
            let p = self.pending.take().unwrap();
            let res = match parse_best_move(line.as_str(), p.fen.as_str()) {
                Ok(m) => Ok(m),
                Err(e) => Err(MoveError::Parse(e)),
            };
            return LineOutcome::Resolved(res);
        }
        let e = OutputEvent::Notification(line);
        let ghost ev = e;
        assert(is_notification_of(ev, trimmed_end(raw@)));
        self.publish(e);
        LineOutcome::Published
    }

    /// Handles the end of the engine's output: subscribers get one
    /// `StreamEnded`, a pending request fails with `EngineTerminated`, and the
    /// bridge stays inert until stopped. Reported again, or while no process
    /// is attached, it changes nothing.
    pub fn on_stream_end(&mut self) -> (r: LineOutcome)
        requires
            old(self).wf(),
        ensures
            final(self).wf(),
            stream_closed_post(*old(self), *final(self), OutputEvent::StreamEnded, r),
    {
        self.finish_stream(OutputEvent::StreamEnded)
    }

    /// Handles a failure to read the engine's output: subscribers get one
    /// `Error` with the description, and the rest goes as for the end of the
    /// stream.
    pub fn on_read_error(&mut self, description: String) -> (r: LineOutcome)
        requires
            old(self).wf(),
        ensures
            final(self).wf(),
            stream_closed_post(*old(self), *final(self), OutputEvent::Error(description), r),
    {
        self.finish_stream(OutputEvent::Error(description))
    }

    fn finish_stream(&mut self, last: OutputEvent) -> (r: LineOutcome)
        requires
            old(self).wf(),
        ensures
            final(self).wf(),
            stream_closed_post(*old(self), *final(self), last, r),
    {
        if !self.running || self.ended {
            return LineOutcome::Ignored;
        }
        self.publish(last);
        let was_pending = self.pending.is_some();
        self.pending = None;
        self.ended = true;
        if was_pending {
            LineOutcome::Resolved(Err(MoveError::EngineTerminated))
        } else {
            LineOutcome::Published
        }
    }

    /// Adds a subscriber whose queue keeps at most `capacity` events (at least
    /// one), dropping the oldest when full. The result is its number.
    pub fn subscribe(&mut self, capacity: usize) -> (r: usize)
        requires
            old(self).wf(),
            old(self).queues().len() < usize::MAX,
        ensures
            final(self).wf(),
            r == old(self).queues().len(),
            final(self).queues() == old(self).queues().push(Seq::empty()),
            final(self).capacities() == old(self).capacities().push(if capacity == 0 { 1 } else { capacity }),
            final(self).path() == old(self).path(),
            final(self).margin() == old(self).margin(),
            final(self).is_running() == old(self).is_running(),
            final(self).has_ended() == old(self).has_ended(),
            final(self).pending() == old(self).pending(),
    {
        let id = self.queues.len();
        let cap = if capacity == 0 { 1 } else { capacity };
        self.queues.push(Vec::new());
        self.capacities.push(cap);
        assert(self.queues() =~= old(self).queues().push(Seq::empty()));
        id
    }

    /// Hands out the events queued for subscriber `id`, oldest first, and
    /// empties its queue. An unknown subscriber gets nothing.
    pub fn take_events(&mut self, id: usize) -> (r: Vec<OutputEvent>)
        requires
            old(self).wf(),
        ensures
            final(self).wf(),
            id < old(self).queues().len() ==> r@ == old(self).queues()[id as int] && final(self).queues()
                == old(self).queues().update(id as int, Seq::empty()),
            id >= old(self).queues().len() ==> r@.len() == 0 && final(self).queues() == old(self).queues(),
            final(self).capacities() == old(self).capacities(),
            final(self).path() == old(self).path(),
            final(self).margin() == old(self).margin(),
            final(self).is_running() == old(self).is_running(),
            final(self).has_ended() == old(self).has_ended(),
            final(self).pending() == old(self).pending(),
    {
        let mut q: Vec<OutputEvent> = Vec::new();
        if id < self.queues.len() {
            self.queues.set_and_swap(id, &mut q);
            assert(self.queues() =~= old(self).queues().update(id as int, Seq::empty()));
        }
        q
    }

    /// The time a request waits beyond the engine's own limit.
    pub fn safety_margin_ms(&self) -> (r: u64)
        ensures
            r == self.margin(),
    {
        self.safety_margin_ms
    }

    /// Whether a process is attached.
    pub fn running(&self) -> (r: bool)
        ensures
            r == self.is_running(),
    {
        self.running
    }

    /// Whether a move request is outstanding.
    pub fn has_pending_request(&self) -> (r: bool)
        ensures
            r == self.pending() is Some,
    {
        self.pending.is_some()
    }
}

} // verus!
