//! Properties that span several calls of the bridge, proved from the
//! transition predicates that each operation's contract states.
use vstd::prelude::*;
use crate::protocol::{has_line_break, is_prefix_of, echo_marker, trimmed_end, decimal};
use crate::bridge::{
    XiangqiEngine, OutputEvent, MoveError, LineOutcome, StartError, start_post, stop_post, request_post,
    tick_post, line_post, stream_closed_post, published, deadline_after,
};

verus! {

/// The bytes that `send` hands out for each of `cmds`, written in call order.
pub open spec fn framed(cmds: Seq<Seq<char>>) -> Seq<char>
    decreases cmds.len(),
{
    if cmds.len() == 0 {
        Seq::empty()
    } else {
        cmds[0].push('\n') + framed(cmds.drop_first())
    }
}

/// The complete lines of `s`, read by a receiver that has collected `cur` of
/// the current line so far. An unterminated tail is not a line yet.
pub open spec fn read_lines(s: Seq<char>, cur: Seq<char>) -> Seq<Seq<char>>
    decreases s.len(),
{
    if s.len() == 0 {
        Seq::empty()
    } else if s[0] == '\n' {
        seq![cur] + read_lines(s.drop_first(), Seq::empty())
    } else {
        read_lines(s.drop_first(), cur.push(s[0]))
    }
}

proof fn lemma_read_one_line(c: Seq<char>, rest: Seq<char>, cur: Seq<char>)
    requires
        !has_line_break(c),
    ensures
        read_lines(c.push('\n') + rest, cur) == seq![cur + c] + read_lines(rest, Seq::empty()),
    decreases c.len(),
{
    let s = c.push('\n') + rest;
    if c.len() == 0 {
        assert(s[0] == '\n');
        assert(s.drop_first() =~= rest);
        assert(cur + c =~= cur);
    } else {
        assert(c[0] != '\n');
        assert(s[0] == c[0]);
        let c2 = c.drop_first();
        assert(!has_line_break(c2)) by {
            if has_line_break(c2) {
                let i = choose|i: int| 0 <= i < c2.len() && c2[i] == '\n';
                assert(c[i + 1] == c2[i]);
            }
        }
        assert(s.drop_first() =~= c2.push('\n') + rest);
        lemma_read_one_line(c2, rest, cur.push(c[0]));
        assert(cur.push(c[0]) + c2 =~= cur + c);
    }
}

/// Commands sent one after another reach the engine as the same commands, in
/// the same order, one per line: reading the written bytes line by line
/// gives back exactly the sequence of commands.
pub proof fn lemma_sent_commands_read_back(cmds: Seq<Seq<char>>)
    requires
        forall|i: int| 0 <= i < cmds.len() ==> !has_line_break(#[trigger] cmds[i]),
    ensures
        read_lines(framed(cmds), Seq::empty()) == cmds,
    decreases cmds.len(),
{
    if cmds.len() > 0 {
        let tail = cmds.drop_first();
        assert(forall|i: int| 0 <= i < tail.len() ==> tail[i] == cmds[i + 1]);
        lemma_sent_commands_read_back(tail);
        lemma_read_one_line(cmds[0], framed(tail), Seq::empty());
        assert(Seq::<char>::empty() + cmds[0] =~= cmds[0]);
        assert(seq![cmds[0]] + tail =~= cmds);
    }
}

/// The bytes of `sent`, one string after another.
pub open spec fn joined(sent: Seq<String>) -> Seq<char>
    decreases sent.len(),
{
    if sent.len() == 0 {
        Seq::empty()
    } else {
        sent[0]@ + joined(sent.drop_first())
    }
}

/// Successive `send` calls deliver their commands in call order: when each
/// result is what `send` hands out for its command (the command and a line
/// feed), writing the results one after another gives exactly the framed
/// commands, and reading that stream line by line gives the commands back.
pub proof fn lemma_sends_arrive_in_order(cmds: Seq<Seq<char>>, sent: Seq<String>)
    requires
        sent.len() == cmds.len(),
        forall|i: int| 0 <= i < cmds.len() ==> !has_line_break(#[trigger] cmds[i]),
        forall|i: int| 0 <= i < cmds.len() ==> #[trigger] sent[i]@ == cmds[i].push('\n'),
    ensures
        joined(sent) == framed(cmds),
        read_lines(joined(sent), Seq::empty()) == cmds,
    decreases cmds.len(),
{
    if cmds.len() > 0 {
        let t = cmds.drop_first();
        let u = sent.drop_first();
        assert(forall|i: int| 0 <= i < t.len() ==> t[i] == cmds[i + 1] && u[i] == sent[i + 1]);
        lemma_sends_arrive_in_order(t, u);
        assert(sent[0]@ == cmds[0].push('\n'));
    }
    lemma_sent_commands_read_back(cmds);
}

/// A start whose spawn failed returns that failure and leaves the bridge as
/// it was: unstarted, with every subscriber queue untouched and no event
/// queued.
pub proof fn lemma_failed_start_changes_nothing(
    a: XiangqiEngine,
    b: XiangqiEngine,
    spawned: Result<(), StartError>,
    r: Result<(), StartError>,
)
    requires
        a.wf(),
        !a.is_running(),
        spawned is Err,
        start_post(a, b, spawned, r),
    ensures
        r == spawned,
        b == a,
        !b.is_running(),
        b.queues() == a.queues(),
        b.pending() is None,
{
}

/// A request that timed out frees the slot: the next request on the same
/// live engine is accepted.
pub proof fn lemma_timeout_frees_slot(
    a: XiangqiEngine,
    b: XiangqiEngine,
    c: XiangqiEngine,
    now_ms: u64,
    fen: Seq<char>,
    time_limit_ms: u64,
    later_ms: u64,
    r: Result<Vec<String>, MoveError>,
)
    requires
        a.is_running(),
        !a.has_ended(),
        tick_post(a, b, now_ms, Some(MoveError::Timeout)),
        request_post(b, c, fen, time_limit_ms, later_ms, r),
        !has_line_break(fen),
    ensures
        r is Ok,
        c.pending() == Some((fen, deadline_after(later_ms, time_limit_ms, a.margin()))),
{
}

/// The end of the engine's output is announced once: each subscriber queue
/// gets exactly one `StreamEnded`, as its last event, a pending request fails
/// with `EngineTerminated`, and reporting the end again changes nothing.
pub proof fn lemma_stream_end_announced_once(
    a: XiangqiEngine,
    b: XiangqiEngine,
    c: XiangqiEngine,
    r1: LineOutcome,
    r2: LineOutcome,
)
    requires
        a.wf(),
        a.is_running(),
        !a.has_ended(),
        stream_closed_post(a, b, OutputEvent::StreamEnded, r1),
        stream_closed_post(b, c, OutputEvent::StreamEnded, r2),
    ensures
        c == b,
        r2 is Ignored,
        c.queues() == published(a.queues(), a.capacities(), OutputEvent::StreamEnded),
        forall|i: int|
            0 <= i < c.queues().len() ==> #[trigger] c.queues()[i].len() >= 1 && c.queues()[i].last()
                == OutputEvent::StreamEnded,
        a.pending() is Some ==> (r1 matches LineOutcome::Resolved(Err(MoveError::EngineTerminated))),
        c.pending() is None,
{
}

/// Stopping a live engine announces the end of its output once: each
/// subscriber queue gets one `StreamEnded` as its last event, and the
/// reader's later report of that end changes nothing.
pub proof fn lemma_stop_announces_end_once(
    a: XiangqiEngine,
    b: XiangqiEngine,
    c: XiangqiEngine,
    killed: bool,
    r: LineOutcome,
)
    requires
        a.wf(),
        a.is_running(),
        !a.has_ended(),
        stop_post(a, b, killed),
        stream_closed_post(b, c, OutputEvent::StreamEnded, r),
    ensures
        killed,
        c == b,
        r is Ignored,
        c.queues() == published(a.queues(), a.capacities(), OutputEvent::StreamEnded),
        forall|i: int|
            0 <= i < c.queues().len() ==> #[trigger] c.queues()[i].len() >= 1 && c.queues()[i].last()
                == OutputEvent::StreamEnded,
{
}

/// A move request made while another is outstanding fails at once with
/// `AlreadyPending`: nothing is handed out to write, and the bridge is left
/// as it was.
pub proof fn lemma_second_request_refused(
    a: XiangqiEngine,
    b: XiangqiEngine,
    fen: Seq<char>,
    time_limit_ms: u64,
    now_ms: u64,
    r: Result<Vec<String>, MoveError>,
)
    requires
        a.wf(),
        a.is_running(),
        a.pending() is Some,
        request_post(a, b, fen, time_limit_ms, now_ms, r),
    ensures
        r == Err::<Vec<String>, MoveError>(MoveError::AlreadyPending),
        b == a,
{
}

/// An echo of a command is never published and never settles a request.
pub proof fn lemma_echo_never_forwarded(a: XiangqiEngine, b: XiangqiEngine, raw: Seq<char>, r: LineOutcome)
    requires
        line_post(a, b, raw, r),
        is_prefix_of(echo_marker(), trimmed_end(raw)),
    ensures
        r is Ignored,
        b == a,
{
}

/// `stop` then `start` gives a fresh generation: running, no ended stream,
/// no pending request, every subscriber queue empty; and a request made then
/// is accepted just as the first request on a new bridge is.
pub proof fn lemma_restart_resets(
    a: XiangqiEngine,
    b: XiangqiEngine,
    c: XiangqiEngine,
    d: XiangqiEngine,
    killed: bool,
    started: Result<(), StartError>,
    fen: Seq<char>,
    time_limit_ms: u64,
    now_ms: u64,
    r: Result<Vec<String>, MoveError>,
)
    requires
        stop_post(a, b, killed),
        start_post(b, c, Ok(()), started),
        request_post(c, d, fen, time_limit_ms, now_ms, r),
        !has_line_break(fen),
    ensures
        started is Ok,
        c.margin() == a.margin(),
        c.path() == a.path(),
        c.is_running(),
        !c.has_ended(),
        c.pending() is None,
        forall|i: int| 0 <= i < c.queues().len() ==> #[trigger] c.queues()[i].len() == 0,
        r matches Ok(lines) && lines@.len() == 2 && lines@[0]@ == ("position fen "@ + fen).push('\n')
            && lines@[1]@ == ("go movetime "@ + decimal(time_limit_ms as nat)).push('\n'),
        d.pending() == Some((fen, deadline_after(now_ms, time_limit_ms, a.margin()))),
{
}

} // verus!
