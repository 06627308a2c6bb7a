//! A bridge to a long-lived chess engine process that speaks a line-oriented
//! text protocol (UCI / UCCI style) over its standard input and output.
//!
//! The library holds the protocol and the bridge's decisions: how commands are
//! framed, how output lines are classified, how the terminal `bestmove` line is
//! parsed, and how the single pending move request, the event subscribers and
//! the process lifecycle evolve. The caller owns the actual process and pipes:
//! it performs the I/O that the bridge asks for and reports back what happened.

pub mod protocol;
pub mod bridge;
pub mod laws;

pub use protocol::{
    EngineMove, ParseError, WriteError, trim_line_end, starts_with, is_echo_line, is_bestmove_line,
    parse_best_move, frame_command, position_command, go_command,
};
pub use bridge::{
    XiangqiEngine, OutputEvent, StartError, MoveError, LineOutcome, DEFAULT_SAFETY_MARGIN_MS,
};
pub use laws::{
    framed, read_lines, joined, lemma_sends_arrive_in_order, lemma_failed_start_changes_nothing, lemma_sent_commands_read_back, lemma_timeout_frees_slot,
    lemma_stream_end_announced_once, lemma_echo_never_forwarded, lemma_restart_resets,
    lemma_second_request_refused, lemma_stop_announces_end_once,
};
