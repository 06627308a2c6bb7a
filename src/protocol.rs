//! The engine's line protocol: framing outbound commands, recognising the
//! kinds of inbound lines, and parsing the terminal `bestmove` record.
use vstd::prelude::*;

verus! {

/// The prefix with which the engine echoes a command it received.
pub open spec fn echo_marker() -> Seq<char> {
    "Received command:"@
}

/// The token that opens the terminal response of a compute command.
pub open spec fn bestmove_marker() -> Seq<char> {
    "bestmove"@
}

/// Whitespace that separates tokens and ends lines: the characters of
/// Unicode's White_Space property, as `char::is_whitespace` accepts them.
pub open spec fn is_space(c: char) -> bool {
    ('\u{9}' <= c && c <= '\u{d}') || c == ' ' || c == '\u{85}' || c == '\u{a0}'
        || c == '\u{1680}' || ('\u{2000}' <= c && c <= '\u{200a}') || c == '\u{2028}'
        || c == '\u{2029}' || c == '\u{202f}' || c == '\u{205f}' || c == '\u{3000}'
}

/// `s` begins with `p`.
pub open spec fn is_prefix_of(p: Seq<char>, s: Seq<char>) -> bool {
    p.len() <= s.len() && s.subrange(0, p.len() as int) == p
}

/// `s` with its trailing whitespace removed.
pub open spec fn trimmed_end(s: Seq<char>) -> Seq<char>
    decreases s.len(),
{
    if s.len() > 0 && is_space(s.last()) {
        trimmed_end(s.drop_last())
    } else {
        s
    }
}

/// The first index from `i` on that holds no whitespace (or the length).
pub open spec fn skip_spaces(s: Seq<char>, i: int) -> int
    decreases s.len() - i,
{
    if 0 <= i < s.len() && is_space(s[i]) {
        skip_spaces(s, i + 1)
    } else {
        i
    }
}

/// The first index from `i` on that holds whitespace (or the length).
pub open spec fn skip_word(s: Seq<char>, i: int) -> int
    decreases s.len() - i,
{
    if 0 <= i < s.len() && !is_space(s[i]) {
        skip_word(s, i + 1)
    } else {
        i
    }
}

/// Where the second whitespace-separated token of `s` starts.
pub open spec fn second_token_start(s: Seq<char>) -> int {
    skip_spaces(s, skip_word(s, skip_spaces(s, 0)))
}

/// The second whitespace-separated token of `s` (empty when there is none).
pub open spec fn second_token(s: Seq<char>) -> Seq<char> {
    s.subrange(second_token_start(s), skip_word(s, second_token_start(s)))
}

/// A terminal line carries a move when its second token has at least four
/// characters.
pub open spec fn has_move_code(s: Seq<char>) -> bool {
    second_token(s).len() >= 4
}

/// `s` holds a line feed, which would end a command early.
pub open spec fn has_line_break(s: Seq<char>) -> bool {
    exists|i: int| 0 <= i < s.len() && s[i] == '\n'
}

/// The decimal digit for `d` (below ten).
pub open spec fn digit_char(d: nat) -> char {
    "0123456789"@[d as int]
}

/// The decimal digits of `n`, most significant first.
pub open spec fn decimal(n: nat) -> Seq<char>
    decreases n,
{
    if n < 10 {
        seq![digit_char(n)]
    } else {
        decimal(n / 10).push(digit_char(n % 10))
    }
}

/// The move an engine chose, with the position it was asked about.
#[derive(Debug)]
pub struct EngineMove {
    /// The origin square, two characters in the engine's notation.
    pub from: String,
    /// The destination square, two characters in the engine's notation.
    pub to: String,
    /// The position (FEN) that the request was issued against.
    pub fen: String,
}

/// Why a terminal line did not parse.
#[derive(Debug, Clone, Copy, PartialEq, Eq, Structural)]
pub enum ParseError {
    /// Fewer than two tokens, or a move code shorter than four characters.
    MalformedMove,
}

/// Why a command could not be written.
#[derive(Debug, Clone, Copy, PartialEq, Eq, Structural)]
pub enum WriteError {
    /// No engine process is running.
    NotRunning,
    /// The pipe to the engine is closed.
    BrokenPipe,
    /// The command holds a line feed, which would split it in two.
    InvalidCommand,
}

fn is_space_char(c: char) -> (r: bool)
    ensures
        r == is_space(c),
{
    ('\u{9}' <= c && c <= '\u{d}') || c == ' ' || c == '\u{85}' || c == '\u{a0}'
        || c == '\u{1680}' || ('\u{2000}' <= c && c <= '\u{200a}') || c == '\u{2028}'
        || c == '\u{2029}' || c == '\u{202f}' || c == '\u{205f}' || c == '\u{3000}'
}

/// Whether `s` begins with `p`.
pub fn starts_with(s: &str, p: &str) -> (r: bool)
    ensures
        r == is_prefix_of(p@, s@),
{
    let n = s.unicode_len();
    let m = p.unicode_len();
    if m > n {
        return false;
    }
    let mut i: usize = 0;
    while i < m
        invariant
            m <= n,
            n == s@.len(),
            m == p@.len(),
            i <= m,
            s@.subrange(0, i as int) == p@.subrange(0, i as int),
        decreases m - i,
    {
        if s.get_char(i) != p.get_char(i) {
            assert(s@.subrange(0, m as int)[i as int] != p@[i as int]);
            return false;
        }
        assert(s@.subrange(0, i as int + 1) =~= s@.subrange(0, i as int).push(s@[i as int]));
        assert(p@.subrange(0, i as int + 1) =~= p@.subrange(0, i as int).push(p@[i as int]));
        i = i + 1;
    }
    assert(p@.subrange(0, m as int) =~= p@);
    true
}

proof fn lemma_trimmed_end_step(s: Seq<char>, j: int)
    requires
        0 < j <= s.len(),
    ensures
        is_space(s[j - 1]) ==> trimmed_end(s.subrange(0, j)) == trimmed_end(s.subrange(0, j - 1)),
        !is_space(s[j - 1]) ==> trimmed_end(s.subrange(0, j)) == s.subrange(0, j),
{
    assert(s.subrange(0, j).drop_last() =~= s.subrange(0, j - 1));
}

/// The line with its trailing whitespace (line ending included) removed.
pub fn trim_line_end(line: &str) -> (r: String)
    ensures
        r@ == trimmed_end(line@),
{
    let n = line.unicode_len();
    let mut j: usize = n;
    assert(line@.subrange(0, n as int) =~= line@);
    while j > 0 && is_space_char(line.get_char(j - 1))
        invariant
            j <= n,
            n == line@.len(),
            trimmed_end(line@.subrange(0, j as int)) == trimmed_end(line@),
        decreases j,
    {
        proof {
            lemma_trimmed_end_step(line@, j as int);
        }
        j = j - 1;
    }
    proof {
        if j > 0 {
            lemma_trimmed_end_step(line@, j as int);
        } else {
            assert(line@.subrange(0, 0).len() == 0);
        }
    }
    String::from_str(line.substring_char(0, j))
}

/// Whether the line is the engine's echo of a command it received.
pub fn is_echo_line(line: &str) -> (r: bool)
    ensures
        r == is_prefix_of(echo_marker(), line@),
{
    starts_with(line, "Received command:")
}

/// Whether the line is the terminal response of a compute command.
pub fn is_bestmove_line(line: &str) -> (r: bool)
    ensures
        r == is_prefix_of(bestmove_marker(), line@),
{
    starts_with(line, "bestmove")
}

fn skip_spaces_from(s: &str, n: usize, i: usize) -> (r: usize)
    requires
        n == s@.len(),
        i <= n,
    ensures
        r == skip_spaces(s@, i as int),
        i <= r <= n,
{
    let mut j: usize = i;
    while j < n && is_space_char(s.get_char(j))
        invariant
            i <= j <= n,
            n == s@.len(),
            skip_spaces(s@, i as int) == skip_spaces(s@, j as int),
        decreases n - j,
    {
        j = j + 1;
    }
    j
}

fn skip_word_from(s: &str, n: usize, i: usize) -> (r: usize)
    requires
        n == s@.len(),
        i <= n,
    ensures
        r == skip_word(s@, i as int),
        i <= r <= n,
{
    let mut j: usize = i;
    while j < n && !is_space_char(s.get_char(j))
        invariant
            i <= j <= n,
            n == s@.len(),
            skip_word(s@, i as int) == skip_word(s@, j as int),
        decreases n - j,
    {
        j = j + 1;
    }
    j
}

/// Parses a terminal line (`bestmove <code> ...`) into the move it names:
/// the first two characters of the second token are the origin square, the
/// next two the destination. Characters after the fourth are ignored.
pub fn parse_best_move(line: &str, fen: &str) -> (r: Result<EngineMove, ParseError>)
    ensures
        r is Ok <==> has_move_code(line@),
        r matches Ok(m) ==> m.from@ == second_token(line@).subrange(0, 2) && m.to@
            == second_token(line@).subrange(2, 4) && m.fen@ == fen@,
        r matches Err(e) ==> e == ParseError::MalformedMove,
{
    let n = line.unicode_len();
    let a = skip_spaces_from(line, n, 0);
    let b = skip_word_from(line, n, a);
    let c = skip_spaces_from(line, n, b);
    let d = skip_word_from(line, n, c);
    if d - c < 4 {
        return Err(ParseError::MalformedMove);
    }
    let code = line.substring_char(c, d);
    let from = String::from_str(code.substring_char(0, 2));
    let to = String::from_str(code.substring_char(2, 4));
    proof {
        assert(code@.subrange(0, 2) =~= second_token(line@).subrange(0, 2));
        assert(code@.subrange(2, 4) =~= second_token(line@).subrange(2, 4));
    }
    Ok(EngineMove { from, to, fen: String::from_str(fen) })
}

/// Whether the text holds a line feed.
pub fn contains_line_break(s: &str) -> (r: bool)
    ensures
        r == has_line_break(s@),
{
    let n = s.unicode_len();
    let mut i: usize = 0;
    while i < n
        invariant
            i <= n,
            n == s@.len(),
            forall|k: int| 0 <= k < i ==> s@[k] != '\n',
        decreases n - i,
    {
        if s.get_char(i) == '\n' {
            return true;
        }
        i = i + 1;
    }
    false
}

/// Frames one command for the engine: the command and a line ending. A
/// command that holds a line break is refused.
pub fn frame_command(command: &str) -> (r: Result<String, WriteError>)
    ensures
        r is Ok <==> !has_line_break(command@),
        r matches Ok(s) ==> s@ == command@.push('\n'),
        r matches Err(e) ==> e == WriteError::InvalidCommand,
{
    if contains_line_break(command) {
        return Err(WriteError::InvalidCommand);
    }
    Ok(line_of(command))
}

/// The text with a line feed appended.
pub fn line_of(s: &str) -> (r: String)
    ensures
        r@ == s@.push('\n'),
{
    let mut r = String::from_str(s);
    r.append("\n");
    proof {
        reveal_strlit("\n");
    }
    assert(r@ =~= s@.push('\n'));
    r
}

fn append_decimal(out: &mut String, n: u64)
    ensures
        final(out)@ == old(out)@ + decimal(n as nat),
    decreases n,
{
    let ghost before = out@;
    if n >= 10 {
        append_decimal(out, n / 10);
    }
    let d = (n % 10) as usize;
    let digits = "0123456789";
    proof {
        reveal_strlit("0123456789");
    }
    out.append(digits.substring_char(d, d + 1));
    proof {
        assert(digits@.subrange(d as int, d as int + 1) =~= seq![digit_char(d as nat)]);
        if n >= 10 {
            assert((n % 10) as nat == (n as nat) % 10);
        }
    }
    assert(out@ =~= before + decimal(n as nat));
}

/// The command that sets the engine's position: `position fen <fen>`.
pub fn position_command(fen: &str) -> (r: String)
    ensures
        r@ == "position fen "@ + fen@,
{
    let mut s = String::from_str("position fen ");
    s.append(fen);
    s
}

/// The command that starts a search bounded by `movetime_ms` milliseconds:
/// `go movetime <n>`.
pub fn go_command(movetime_ms: u64) -> (r: String)
    ensures
        r@ == "go movetime "@ + decimal(movetime_ms as nat),
{
    let mut s = String::from_str("go movetime ");
    append_decimal(&mut s, movetime_ms);
    s
}

} // verus!
