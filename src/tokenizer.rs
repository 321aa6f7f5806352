use vstd::prelude::*;

verus! {

/// Where the scanner stands between two characters of the input.
#[derive(PartialEq, Eq, Structural, Clone, Copy, Debug)]
pub enum QuoteMode {
    /// Outside any quote.
    Normal,
    /// Just after a backslash outside quotes.
    Escaping,
    /// Inside `'...'`.
    InSingleQuote,
    /// Inside `"..."`.
    InDoubleQuote,
    /// Just after a backslash inside `"..."`.
    DoubleQuoteEscape,
}

/// The failure of tokenization.
#[derive(PartialEq, Eq, Structural, Clone, Copy, Debug)]
pub enum TokenizeError {
    /// A quote was opened and never closed.
    UnterminatedQuote,
}

/// The scanner's state after a prefix of the input: the completed
/// arguments, the one being accumulated, whether that one has begun (an
/// empty quoted pair begins an argument), and the quoting mode.
pub struct ScanState {
    pub args: Seq<Seq<char>>,
    pub current: Seq<char>,
    pub started: bool,
    pub mode: QuoteMode,
}

/// Unicode white space, as `char::is_whitespace` documents it.
pub open spec fn is_blank(c: char) -> bool {
    let u = c as u32;
    (0x9 <= u <= 0xd) || u == 0x20 || u == 0x85 || u == 0xa0 || u == 0x1680 || (0x2000 <= u
        <= 0x200a) || u == 0x2028 || u == 0x2029 || u == 0x202f || u == 0x205f || u == 0x3000
}

/// The characters that a backslash escapes inside double quotes.
pub open spec fn is_double_quote_escapable(c: char) -> bool {
    c == '\\' || c == '$' || c == '`' || c == '"'
}

pub open spec fn initial_scan() -> ScanState {
    ScanState { args: Seq::empty(), current: Seq::empty(), started: false, mode: QuoteMode::Normal }
}

/// Appends `text` to the current argument, which has then begun, and
/// moves to `mode`.
pub open spec fn append(st: ScanState, text: Seq<char>, mode: QuoteMode) -> ScanState {
    ScanState { args: st.args, current: st.current + text, started: true, mode }
}

pub open spec fn with_mode(st: ScanState, mode: QuoteMode) -> ScanState {
    ScanState { args: st.args, current: st.current, started: st.started, mode }
}

/// Ends the current argument, if it has begun.
pub open spec fn flush(st: ScanState) -> ScanState {
    if st.started {
        ScanState {
            args: st.args.push(st.current),
            current: Seq::empty(),
            started: false,
            mode: st.mode,
        }
    } else {
        st
    }
}

/// One character of the scan.
pub open spec fn step(st: ScanState, c: char) -> ScanState {
    match st.mode {
        QuoteMode::Normal => {
            if c == '\\' {
                with_mode(st, QuoteMode::Escaping)
            } else if c == '\'' {
                append(st, Seq::empty(), QuoteMode::InSingleQuote)
            } else if c == '"' {
                append(st, Seq::empty(), QuoteMode::InDoubleQuote)
            } else if is_blank(c) {
                flush(st)
            } else {
                append(st, seq![c], QuoteMode::Normal)
            }
        },
        QuoteMode::Escaping => append(st, seq![c], QuoteMode::Normal),
        QuoteMode::InSingleQuote => {
            if c == '\'' {
                with_mode(st, QuoteMode::Normal)
            } else {
                append(st, seq![c], QuoteMode::InSingleQuote)
            }
        },
        QuoteMode::InDoubleQuote => {
            if c == '\\' {
                with_mode(st, QuoteMode::DoubleQuoteEscape)
            } else if c == '"' {
                with_mode(st, QuoteMode::Normal)
            } else {
                append(st, seq![c], QuoteMode::InDoubleQuote)
            }
        },
        QuoteMode::DoubleQuoteEscape => {
            if is_double_quote_escapable(c) {
                append(st, seq![c], QuoteMode::InDoubleQuote)
            } else {
                append(st, seq!['\\', c], QuoteMode::InDoubleQuote)
            }
        },
    }
}

/// The scan of `s` from the state `st`, left to right.
pub open spec fn scan_from(st: ScanState, s: Seq<char>) -> ScanState
    decreases s.len(),
{
    if s.len() == 0 {
        st
    } else {
        step(scan_from(st, s.drop_last()), s.last())
    }
}

pub open spec fn scan(s: Seq<char>) -> ScanState {
    scan_from(initial_scan(), s)
}

/// Whether the scan is inside a quote.
pub open spec fn in_quote(mode: QuoteMode) -> bool {
    mode == QuoteMode::InSingleQuote || mode == QuoteMode::InDoubleQuote || mode
        == QuoteMode::DoubleQuoteEscape
}

/// The arguments of a line: `None` when a quote is left open. A backslash
/// at the very end of the line escapes nothing and is dropped.
pub open spec fn tokenize(s: Seq<char>) -> Option<Seq<Seq<char>>> {
    let st = scan(s);
    if in_quote(st.mode) {
        None
    } else {
        Some(flush(st).args)
    }
}

/// `r` is the result of tokenizing `line`: the arguments where every
/// quote is closed, else the error.
pub open spec fn tokenized_as(line: Seq<char>, r: Result<Vec<String>, TokenizeError>) -> bool {
    match tokenize(line) {
        Some(args) => r matches Ok(v) && v.deep_view() == args,
        None => r == Err::<Vec<String>, TokenizeError>(TokenizeError::UnterminatedQuote),
    }
}

/// Relies on String::push: appends one character at the end.
#[verifier::external_body]
pub(crate) fn push_char(s: &mut String, c: char)
    ensures
        final(s)@ == old(s)@.push(c),
{
    s.push(c)
}

pub(crate) fn is_blank_char(c: char) -> (r: bool)
    ensures
        r == is_blank(c),
{
    let u = c as u32;
    (0x9 <= u && u <= 0xd) || u == 0x20 || u == 0x85 || u == 0xa0 || u == 0x1680 || (0x2000 <= u
        && u <= 0x200a) || u == 0x2028 || u == 0x2029 || u == 0x202f || u == 0x205f || u == 0x3000
}

/// Splits a line into arguments under single quotes, double quotes and
/// backslash escapes; fails when a quote is never closed.
pub fn parse_args(input: &str) -> (r: Result<Vec<String>, TokenizeError>)
    ensures
        tokenized_as(input@, r),
{
    let mut args: Vec<String> = Vec::new();
    let mut current = String::new();
    let mut started = false;
    let mut mode = QuoteMode::Normal;
    assert(args.deep_view() =~= Seq::empty());
    assert(input@.take(0) =~= Seq::empty());
    for c in it: input.chars()
        invariant
            it.seq() == input@,
            in_quote(mode) ==> started,
            (ScanState { args: args.deep_view(), current: current@, started, mode }) == scan(
                input@.take(it.index() as int),
            ),
    {
        let ghost pre = input@.take(it.index() as int);
        let ghost next = step(scan(pre), c);
        let ghost idx = it.index();
        proof {
            let post = input@.take(idx + 1);
            assert(post.drop_last() =~= pre);
            assert(post.last() == c);
            assert(scan(post) == next);
        }
        match mode {
            QuoteMode::Normal => {
                if c == '\\' {
                    mode = QuoteMode::Escaping;
                } else if c == '\'' {
                    started = true;
                    mode = QuoteMode::InSingleQuote;
                } else if c == '"' {
                    started = true;
                    mode = QuoteMode::InDoubleQuote;
                } else if is_blank_char(c) {
                    if started {
                        let ghost old_args = args.deep_view();
                        args.push(current);
                        current = String::new();
                        started = false;
                        assert(args.deep_view() =~= old_args.push(args@.last()@));
                    }
                } else {
                    push_char(&mut current, c);
                    started = true;
                }
            },
            QuoteMode::Escaping => {
                push_char(&mut current, c);
                started = true;
                mode = QuoteMode::Normal;
            },
            QuoteMode::InSingleQuote => {
                if c == '\'' {
                    mode = QuoteMode::Normal;
                } else {
                    push_char(&mut current, c);
                }
            },
            QuoteMode::InDoubleQuote => {
                if c == '\\' {
                    mode = QuoteMode::DoubleQuoteEscape;
                } else if c == '"' {
                    mode = QuoteMode::Normal;
                } else {
                    push_char(&mut current, c);
                }
            },
            QuoteMode::DoubleQuoteEscape => {
                if !(c == '\\' || c == '$' || c == '`' || c == '"') {
                    push_char(&mut current, '\\');
                }
                push_char(&mut current, c);
                mode = QuoteMode::InDoubleQuote;
            },
        }
        assert(current@ =~= next.current);
        assert(args.deep_view() =~= next.args);
        assert(started == next.started);
        assert(mode == next.mode);
    }
    proof {
        assert(input@.take(input@.len() as int) == input@);
    }
    if mode == QuoteMode::InSingleQuote || mode == QuoteMode::InDoubleQuote || mode
        == QuoteMode::DoubleQuoteEscape {
        return Err(TokenizeError::UnterminatedQuote);
    }
    if started {
        let ghost old_args = args.deep_view();
        args.push(current);
        assert(args.deep_view() =~= old_args.push(args@.last()@));
    }
    Ok(args)
}

} // verus!
