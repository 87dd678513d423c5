//! Line classifier for the Monospace text protocol.
//!
//! One command per line, `\n`-terminated (trailing `\r` is tolerated on read).
//! Every command gets exactly one response line (`OK`, `OK <mbar>`, or
//! `ERR <reason>`) except for two kinds of unsolicited line: `PRESS <mbar>`
//! telemetry while streaming is active, and `EVENT ...` lines.
use vstd::prelude::*;
use crate::ligature::protocol::FiniteNumbers;
use crate::text::{chars_are, chars_of, has_prefix, starts_with, string_of};

verus! {

broadcast use vstd::string::group_string_axioms;

/// Largest command the firmware buffers, in bytes.
pub const MAX_COMMAND_BYTES: usize = 39;

/// An unsolicited `EVENT` payload.
#[derive(Clone, Debug, PartialEq, Eq)]
pub enum EventKind {
    /// The debounced physical button was pressed.
    ButtonPressed,
    /// Any other event text.
    Unknown(String),
}

/// Why an outbound line is not one uppercase command.
#[derive(Clone, Copy, Debug, PartialEq, Eq, Structural)]
pub enum InvalidCommandLine {
    /// The line holds CR, LF or NUL.
    ControlByte,
    /// The line holds a lowercase character.
    Lowercase,
    /// The line is longer than the firmware buffer.
    TooLong,
}

/// Rust's `char::is_lowercase`: the Unicode `Lowercase` property.
pub uninterp spec fn is_lowercase_char(c: char) -> bool;

/// `char::is_lowercase`, the Unicode `Lowercase` derived property.
#[verifier::external_body]
fn char_is_lowercase(c: char) -> (b: bool)
    ensures
        b == is_lowercase_char(c),
{
    c.is_lowercase()
}

/// Whether a character is CR, LF or NUL.
pub open spec fn is_control(c: char) -> bool {
    c == '\r' || c == '\n' || c == '\0'
}

/// Which outbound lines may be written: no CR, LF or NUL, no lowercase
/// character, and at most [`MAX_COMMAND_BYTES`] UTF-8 bytes.
pub open spec fn spec_validate_command_line(chars: Seq<char>, byte_len: nat) -> Result<(), InvalidCommandLine> {
    if exists|i: int| 0 <= i < chars.len() && is_control(#[trigger] chars[i]) {
        Err(InvalidCommandLine::ControlByte)
    } else if exists|i: int| 0 <= i < chars.len() && is_lowercase_char(#[trigger] chars[i]) {
        Err(InvalidCommandLine::Lowercase)
    } else if byte_len > MAX_COMMAND_BYTES {
        Err(InvalidCommandLine::TooLong)
    } else {
        Ok(())
    }
}

/// Checks that an outbound line is one uppercase command.
pub fn validate_command_line(line: &str) -> (r: Result<(), InvalidCommandLine>)
    ensures
        r == spec_validate_command_line(line@, line.len() as nat),
{
    let chars = chars_of(line);
    let mut i: usize = 0;
    while i < chars.len()
        invariant
            chars@ == line@,
            i <= chars@.len(),
            forall|j: int| 0 <= j < i ==> !is_control(#[trigger] chars@[j]),
        decreases chars@.len() - i,
    {
        let c = chars[i];
        if c == '\r' || c == '\n' || c == '\0' {
            assert(is_control(chars@[i as int]));
            return Err(InvalidCommandLine::ControlByte);
        }
        i = i + 1;
    }
    let mut k: usize = 0;
    while k < chars.len()
        invariant
            chars@ == line@,
            k <= chars@.len(),
            forall|j: int| 0 <= j < chars@.len() ==> !is_control(#[trigger] chars@[j]),
            forall|j: int| 0 <= j < k ==> !is_lowercase_char(#[trigger] chars@[j]),
        decreases chars@.len() - k,
    {
        if char_is_lowercase(chars[k]) {
            assert(is_lowercase_char(chars@[k as int]));
            return Err(InvalidCommandLine::Lowercase);
        }
        k = k + 1;
    }
    if line.len() > MAX_COMMAND_BYTES {
        return Err(InvalidCommandLine::TooLong);
    }
    Ok(())
}

/// One classified Monospace line.
#[derive(Clone, Debug, PartialEq, Eq)]
pub enum LineKind {
    /// Bare `OK`.
    Okay,
    /// `OK <mbar>`, the reply to `PRESS?`, with the finite pressure text.
    OkPress(String),
    /// `ERR <reason>`.
    Error(String),
    /// Unsolicited `PRESS <mbar>` during streaming, with the finite pressure text.
    Telemetry(String),
    /// Unsolicited `EVENT ...`; never a command reply.
    Event(EventKind),
    /// Anything that does not match one of the shapes above.
    Malformed(String),
}

/// Model of [`LineKind`].
pub enum LineKindView {
    Okay,
    OkPress(Seq<char>),
    Error(Seq<char>),
    Telemetry(Seq<char>),
    ButtonPressed,
    UnknownEvent(Seq<char>),
    Malformed(Seq<char>),
}

impl View for LineKind {
    type V = LineKindView;

    open spec fn view(&self) -> LineKindView {
        match self {
            LineKind::Okay => LineKindView::Okay,
            LineKind::OkPress(s) => LineKindView::OkPress(s@),
            LineKind::Error(s) => LineKindView::Error(s@),
            LineKind::Telemetry(s) => LineKindView::Telemetry(s@),
            LineKind::Event(EventKind::ButtonPressed) => LineKindView::ButtonPressed,
            LineKind::Event(EventKind::Unknown(s)) => LineKindView::UnknownEvent(s@),
            LineKind::Malformed(s) => LineKindView::Malformed(s@),
        }
    }
}

/// A line with every trailing carriage return removed.
pub open spec fn trim_cr(s: Seq<char>) -> Seq<char>
    decreases s.len(),
{
    if s.len() > 0 && s.last() == '\r' {
        trim_cr(s.drop_last())
    } else {
        s
    }
}

/// The classification of one line; `nums` lists the texts that read as finite numbers.
pub open spec fn spec_classify_line(line: Seq<char>, nums: Set<Seq<char>>) -> LineKindView {
    let l = trim_cr(line);
    if has_prefix(l, "PRESS "@) {
        let rest = l.skip(6);
        if nums.contains(rest) {
            LineKindView::Telemetry(rest)
        } else {
            LineKindView::Malformed(l)
        }
    } else if has_prefix(l, "EVENT "@) {
        let rest = l.skip(6);
        if rest == "BUTTON PRESSED"@ {
            LineKindView::ButtonPressed
        } else {
            LineKindView::UnknownEvent(rest)
        }
    } else if has_prefix(l, "OK "@) {
        let rest = l.skip(3);
        if nums.contains(rest) {
            LineKindView::OkPress(rest)
        } else {
            LineKindView::Malformed(l)
        }
    } else if l == "OK"@ {
        LineKindView::Okay
    } else if has_prefix(l, "ERR "@) {
        LineKindView::Error(l.skip(4))
    } else {
        LineKindView::Malformed(l)
    }
}

fn trim_cr_exec(s: &[char]) -> (r: Vec<char>)
    ensures
        r@ == trim_cr(s@),
{
    let mut n: usize = s.len();
    assert(s@.take(n as int) =~= s@);
    while n > 0 && s[n - 1] == '\r'
        invariant
            n <= s@.len(),
            trim_cr(s@.take(n as int)) == trim_cr(s@),
        decreases n,
    {
        assert(s@.take(n as int).drop_last() =~= s@.take(n - 1));
        n = n - 1;
    }
    assert(s@.take(n as int) =~= s@.subrange(0, n as int));
    let mut r: Vec<char> = Vec::new();
    let mut i: usize = 0;
    while i < n
        invariant
            n <= s@.len(),
            i <= n,
            r@ == s@.take(i as int),
        decreases n - i,
    {
        r.push(s[i]);
        i = i + 1;
        assert(r@ =~= s@.take(i as int));
    }
    r
}

fn skip_chars(s: &[char], k: usize) -> (r: Vec<char>)
    requires
        k <= s@.len(),
    ensures
        r@ == s@.skip(k as int),
{
    let mut r: Vec<char> = Vec::new();
    let mut i: usize = k;
    while i < s.len()
        invariant
            k <= i <= s@.len(),
            r@ == s@.subrange(k as int, i as int),
        decreases s@.len() - i,
    {
        r.push(s[i]);
        i = i + 1;
        assert(r@ =~= s@.subrange(k as int, i as int));
    }
    assert(r@ =~= s@.skip(k as int));
    r
}

/// Classifies one received line; real-number payloads are accepted exactly
/// when `numbers` lists their text.
pub fn classify_line(line: &str, numbers: &FiniteNumbers) -> (r: LineKind)
    ensures
        r@ == spec_classify_line(line@, numbers@),
{
    proof {
        reveal_strlit("PRESS ");
        reveal_strlit("EVENT ");
        reveal_strlit("OK ");
        reveal_strlit("ERR ");
    }
    let all = chars_of(line);
    let l = trim_cr_exec(all.as_slice());
    if starts_with(l.as_slice(), "PRESS ") {
        let rest = skip_chars(l.as_slice(), 6);
        if numbers.holds(rest.as_slice()) {
            return LineKind::Telemetry(string_of(rest.as_slice()));
        }
        return LineKind::Malformed(string_of(l.as_slice()));
    }
    if starts_with(l.as_slice(), "EVENT ") {
        let rest = skip_chars(l.as_slice(), 6);
        if chars_are(rest.as_slice(), "BUTTON PRESSED") {
            return LineKind::Event(EventKind::ButtonPressed);
        }
        return LineKind::Event(EventKind::Unknown(string_of(rest.as_slice())));
    }
    if starts_with(l.as_slice(), "OK ") {
        let rest = skip_chars(l.as_slice(), 3);
        if numbers.holds(rest.as_slice()) {
            return LineKind::OkPress(string_of(rest.as_slice()));
        }
        return LineKind::Malformed(string_of(l.as_slice()));
    }
    if chars_are(l.as_slice(), "OK") {
        return LineKind::Okay;
    }
    if starts_with(l.as_slice(), "ERR ") {
        let rest = skip_chars(l.as_slice(), 4);
        return LineKind::Error(string_of(rest.as_slice()));
    }
    LineKind::Malformed(string_of(l.as_slice()))
}

} // verus!
