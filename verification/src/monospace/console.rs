//! The interactive diagnostic console's reading of one typed line.
//!
//! Case-insensitive input is a local convenience: the line is trimmed and
//! uppercased before it becomes a typed client call or a raw wire command.
use vstd::prelude::*;
use crate::text::{
    char_is_space, chars_are, chars_of, is_space, parse_unsigned, parse_unsigned_exec,
    seqs_view, split_words, string_of, words,
};
use super::client::Output;

verus! {

broadcast use vstd::string::group_string_axioms;

/// What `str::to_uppercase` gives: the Unicode uppercase mapping of every
/// character, which may lengthen the text.
pub uninterp spec fn uppercase(s: Seq<char>) -> Seq<char>;

/// `str::to_uppercase`.
#[verifier::external_body]
fn to_uppercase(s: &str) -> (r: String)
    ensures
        r@ == uppercase(s@),
{
    s.to_uppercase()
}

/// Number of leading whitespace characters.
pub open spec fn leading_spaces(s: Seq<char>) -> nat
    decreases s.len(),
{
    if s.len() > 0 && is_space(s[0]) {
        1 + leading_spaces(s.drop_first())
    } else {
        0
    }
}

/// Number of trailing whitespace characters.
pub open spec fn trailing_spaces(s: Seq<char>) -> nat
    decreases s.len(),
{
    if s.len() > 0 && is_space(s.last()) {
        1 + trailing_spaces(s.drop_last())
    } else {
        0
    }
}

/// A text without leading and trailing whitespace (`str::trim`).
pub open spec fn trimmed(s: Seq<char>) -> Seq<char> {
    let t = s.skip(leading_spaces(s) as int);
    t.take(t.len() - trailing_spaces(t))
}

proof fn lemma_leading_spaces(s: Seq<char>, k: int)
    requires
        0 <= k <= s.len(),
        forall|j: int| 0 <= j < k ==> is_space(#[trigger] s[j]),
        k == s.len() || !is_space(s[k]),
    ensures
        leading_spaces(s) == k,
    decreases k,
{
    if k > 0 {
        let d = s.drop_first();
        assert forall|j: int| 0 <= j < k - 1 implies is_space(#[trigger] d[j]) by {
            assert(d[j] == s[j + 1]);
        }
        if k < s.len() {
            assert(d[k - 1] == s[k]);
        }
        lemma_leading_spaces(d, k - 1);
    }
}

proof fn lemma_trailing_spaces(s: Seq<char>, k: int)
    requires
        0 <= k <= s.len(),
        forall|j: int| s.len() - k <= j < s.len() ==> is_space(#[trigger] s[j]),
        k == s.len() || !is_space(s[s.len() - k - 1]),
    ensures
        trailing_spaces(s) == k,
    decreases k,
{
    if k > 0 {
        let d = s.drop_last();
        assert forall|j: int| d.len() - (k - 1) <= j < d.len() implies is_space(#[trigger] d[j]) by {
            assert(d[j] == s[j]);
        }
        if k < s.len() {
            assert(d[d.len() - (k - 1) - 1] == s[s.len() - k - 1]);
        }
        lemma_trailing_spaces(d, k - 1);
    }
}

/// The characters of a line without leading and trailing whitespace.
fn trim_chars(s: &[char]) -> (r: Vec<char>)
    ensures
        r@ == trimmed(s@),
{
    let n = s.len();
    let mut start: usize = 0;
    while start < n && char_is_space(s[start])
        invariant
            n == s@.len(),
            start <= n,
            forall|j: int| 0 <= j < start ==> is_space(#[trigger] s@[j]),
        decreases n - start,
    {
        start = start + 1;
    }
    proof {
        lemma_leading_spaces(s@, start as int);
    }
    let ghost t = s@.skip(start as int);
    let mut end: usize = n;
    while end > start && char_is_space(s[end - 1])
        invariant
            n == s@.len(),
            start <= end <= n,
            t == s@.skip(start as int),
            forall|j: int| end <= j < n ==> is_space(#[trigger] s@[j]),
        decreases end,
    {
        end = end - 1;
    }
    proof {
        let k = n - end;
        assert forall|j: int| t.len() - k <= j < t.len() implies is_space(#[trigger] t[j]) by {
            assert(t[j] == s@[start + j]);
        }
        if k < t.len() {
            assert(t[t.len() - k - 1] == s@[end - 1]);
        }
        lemma_trailing_spaces(t, k);
    }
    let mut r: Vec<char> = Vec::new();
    let mut i: usize = start;
    while i < end
        invariant
            start <= i <= end <= n,
            n == s@.len(),
            r@ == s@.subrange(start as int, i as int),
        decreases end - i,
    {
        r.push(s[i]);
        i = i + 1;
        assert(r@ =~= s@.subrange(start as int, i as int));
    }
    assert(r@ =~= trimmed(s@));
    r
}

/// One typed console line, read for the diagnostic client.
#[derive(Clone, Debug, PartialEq, Eq)]
pub enum ConsoleCommand {
    /// A blank line.
    Nothing,
    /// `LED <r> <g> <b>`: the status-LED alias.
    Led(u8, u8, u8),
    /// `LED` with three words that are not all 0-255 values.
    LedUsage,
    /// Switch one output on or off.
    Switch(Output, bool),
    /// `ALL OFF`.
    AllOff,
    /// `PRESS?`.
    PressOnce,
    /// `PRESS START`.
    PressStart,
    /// `PRESS STOP`.
    PressStop,
    /// Anything else, written to the wire as typed (after uppercasing).
    Raw(String),
}

/// Model of [`ConsoleCommand`].
pub enum ConsoleView {
    Nothing,
    Led(u8, u8, u8),
    LedUsage,
    Switch(Output, bool),
    AllOff,
    PressOnce,
    PressStart,
    PressStop,
    Raw(Seq<char>),
}

impl View for ConsoleCommand {
    type V = ConsoleView;

    open spec fn view(&self) -> ConsoleView {
        match self {
            ConsoleCommand::Nothing => ConsoleView::Nothing,
            ConsoleCommand::Led(r, g, b) => ConsoleView::Led(*r, *g, *b),
            ConsoleCommand::LedUsage => ConsoleView::LedUsage,
            ConsoleCommand::Switch(o, on) => ConsoleView::Switch(*o, *on),
            ConsoleCommand::AllOff => ConsoleView::AllOff,
            ConsoleCommand::PressOnce => ConsoleView::PressOnce,
            ConsoleCommand::PressStart => ConsoleView::PressStart,
            ConsoleCommand::PressStop => ConsoleView::PressStop,
            ConsoleCommand::Raw(s) => ConsoleView::Raw(s@),
        }
    }
}

/// The named command spelled by an uppercased line, if any.
pub open spec fn named_command(cmd: Seq<char>) -> Option<ConsoleView> {
    if cmd == "VACUUM ON"@ {
        Some(ConsoleView::Switch(Output::Vacuum, true))
    } else if cmd == "VACUUM OFF"@ {
        Some(ConsoleView::Switch(Output::Vacuum, false))
    } else if cmd == "FAN ON"@ {
        Some(ConsoleView::Switch(Output::Fan, true))
    } else if cmd == "FAN OFF"@ {
        Some(ConsoleView::Switch(Output::Fan, false))
    } else if cmd == "BLOWER ON"@ {
        Some(ConsoleView::Switch(Output::Blower, true))
    } else if cmd == "BLOWER OFF"@ {
        Some(ConsoleView::Switch(Output::Blower, false))
    } else if cmd == "LIGHT ON"@ {
        Some(ConsoleView::Switch(Output::Light, true))
    } else if cmd == "LIGHT OFF"@ {
        Some(ConsoleView::Switch(Output::Light, false))
    } else if cmd == "ALL OFF"@ {
        Some(ConsoleView::AllOff)
    } else if cmd == "PRESS?"@ {
        Some(ConsoleView::PressOnce)
    } else if cmd == "PRESS START"@ {
        Some(ConsoleView::PressStart)
    } else if cmd == "PRESS STOP"@ {
        Some(ConsoleView::PressStop)
    } else {
        None
    }
}

/// How the console reads a typed line: trimmed and uppercased; a blank line
/// does nothing; `LED r g b` (but not `LED SET ...`) is the LED alias; the
/// named commands become typed calls; anything else goes to the wire raw.
pub open spec fn spec_console_command(line: Seq<char>) -> ConsoleView {
    spec_read_command(uppercase(trimmed(line)))
}

/// How the console reads a line already trimmed and uppercased: blank does
/// nothing; `LED r g b` (but not `LED SET ...`) is the LED alias; the named
/// commands become typed calls; anything else goes to the wire raw.
pub open spec fn spec_read_command(cmd: Seq<char>) -> ConsoleView {
    let parts = words(cmd);
    if cmd.len() == 0 {
        ConsoleView::Nothing
    } else if parts.len() == 4 && parts[0] == "LED"@ && parts[1] != "SET"@ {
        match (
            parse_unsigned(parts[1], 255),
            parse_unsigned(parts[2], 255),
            parse_unsigned(parts[3], 255),
        ) {
            (Some(r), Some(g), Some(b)) => ConsoleView::Led(r as u8, g as u8, b as u8),
            _ => ConsoleView::LedUsage,
        }
    } else {
        match named_command(cmd) {
            Some(c) => c,
            None => ConsoleView::Raw(cmd),
        }
    }
}

fn named_command_exec(cmd: &[char]) -> (r: Option<ConsoleCommand>)
    ensures
        match named_command(cmd@) {
            Some(c) => r matches Some(x) && x@ == c,
            None => r is None,
        },
{
    if chars_are(cmd, "VACUUM ON") {
        Some(ConsoleCommand::Switch(Output::Vacuum, true))
    } else if chars_are(cmd, "VACUUM OFF") {
        Some(ConsoleCommand::Switch(Output::Vacuum, false))
    } else if chars_are(cmd, "FAN ON") {
        Some(ConsoleCommand::Switch(Output::Fan, true))
    } else if chars_are(cmd, "FAN OFF") {
        Some(ConsoleCommand::Switch(Output::Fan, false))
    } else if chars_are(cmd, "BLOWER ON") {
        Some(ConsoleCommand::Switch(Output::Blower, true))
    } else if chars_are(cmd, "BLOWER OFF") {
        Some(ConsoleCommand::Switch(Output::Blower, false))
    } else if chars_are(cmd, "LIGHT ON") {
        Some(ConsoleCommand::Switch(Output::Light, true))
    } else if chars_are(cmd, "LIGHT OFF") {
        Some(ConsoleCommand::Switch(Output::Light, false))
    } else if chars_are(cmd, "ALL OFF") {
        Some(ConsoleCommand::AllOff)
    } else if chars_are(cmd, "PRESS?") {
        Some(ConsoleCommand::PressOnce)
    } else if chars_are(cmd, "PRESS START") {
        Some(ConsoleCommand::PressStart)
    } else if chars_are(cmd, "PRESS STOP") {
        Some(ConsoleCommand::PressStop)
    } else {
        None
    }
}

/// Reads one typed console line.
pub fn console_command(line: &str) -> (c: ConsoleCommand)
    ensures
        c@ == spec_console_command(line@),
{
    let all = chars_of(line);
    let t = trim_chars(all.as_slice());
    let t_str = string_of(t.as_slice());
    let upper = to_uppercase(t_str.as_str());
    read_command(upper)
}

/// Reads one console line that is already trimmed and uppercased.
pub fn read_command(upper: String) -> (c: ConsoleCommand)
    ensures
        c@ == spec_read_command(upper@),
{
    let cmd = chars_of(upper.as_str());
    let parts = split_words(cmd.as_slice());
    proof {
        assert(seqs_view(parts@).len() == parts@.len());
    }
    if cmd.len() == 0 {
        return ConsoleCommand::Nothing;
    }
    if parts.len() == 4 && chars_are(parts[0].as_slice(), "LED") && !chars_are(
        parts[1].as_slice(),
        "SET",
    ) {
        proof {
            assert(seqs_view(parts@)[0] == parts@[0]@);
            assert(seqs_view(parts@)[1] == parts@[1]@);
            assert(seqs_view(parts@)[2] == parts@[2]@);
            assert(seqs_view(parts@)[3] == parts@[3]@);
        }
        let r = parse_unsigned_exec(parts[1].as_slice(), 255);
        let g = parse_unsigned_exec(parts[2].as_slice(), 255);
        let b = parse_unsigned_exec(parts[3].as_slice(), 255);
        return match (r, g, b) {
            (Some(r), Some(g), Some(b)) => ConsoleCommand::Led(r as u8, g as u8, b as u8),
            _ => ConsoleCommand::LedUsage,
        };
    }
    proof {
        if parts@.len() == 4 {
            assert(seqs_view(parts@)[0] == parts@[0]@);
            assert(seqs_view(parts@)[1] == parts@[1]@);
        }
    }
    match named_command_exec(cmd.as_slice()) {
        Some(c) => c,
        None => ConsoleCommand::Raw(upper),
    }
}

} // verus!
