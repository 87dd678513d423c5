//! Character-level helpers shared by the line protocols: whitespace splitting,
//! `NAME:VALUE` fields, decimal integers and string construction.
use vstd::prelude::*;

verus! {

broadcast use vstd::string::group_string_axioms;

/// The characters of a string slice, in order.
pub fn chars_of(s: &str) -> (v: Vec<char>)
    ensures
        v@ == s@,
{
    let mut v: Vec<char> = Vec::new();
    for c in it: s.chars()
        invariant
            v@ == it.seq().take(it.index() as int),
            it.seq() == s@,
    {
        v.push(c);
    }
    v
}

/// Appends one character to a string (`String::push`).
#[verifier::external_body]
fn push_char(s: &mut String, c: char)
    ensures
        final(s)@ == old(s)@.push(c),
{
    s.push(c);
}

/// A string holding exactly the given characters.
pub fn string_of(chars: &[char]) -> (s: String)
    ensures
        s@ == chars@,
{
    let mut s = String::new();
    let mut i: usize = 0;
    while i < chars.len()
        invariant
            i <= chars@.len(),
            s@ == chars@.take(i as int),
        decreases chars@.len() - i,
    {
        push_char(&mut s, chars[i]);
        i = i + 1;
        assert(s@ =~= chars@.take(i as int));
    }
    assert(chars@.take(i as int) =~= chars@);
    s
}

/// A string holding the characters of a slice.
pub fn owned(s: &str) -> (r: String)
    ensures
        r@ == s@,
{
    let v = chars_of(s);
    string_of(v.as_slice())
}

/// Concatenation of two string slices.
pub fn join2(a: &str, b: &str) -> (r: String)
    ensures
        r@ == a@ + b@,
{
    let mut r = owned(a);
    r.append(b);
    r
}

/// Concatenation of three string slices.
pub fn join3(a: &str, b: &str, c: &str) -> (r: String)
    ensures
        r@ == a@ + b@ + c@,
{
    let mut r = owned(a);
    r.append(b);
    r.append(c);
    r
}

/// Whether two character sequences are equal.
pub fn chars_eq(a: &[char], b: &[char]) -> (eq: bool)
    ensures
        eq == (a@ == b@),
{
    if a.len() != b.len() {
        return false;
    }
    let mut i: usize = 0;
    while i < a.len()
        invariant
            a@.len() == b@.len(),
            i <= a@.len(),
            forall|j: int| 0 <= j < i ==> a@[j] == b@[j],
        decreases a@.len() - i,
    {
        if a[i] != b[i] {
            return false;
        }
        i = i + 1;
    }
    assert(a@ =~= b@);
    true
}

/// Whether a character sequence spells a given string slice.
pub fn chars_are(a: &[char], lit: &str) -> (eq: bool)
    ensures
        eq == (a@ == lit@),
{
    let l = chars_of(lit);
    chars_eq(a, l.as_slice())
}

/// Rust's `char::is_whitespace`: the Unicode `White_Space` property.
pub open spec fn is_space(c: char) -> bool {
    let u = c as u32;
    (0x9 <= u && u <= 0xd) || u == 0x20 || u == 0x85 || u == 0xa0 || u == 0x1680 || (0x2000 <= u
        && u <= 0x200a) || u == 0x2028 || u == 0x2029 || u == 0x202f || u == 0x205f || u == 0x3000
}

/// Executable form of [`is_space`].
pub fn char_is_space(c: char) -> (b: bool)
    ensures
        b == is_space(c),
{
    let u = c as u32;
    (0x9 <= u && u <= 0xd) || u == 0x20 || u == 0x85 || u == 0xa0 || u == 0x1680 || (0x2000 <= u
        && u <= 0x200a) || u == 0x2028 || u == 0x2029 || u == 0x202f || u == 0x205f || u == 0x3000
}

/// Length of the run of non-space characters that starts the sequence.
pub open spec fn leading_run(s: Seq<char>) -> nat
    decreases s.len(),
{
    if s.len() == 0 || is_space(s[0]) {
        0
    } else {
        1 + leading_run(s.drop_first())
    }
}

pub proof fn lemma_leading_run_bound(s: Seq<char>)
    ensures
        leading_run(s) <= s.len(),
        s.len() > 0 && !is_space(s[0]) ==> leading_run(s) >= 1,
    decreases s.len(),
{
    if s.len() > 0 && !is_space(s[0]) {
        lemma_leading_run_bound(s.drop_first());
    }
}

/// The maximal runs of non-space characters, in order (`str::split_whitespace`).
pub open spec fn words(s: Seq<char>) -> Seq<Seq<char>>
    decreases s.len(),
{
    if s.len() == 0 {
        seq![]
    } else if is_space(s[0]) {
        words(s.drop_first())
    } else {
        let r = leading_run(s);
        proof {
            lemma_leading_run_bound(s);
        }
        seq![s.take(r as int)] + words(s.skip(r as int))
    }
}

proof fn lemma_leading_run(t: Seq<char>, k: int)
    requires
        0 <= k <= t.len(),
        forall|j: int| 0 <= j < k ==> !is_space(#[trigger] t[j]),
        k == t.len() || is_space(t[k]),
    ensures
        leading_run(t) == k,
    decreases k,
{
    if k > 0 {
        let d = t.drop_first();
        assert forall|j: int| 0 <= j < k - 1 implies !is_space(#[trigger] d[j]) by {
            assert(d[j] == t[j + 1]);
        }
        if k < t.len() {
            assert(d[k - 1] == t[k]);
        }
        lemma_leading_run(d, k - 1);
    }
}

/// The character sequences held by a list of character vectors.
pub open spec fn seqs_view(v: Seq<Vec<char>>) -> Seq<Seq<char>> {
    v.map_values(|w: Vec<char>| w@)
}

/// Splits a line into its whitespace-separated words.
pub fn split_words(s: &[char]) -> (ws: Vec<Vec<char>>)
    ensures
        seqs_view(ws@) == words(s@),
{
    let n = s.len();
    let mut out: Vec<Vec<char>> = Vec::new();
    let mut i: usize = 0;
    assert(s@.skip(0) =~= s@);
    assert(seqs_view(out@) =~= Seq::<Seq<char>>::empty());
    while i < n
        invariant
            n == s@.len(),
            i <= n,
            seqs_view(out@) + words(s@.skip(i as int)) == words(s@),
        decreases n - i,
    {
        if char_is_space(s[i]) {
            assert(s@.skip(i as int).drop_first() =~= s@.skip(i + 1));
            i = i + 1;
        } else {
            let start = i;
            let mut w: Vec<char> = Vec::new();
            while i < n && !char_is_space(s[i])
                invariant
                    n == s@.len(),
                    start <= i <= n,
                    w@ == s@.subrange(start as int, i as int),
                    forall|j: int| start <= j < i ==> !is_space(#[trigger] s@[j]),
                decreases n - i,
            {
                w.push(s[i]);
                i = i + 1;
                assert(w@ =~= s@.subrange(start as int, i as int));
            }
            let ghost t = s@.skip(start as int);
            proof {
                assert forall|j: int| 0 <= j < i - start implies !is_space(#[trigger] t[j]) by {
                    assert(t[j] == s@[start + j]);
                }
                if i < n {
                    assert(t[i - start] == s@[i as int]);
                }
                lemma_leading_run(t, i - start);
                assert(t.take(i - start) =~= w@);
                assert(t.skip(i - start) =~= s@.skip(i as int));
                assert(words(t) == seq![w@] + words(s@.skip(i as int)));
            }
            let ghost before = seqs_view(out@);
            out.push(w);
            assert(seqs_view(out@) =~= before.push(w@));
            assert(seqs_view(out@) + words(s@.skip(i as int)) =~= before + (seq![w@] + words(
                s@.skip(i as int),
            )));
        }
    }
    assert(s@.skip(n as int) =~= Seq::<char>::empty());
    assert(words(s@.skip(n as int)) =~= Seq::<Seq<char>>::empty());
    assert(seqs_view(out@) + words(s@.skip(n as int)) =~= seqs_view(out@));
    out
}

/// Index of the first `:` in a word, if any.
pub open spec fn colon_index(w: Seq<char>) -> Option<int>
    decreases w.len(),
{
    if w.len() == 0 {
        None
    } else if w[0] == ':' {
        Some(0)
    } else {
        match colon_index(w.drop_first()) {
            Some(i) => Some(i + 1),
            None => None,
        }
    }
}

proof fn lemma_colon_index(w: Seq<char>, k: int)
    requires
        0 <= k <= w.len(),
        forall|j: int| 0 <= j < k ==> #[trigger] w[j] != ':',
    ensures
        k == w.len() ==> colon_index(w) is None,
        k < w.len() && w[k] == ':' ==> colon_index(w) == Some(k),
    decreases k,
{
    if k > 0 {
        let d = w.drop_first();
        assert forall|j: int| 0 <= j < k - 1 implies #[trigger] d[j] != ':' by {
            assert(d[j] == w[j + 1]);
        }
        if k < w.len() {
            assert(d[k - 1] == w[k]);
        }
        lemma_colon_index(d, k - 1);
    }
}

/// Splits a word at its first `:` (`str::split_once(':')`).
pub open spec fn split_colon(w: Seq<char>) -> Option<(Seq<char>, Seq<char>)> {
    match colon_index(w) {
        Some(i) => Some((w.take(i), w.skip(i + 1))),
        None => None,
    }
}

/// Executable form of [`split_colon`].
pub fn split_colon_exec(w: &[char]) -> (r: Option<(Vec<char>, Vec<char>)>)
    ensures
        match r {
            Some((a, b)) => split_colon(w@) == Some((a@, b@)),
            None => split_colon(w@) is None,
        },
{
    let mut i: usize = 0;
    let mut name: Vec<char> = Vec::new();
    while i < w.len() && w[i] != ':'
        invariant
            i <= w@.len(),
            name@ == w@.take(i as int),
            forall|j: int| 0 <= j < i ==> #[trigger] w@[j] != ':',
        decreases w@.len() - i,
    {
        name.push(w[i]);
        i = i + 1;
        assert(name@ =~= w@.take(i as int));
    }
    proof {
        lemma_colon_index(w@, i as int);
    }
    if i == w.len() {
        return None;
    }
    let mut value: Vec<char> = Vec::new();
    let mut k: usize = i + 1;
    while k < w.len()
        invariant
            i < w@.len(),
            i + 1 <= k <= w@.len(),
            value@ == w@.subrange(i + 1, k as int),
        decreases w@.len() - k,
    {
        value.push(w[k]);
        k = k + 1;
        assert(value@ =~= w@.subrange(i + 1, k as int));
    }
    assert(value@ =~= w@.skip(i + 1));
    Some((name, value))
}

/// The value of the last pair whose name matches, if any.
pub open spec fn lookup(fs: Seq<(Seq<char>, Seq<char>)>, name: Seq<char>) -> Option<Seq<char>>
    decreases fs.len(),
{
    if fs.len() == 0 {
        None
    } else if fs.last().0 == name {
        Some(fs.last().1)
    } else {
        lookup(fs.drop_last(), name)
    }
}

/// The deep view of a list of `NAME:VALUE` pairs.
pub open spec fn pairs_view(fs: Seq<(Vec<char>, Vec<char>)>) -> Seq<(Seq<char>, Seq<char>)> {
    fs.map_values(|p: (Vec<char>, Vec<char>)| (p.0@, p.1@))
}

/// Executable form of [`lookup`].
pub fn lookup_exec(fs: &Vec<(Vec<char>, Vec<char>)>, name: &[char]) -> (r: Option<Vec<char>>)
    ensures
        match r {
            Some(v) => lookup(pairs_view(fs@), name@) == Some(v@),
            None => lookup(pairs_view(fs@), name@) is None,
        },
{
    let mut i: usize = fs.len();
    assert(pairs_view(fs@).take(i as int) =~= pairs_view(fs@));
    while i > 0
        invariant
            i <= fs@.len(),
            lookup(pairs_view(fs@), name@) == lookup(pairs_view(fs@).take(i as int), name@),
        decreases i,
    {
        let ghost pre = pairs_view(fs@).take(i as int);
        assert(pre.last() == (fs@[i - 1].0@, fs@[i - 1].1@));
        if chars_eq(fs[i - 1].0.as_slice(), name) {
            return Some(fs[i - 1].1.clone());
        }
        assert(pre.drop_last() =~= pairs_view(fs@).take(i - 1));
        i = i - 1;
    }
    None
}

/// Executable lookup of a field named by a string slice.
pub fn lookup_lit(fs: &Vec<(Vec<char>, Vec<char>)>, name: &str) -> (r: Option<Vec<char>>)
    ensures
        match r {
            Some(v) => lookup(pairs_view(fs@), name@) == Some(v@),
            None => lookup(pairs_view(fs@), name@) is None,
        },
{
    let n = chars_of(name);
    lookup_exec(fs, n.as_slice())
}

/// Whether a character is an ASCII decimal digit.
pub open spec fn is_digit(c: char) -> bool {
    '0' <= c && c <= '9'
}

/// The value of a sequence of decimal digits.
pub open spec fn digits_value(s: Seq<char>) -> nat
    decreases s.len(),
{
    if s.len() == 0 {
        0
    } else {
        digits_value(s.drop_last()) * 10 + ((s.last() as u32) - ('0' as u32)) as nat
    }
}

/// The digits of an unsigned literal: the text after an optional leading `+`.
pub open spec fn unsigned_digits(s: Seq<char>) -> Seq<char> {
    if s.len() > 0 && s[0] == '+' {
        s.drop_first()
    } else {
        s
    }
}

/// Rust's `FromStr` for an unsigned integer bounded by `max`: an optional `+`,
/// then at least one ASCII digit, with a value of at most `max`.
pub open spec fn parse_unsigned(s: Seq<char>, max: nat) -> Option<nat> {
    let d = unsigned_digits(s);
    if d.len() > 0 && (forall|i: int| 0 <= i < d.len() ==> is_digit(#[trigger] d[i]))
        && digits_value(d) <= max {
        Some(digits_value(d))
    } else {
        None
    }
}

proof fn lemma_digits_value_grows(s: Seq<char>, i: int)
    requires
        0 <= i <= s.len(),
        forall|j: int| 0 <= j < s.len() ==> is_digit(#[trigger] s[j]),
    ensures
        digits_value(s.take(i)) <= digits_value(s),
    decreases s.len() - i,
{
    if i < s.len() {
        lemma_digits_value_grows(s, i + 1);
        assert(s.take(i + 1).drop_last() =~= s.take(i));
    } else {
        assert(s.take(i) =~= s);
    }
}

/// Executable form of [`parse_unsigned`].
pub fn parse_unsigned_exec(s: &[char], max: u64) -> (r: Option<u64>)
    requires
        max >= 9,
    ensures
        match r {
            Some(v) => parse_unsigned(s@, max as nat) == Some(v as nat),
            None => parse_unsigned(s@, max as nat) is None,
        },
{
    let start: usize = if s.len() > 0 && s[0] == '+' {
        1
    } else {
        0
    };
    let ghost d = unsigned_digits(s@);
    assert(d =~= s@.skip(start as int));
    if start == s.len() {
        return None;
    }
    let mut acc: u64 = 0;
    let mut i: usize = start;
    while i < s.len()
        invariant
            start <= i <= s@.len(),
            d =~= s@.skip(start as int),
            d == unsigned_digits(s@),
            forall|j: int| 0 <= j < i - start ==> is_digit(#[trigger] d[j]),
            acc as nat == digits_value(d.take(i - start)),
            acc <= max,
            max >= 9,
        decreases s@.len() - i,
    {
        let c = s[i];
        if !('0' <= c && c <= '9') {
            assert(d[i - start] == c);
            assert(!is_digit(d[i - start]));
            assert(!(forall|j: int| 0 <= j < d.len() ==> is_digit(#[trigger] d[j])));
            assert(d == unsigned_digits(s@));
            assert(parse_unsigned(s@, max as nat) is None);
            return None;
        }
        let digit: u64 = (c as u32 - '0' as u32) as u64;
        assert(d.take(i + 1 - start).drop_last() =~= d.take(i - start));
        assert(d[i - start] == c);
        if acc > (max - digit) / 10 {
            proof {
                assert(acc * 10 + digit > max) by (nonlinear_arith)
                    requires
                        acc > (max - digit) / 10,
                        digit <= 9,
                        digit <= max,
                ;
                assert forall|j: int| 0 <= j < i + 1 - start implies is_digit(#[trigger] d[j]) by {
                    if j == i - start {
                    }
                }
                let rest_ok = forall|j: int| 0 <= j < d.len() ==> is_digit(#[trigger] d[j]);
                if rest_ok {
                    lemma_digits_value_grows(d, i + 1 - start);
                    assert(digits_value(d.take(i + 1 - start)) == acc * 10 + digit);
                    assert(digits_value(d) > max);
                }
            }
            return None;
        }
        proof {
            assert(acc * 10 + digit <= max) by (nonlinear_arith)
                requires
                    acc <= (max - digit) / 10,
                    digit <= max,
            ;
        }
        acc = acc * 10 + digit;
        i = i + 1;
    }
    assert(d.take(i - start) =~= d);
    Some(acc)
}

/// The ASCII digit for a value below ten.
pub open spec fn digit_char(d: nat) -> char {
    (('0' as u32) + d) as char
}

/// The shortest decimal spelling of a natural number, as `Display` writes it.
pub open spec fn decimal(n: nat) -> Seq<char>
    decreases n,
{
    if n < 10 {
        seq![digit_char(n)]
    } else {
        decimal(n / 10).push(digit_char(n % 10))
    }
}

/// Appends the decimal spelling of `n`.
pub fn push_decimal(s: &mut String, n: u64)
    ensures
        final(s)@ == old(s)@ + decimal(n as nat),
    decreases n,
{
    if n >= 10 {
        push_decimal(s, n / 10);
    }
    let d: u32 = (n % 10) as u32;
    let c: char = if d == 0 { '0' } else if d == 1 { '1' } else if d == 2 { '2' } else if d == 3 {
        '3'
    } else if d == 4 { '4' } else if d == 5 { '5' } else if d == 6 { '6' } else if d == 7 {
        '7'
    } else if d == 8 { '8' } else { '9' };
    assert(c == digit_char((n % 10) as nat));
    push_char(s, c);
}

/// The decimal spelling of an unsigned integer.
pub fn decimal_text(n: u64) -> (s: String)
    ensures
        s@ == decimal(n as nat),
{
    let mut s = String::new();
    push_decimal(&mut s, n);
    assert(s@ =~= decimal(n as nat));
    s
}

/// Whether `p` is a prefix of `s`.
pub open spec fn has_prefix(s: Seq<char>, p: Seq<char>) -> bool {
    p.len() <= s.len() && s.take(p.len() as int) == p
}

/// Whether a character sequence starts with a string slice.
pub fn starts_with(s: &[char], p: &str) -> (b: bool)
    ensures
        b == has_prefix(s@, p@),
{
    let pc = chars_of(p);
    if pc.len() > s.len() {
        return false;
    }
    let mut i: usize = 0;
    while i < pc.len()
        invariant
            pc@ == p@,
            pc@.len() <= s@.len(),
            i <= pc@.len(),
            forall|j: int| 0 <= j < i ==> s@[j] == pc@[j],
        decreases pc@.len() - i,
    {
        if s[i] != pc[i] {
            assert(s@.take(pc@.len() as int)[i as int] != p@[i as int]);
            return false;
        }
        i = i + 1;
    }
    assert(s@.take(pc@.len() as int) =~= p@);
    true
}

} // verus!
