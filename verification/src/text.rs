//! Character-level helpers on which the naming and parsing rules are built.
//!
//! Texts are modelled as `Seq<char>`. The executable functions work on a
//! `Vec<char>` so that a position can be read in constant time.

use vstd::prelude::*;

verus! {

/// `String::push` appends one character to the end of the string.
pub assume_specification[ String::push ](s: &mut String, ch: char)
    ensures
        final(s)@ == old(s)@.push(ch),
;

/// Whether `part` stands in `s` at position `at`.
pub open spec fn occurs_at(s: Seq<char>, part: Seq<char>, at: int) -> bool {
    &&& 0 <= at
    &&& at + part.len() <= s.len()
    &&& s.subrange(at, at + part.len()) == part
}

/// Whether `part` stands somewhere in `s`. The empty text stands in every text.
pub open spec fn contains_text(s: Seq<char>, part: Seq<char>) -> bool {
    exists|at: int| occurs_at(s, part, at)
}

/// The position of the first `c` in `s`, or `s.len()` where `s` holds none.
pub open spec fn position_of(s: Seq<char>, c: char) -> int
    decreases s.len(),
{
    if s.len() == 0 || s[0] == c {
        0
    } else {
        1 + position_of(s.drop_first(), c)
    }
}

/// `s` up to its first `c`, the whole of `s` where it holds none.
pub open spec fn before_first(s: Seq<char>, c: char) -> Seq<char> {
    s.take(position_of(s, c))
}

/// The test that every character but `c` passes.
pub open spec fn other_than(c: char) -> spec_fn(char) -> bool {
    |x: char| x != c
}

/// `s` without any occurrence of `c`.
pub open spec fn without_char(s: Seq<char>, c: char) -> Seq<char> {
    s.filter(other_than(c))
}

/// The characters that carry the Unicode property White_Space.
pub open spec fn is_space(c: char) -> bool {
    ||| 0x09 <= c as u32 <= 0x0D
    ||| c as u32 == 0x20
    ||| c as u32 == 0x85
    ||| c as u32 == 0xA0
    ||| c as u32 == 0x1680
    ||| 0x2000 <= c as u32 <= 0x200A
    ||| c as u32 == 0x2028
    ||| c as u32 == 0x2029
    ||| c as u32 == 0x202F
    ||| c as u32 == 0x205F
    ||| c as u32 == 0x3000
}

/// What a trim removes from the ends of a text.
#[derive(Clone, Copy, PartialEq, Eq, Structural)]
pub enum Trim {
    /// White space.
    Space,
    /// Double quotes.
    Quote,
}

/// Whether a trim of kind `trim` removes `c`.
pub open spec fn trims(trim: Trim, c: char) -> bool {
    match trim {
        Trim::Space => is_space(c),
        Trim::Quote => c == '"',
    }
}

/// `s` without the characters at its start that `trim` removes.
pub open spec fn trim_start(s: Seq<char>, trim: Trim) -> Seq<char>
    decreases s.len(),
{
    if s.len() > 0 && trims(trim, s[0]) {
        trim_start(s.drop_first(), trim)
    } else {
        s
    }
}

/// `s` without the characters at its end that `trim` removes.
pub open spec fn trim_end(s: Seq<char>, trim: Trim) -> Seq<char>
    decreases s.len(),
{
    if s.len() > 0 && trims(trim, s.last()) {
        trim_end(s.drop_last(), trim)
    } else {
        s
    }
}

/// `s` without the characters at either end that `trim` removes.
pub open spec fn trimmed(s: Seq<char>, trim: Trim) -> Seq<char> {
    trim_end(trim_start(s, trim), trim)
}

/// `s` without every leading repetition of `prefix`.
pub open spec fn without_leading(s: Seq<char>, prefix: Seq<char>) -> Seq<char>
    decreases s.len(),
{
    if prefix.len() > 0 && prefix.is_prefix_of(s) {
        without_leading(s.skip(prefix.len() as int), prefix)
    } else {
        s
    }
}

/// The character that writes the digit `d`.
pub open spec fn digit(d: int) -> char {
    if d == 0 {
        '0'
    } else if d == 1 {
        '1'
    } else if d == 2 {
        '2'
    } else if d == 3 {
        '3'
    } else if d == 4 {
        '4'
    } else if d == 5 {
        '5'
    } else if d == 6 {
        '6'
    } else if d == 7 {
        '7'
    } else if d == 8 {
        '8'
    } else {
        '9'
    }
}

/// The decimal numeral of `n`, without leading zeros.
pub open spec fn decimal(n: nat) -> Seq<char>
    decreases n,
{
    if n < 10 {
        seq![digit(n as int)]
    } else {
        decimal(n / 10).push(digit((n % 10) as int))
    }
}

/// `position_of` is the least position that holds `c`.
pub proof fn lemma_position_of(s: Seq<char>, c: char)
    ensures
        0 <= position_of(s, c) <= s.len(),
        forall|j: int| 0 <= j < position_of(s, c) ==> s[j] != c,
        position_of(s, c) < s.len() ==> s[position_of(s, c)] == c,
    decreases s.len(),
{
    if s.len() == 0 || s[0] == c {
    } else {
        let rest = s.drop_first();
        lemma_position_of(rest, c);
        assert forall|j: int| 0 <= j < position_of(s, c) implies s[j] != c by {
            if j > 0 {
                assert(s[j] == rest[j - 1]);
            }
        }
    }
}

/// A position before which no `c` stands, and which holds `c` or ends `s`,
/// is `position_of(s, c)`.
pub proof fn lemma_position_found(s: Seq<char>, c: char, at: int)
    requires
        0 <= at <= s.len(),
        forall|j: int| 0 <= j < at ==> s[j] != c,
        at < s.len() ==> s[at] == c,
    ensures
        position_of(s, c) == at,
{
    lemma_position_of(s, c);
}

/// The characters of `s`, in order.
pub fn chars_of(s: &str) -> (chars: Vec<char>)
    ensures
        chars@ == s@,
{
    let mut chars: Vec<char> = Vec::new();
    let source = s.chars();
    for c in it: source
        invariant
            it.seq() == s@,
            chars@ == s@.take(it.index()),
    {
        chars.push(c);
    }
    chars
}

/// The string made of `chars[from..to]`.
pub fn string_of(chars: &Vec<char>, from: usize, to: usize) -> (s: String)
    requires
        from <= to <= chars.len(),
    ensures
        s@ == chars@.subrange(from as int, to as int),
{
    let mut s = String::new();
    let mut i: usize = from;
    while i < to
        invariant
            from <= i <= to <= chars.len(),
            s@ == chars@.subrange(from as int, i as int),
        decreases to - i,
    {
        s.push(chars[i]);
        i += 1;
    }
    s
}

/// Whether `part` stands in `chars` at position `at`.
pub fn stands_at(chars: &Vec<char>, part: &Vec<char>, at: usize) -> (found: bool)
    ensures
        found == occurs_at(chars@, part@, at as int),
{
    if at > chars.len() || part.len() > chars.len() - at {
        return false;
    }
    let mut k: usize = 0;
    while k < part.len()
        invariant
            at + part.len() <= chars.len(),
            k <= part.len(),
            forall|j: int| 0 <= j < k ==> chars@[at + j] == part@[j],
        decreases part.len() - k,
    {
        if chars[at + k] != part[k] {
            return false;
        }
        k += 1;
    }
    assert(chars@.subrange(at as int, at + part.len()) =~= part@);
    true
}

/// Whether `part` stands somewhere in `chars`.
pub fn contains(chars: &Vec<char>, part: &Vec<char>) -> (found: bool)
    ensures
        found == contains_text(chars@, part@),
{
    if part.len() > chars.len() {
        return false;
    }
    let last: usize = chars.len() - part.len();
    let mut at: usize = 0;
    while at < last
        invariant
            last == chars.len() - part.len(),
            at <= last,
            forall|j: int| 0 <= j < at ==> !occurs_at(chars@, part@, j),
        decreases last - at,
    {
        if stands_at(chars, part, at) {
            return true;
        }
        at += 1;
    }
    stands_at(chars, part, last)
}

/// The first position at or after `from` that holds `c`, or `chars.len()`.
pub fn find_char(chars: &Vec<char>, from: usize, c: char) -> (at: usize)
    requires
        from <= chars.len(),
    ensures
        from <= at <= chars.len(),
        at - from == position_of(chars@.skip(from as int), c),
{
    let mut at: usize = from;
    while at < chars.len() && chars[at] != c
        invariant
            from <= at <= chars.len(),
            forall|j: int| from <= j < at ==> chars@[j] != c,
        decreases chars.len() - at,
    {
        at += 1;
    }
    proof {
        lemma_position_found(chars@.skip(from as int), c, at - from);
    }
    at
}

/// `chars` without any occurrence of `c`.
pub fn remove_char(chars: &Vec<char>, c: char) -> (kept: Vec<char>)
    ensures
        kept@ == without_char(chars@, c),
{
    let mut kept: Vec<char> = Vec::new();
    let mut i: usize = 0;
    while i < chars.len()
        invariant
            i <= chars.len(),
            kept@ == chars@.take(i as int).filter(other_than(c)),
        decreases chars.len() - i,
    {
        proof {
            assert(chars@.take(i + 1) =~= chars@.take(i as int).push(chars@[i as int]));
            chars@.take(i as int).lemma_filter_push(chars@[i as int], other_than(c));
        }
        if chars[i] != c {
            kept.push(chars[i]);
        }
        i += 1;
    }
    assert(chars@.take(chars.len() as int) =~= chars@);
    kept
}

/// Whether `c` is white space.
pub fn is_space_char(c: char) -> (space: bool)
    ensures
        space == is_space(c),
{
    let code: u32 = c as u32;
    (0x09 <= code && code <= 0x0D) || code == 0x20 || code == 0x85 || code == 0xA0 || code
        == 0x1680 || (0x2000 <= code && code <= 0x200A) || code == 0x2028 || code == 0x2029
        || code == 0x202F || code == 0x205F || code == 0x3000
}

/// Whether a trim of kind `trim` removes `c`.
pub fn is_trimmed(trim: Trim, c: char) -> (removed: bool)
    ensures
        removed == trims(trim, c),
{
    match trim {
        Trim::Space => is_space_char(c),
        Trim::Quote => c == '"',
    }
}

/// Trimming a window whose first character goes is trimming the rest of it.
proof fn lemma_trim_start_step(s: Seq<char>, from: int, to: int, trim: Trim)
    requires
        0 <= from < to <= s.len(),
        trims(trim, s[from]),
    ensures
        trim_start(s.subrange(from, to), trim) == trim_start(s.subrange(from + 1, to), trim),
{
    assert(s.subrange(from, to).drop_first() =~= s.subrange(from + 1, to));
}

/// Trimming a window whose last character goes is trimming the rest of it.
proof fn lemma_trim_end_step(s: Seq<char>, from: int, to: int, trim: Trim)
    requires
        0 <= from < to <= s.len(),
        trims(trim, s[to - 1]),
    ensures
        trim_end(s.subrange(from, to), trim) == trim_end(s.subrange(from, to - 1), trim),
{
    assert(s.subrange(from, to).drop_last() =~= s.subrange(from, to - 1));
}

/// The bounds of what is left of `chars[from..to]` after a trim at both ends.
pub fn trim_bounds(chars: &Vec<char>, from: usize, to: usize, trim: Trim) -> (bounds: (
    usize,
    usize,
))
    requires
        from <= to <= chars.len(),
    ensures
        from <= bounds.0 <= bounds.1 <= to,
        chars@.subrange(bounds.0 as int, bounds.1 as int) == trimmed(
            chars@.subrange(from as int, to as int),
            trim,
        ),
{
    let mut a: usize = from;
    while a < to && is_trimmed(trim, chars[a])
        invariant
            from <= a <= to <= chars.len(),
            trim_start(chars@.subrange(a as int, to as int), trim) == trim_start(
                chars@.subrange(from as int, to as int),
                trim,
            ),
        decreases to - a,
    {
        proof {
            lemma_trim_start_step(chars@, a as int, to as int, trim);
        }
        a += 1;
    }
    let mut b: usize = to;
    while a < b && is_trimmed(trim, chars[b - 1])
        invariant
            a <= b <= to <= chars.len(),
            trim_end(chars@.subrange(a as int, b as int), trim) == trim_end(
                chars@.subrange(a as int, to as int),
                trim,
            ),
        decreases b - a,
    {
        proof {
            lemma_trim_end_step(chars@, a as int, b as int, trim);
        }
        b -= 1;
    }
    (a, b)
}

/// The start of what is left of `chars[from..to]` once every leading
/// repetition of `prefix` is gone.
pub fn skip_leading(chars: &Vec<char>, from: usize, to: usize, prefix: &Vec<char>) -> (start: usize)
    requires
        from <= to <= chars.len(),
    ensures
        from <= start <= to,
        chars@.subrange(start as int, to as int) == without_leading(
            chars@.subrange(from as int, to as int),
            prefix@,
        ),
{
    if prefix.len() == 0 {
        return from;
    }
    let mut start: usize = from;
    while to - start >= prefix.len() && stands_at(chars, prefix, start)
        invariant
            from <= start <= to <= chars.len(),
            prefix.len() > 0,
            without_leading(chars@.subrange(start as int, to as int), prefix@) == without_leading(
                chars@.subrange(from as int, to as int),
                prefix@,
            ),
        decreases to - start,
    {
        proof {
            let window = chars@.subrange(start as int, to as int);
            assert(window.skip(prefix@.len() as int) =~= chars@.subrange(
                start + prefix@.len(),
                to as int,
            ));
        }
        start += prefix.len();
    }
    proof {
        let window = chars@.subrange(start as int, to as int);
        if prefix@.is_prefix_of(window) {
            assert(window.subrange(0, prefix@.len() as int) =~= chars@.subrange(
                start as int,
                start + prefix@.len(),
            ));
        }
    }
    start
}

/// The character that writes the digit `d`.
pub fn digit_char(d: u64) -> (c: char)
    requires
        d < 10,
    ensures
        c == digit(d as int),
{
    if d == 0 {
        '0'
    } else if d == 1 {
        '1'
    } else if d == 2 {
        '2'
    } else if d == 3 {
        '3'
    } else if d == 4 {
        '4'
    } else if d == 5 {
        '5'
    } else if d == 6 {
        '6'
    } else if d == 7 {
        '7'
    } else if d == 8 {
        '8'
    } else {
        '9'
    }
}

/// Appends the decimal numeral of `n` to `out`.
pub fn push_decimal(out: &mut String, n: u64)
    ensures
        final(out)@ == old(out)@ + decimal(n as nat),
    decreases n,
{
    if n >= 10 {
        push_decimal(out, n / 10);
    }
    out.push(digit_char(n % 10));
}

} // verus!
