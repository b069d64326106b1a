//! Character-level helpers shared by the ACPI gateway and the model detector:
//! whitespace and character-class trimming, substring search, hexadecimal
//! formatting of bytes and hexadecimal parsing.
use vstd::prelude::*;
use vstd::string::*;

verus! {

/// The characters that carry Unicode's `White_Space` property.
pub open spec fn is_space(c: char) -> bool {
    ||| c == '\t'
    ||| c == '\n'
    ||| c == '\x0B'
    ||| c == '\x0C'
    ||| c == '\r'
    ||| c == ' '
    ||| c == '\u{85}'
    ||| c == '\u{A0}'
    ||| c == '\u{1680}'
    ||| (0x2000 <= c as u32 && c as u32 <= 0x200A)
    ||| c == '\u{2028}'
    ||| c == '\u{2029}'
    ||| c == '\u{202F}'
    ||| c == '\u{205F}'
    ||| c == '\u{3000}'
}

/// A set of characters that a trim removes.
#[derive(Debug, Clone, Copy, PartialEq, Eq, Structural)]
pub enum CharClass {
    /// Unicode white space.
    Space,
    /// One given character.
    Exactly(char),
}

pub open spec fn in_class(c: char, k: CharClass) -> bool {
    match k {
        CharClass::Space => is_space(c),
        CharClass::Exactly(x) => c == x,
    }
}

pub fn class_contains(k: CharClass, c: char) -> (r: bool)
    ensures
        r == in_class(c, k),
{
    match k {
        CharClass::Space => {
            c == '\t' || c == '\n' || c == '\x0B' || c == '\x0C' || c == '\r' || c == ' ' || c
                == '\u{85}' || c == '\u{A0}' || c == '\u{1680}' || (0x2000 <= c as u32 && c as u32
                <= 0x200A) || c == '\u{2028}' || c == '\u{2029}' || c == '\u{202F}' || c
                == '\u{205F}' || c == '\u{3000}'
        },
        CharClass::Exactly(x) => c == x,
    }
}

/// `s` without the characters of class `k` at its start.
pub open spec fn trim_start_class(s: Seq<char>, k: CharClass) -> Seq<char>
    decreases s.len(),
{
    if s.len() > 0 && in_class(s[0], k) {
        trim_start_class(s.subrange(1, s.len() as int), k)
    } else {
        s
    }
}

/// `s` without the characters of class `k` at its end.
pub open spec fn trim_end_class(s: Seq<char>, k: CharClass) -> Seq<char>
    decreases s.len(),
{
    if s.len() > 0 && in_class(s.last(), k) {
        trim_end_class(s.drop_last(), k)
    } else {
        s
    }
}

/// `s` without the characters of class `k` at either end.
pub open spec fn trim_class(s: Seq<char>, k: CharClass) -> Seq<char> {
    trim_end_class(trim_start_class(s, k), k)
}

/// `s` without white space at either end.
pub open spec fn trim(s: Seq<char>) -> Seq<char> {
    trim_class(s, CharClass::Space)
}

/// Whether `t` occurs in `s` as a contiguous run.
pub open spec fn has_infix(s: Seq<char>, t: Seq<char>) -> bool {
    exists|i: int| 0 <= i && i + t.len() <= s.len() && #[trigger] s.subrange(i, i + t.len()) == t
}

/// The characters of `s`, one by one.
pub fn chars_of(s: &str) -> (r: Vec<char>)
    ensures
        r@ == s@,
{
    let n = s.unicode_len();
    let mut r: Vec<char> = Vec::new();
    let mut i: usize = 0;
    while i < n
        invariant
            n == s@.len(),
            i <= n,
            r@ == s@.subrange(0, i as int),
        decreases n - i,
    {
        r.push(s.get_char(i));
        i += 1;
    }
    r
}

/// Whether two strings hold the same characters.
pub fn str_eq(a: &str, b: &str) -> (r: bool)
    ensures
        r == (a@ == b@),
{
    let x = chars_of(a);
    let y = chars_of(b);
    if x.len() != y.len() {
        return false;
    }
    let mut i: usize = 0;
    while i < x.len()
        invariant
            x@ == a@,
            y@ == b@,
            x.len() == y.len(),
            i <= x.len(),
            forall|j: int| 0 <= j < i ==> x@[j] == y@[j],
        decreases x.len() - i,
    {
        if x[i] != y[i] {
            return false;
        }
        i += 1;
    }
    assert(x@ =~= y@);
    true
}

/// Whether `needle` occurs in `hay`.
pub fn contains_str(hay: &Vec<char>, needle: &str) -> (r: bool)
    ensures
        r == has_infix(hay@, needle@),
{
    let t = chars_of(needle);
    if t.len() > hay.len() {
        return false;
    }
    if t.len() == 0 {
        assert(hay@.subrange(0, 0 + t@.len() as int) =~= t@);
        assert(has_infix(hay@, needle@));
        return true;
    }
    let last = hay.len() - t.len();
    let mut i: usize = 0;
    while i <= last
        invariant
            t@ == needle@,
            last == hay.len() - t.len(),
            last < hay.len(),
            i <= last + 1,
            forall|k: int| 0 <= k < i ==> #[trigger] hay@.subrange(k, k + t.len()) != t@,
        decreases last + 1 - i,
    {
        let mut j: usize = 0;
        let mut same = true;
        while j < t.len()
            invariant
                t@ == needle@,
                last == hay.len() - t.len(),
                i <= last,
                j <= t.len(),
                same ==> forall|m: int| 0 <= m < j ==> hay@[i + m] == t@[m],
                !same ==> hay@.subrange(i as int, i + t.len()) != t@,
            decreases t.len() - j,
        {
            if hay[i + j] != t[j] {
                assert(hay@.subrange(i as int, i + t.len())[j as int] != t@[j as int]);
                same = false;
            }
            j += 1;
        }
        if same {
            assert(hay@.subrange(i as int, i + t.len()) =~= t@);
            return true;
        }
        i += 1;
    }
    assert forall|k: int| 0 <= k && k + t@.len() <= hay@.len() implies #[trigger] hay@.subrange(
        k,
        k + t@.len(),
    ) != t@ by {
        assert(k < i);
    }
    false
}

/// The first index at or after `lo` and before `hi` whose character is not of
/// class `k` (or `hi`).
pub fn skip_start(v: &Vec<char>, lo: usize, hi: usize, k: CharClass) -> (r: usize)
    requires
        lo <= hi <= v.len(),
    ensures
        lo <= r <= hi,
        v@.subrange(r as int, hi as int) == trim_start_class(v@.subrange(lo as int, hi as int), k),
{
    let mut i = lo;
    while i < hi && class_contains(k, v[i])
        invariant
            lo <= i <= hi <= v.len(),
            trim_start_class(v@.subrange(i as int, hi as int), k) == trim_start_class(
                v@.subrange(lo as int, hi as int),
                k,
            ),
        decreases hi - i,
    {
        assert(v@.subrange(i as int, hi as int).subrange(1, (hi - i) as int) =~= v@.subrange(
            i + 1,
            hi as int,
        ));
        i += 1;
    }
    i
}

/// The end, after `lo` and at or before `hi`, left when the characters of class
/// `k` are dropped from the end of `v[lo..hi]`.
pub fn skip_end(v: &Vec<char>, lo: usize, hi: usize, k: CharClass) -> (r: usize)
    requires
        lo <= hi <= v.len(),
    ensures
        lo <= r <= hi,
        v@.subrange(lo as int, r as int) == trim_end_class(v@.subrange(lo as int, hi as int), k),
{
    let mut j = hi;
    while j > lo && class_contains(k, v[j - 1])
        invariant
            lo <= j <= hi <= v.len(),
            trim_end_class(v@.subrange(lo as int, j as int), k) == trim_end_class(
                v@.subrange(lo as int, hi as int),
                k,
            ),
        decreases j - lo,
    {
        assert(v@.subrange(lo as int, j as int).drop_last() =~= v@.subrange(
            lo as int,
            j - 1,
        ));
        j -= 1;
    }
    j
}

/// Bounds of `v[lo..hi]` with the characters of class `k` dropped at both ends.
pub fn trim_bounds(v: &Vec<char>, lo: usize, hi: usize, k: CharClass) -> (r: (usize, usize))
    requires
        lo <= hi <= v.len(),
    ensures
        lo <= r.0 <= r.1 <= hi,
        v@.subrange(r.0 as int, r.1 as int) == trim_class(v@.subrange(lo as int, hi as int), k),
{
    let a = skip_start(v, lo, hi, k);
    let b = skip_end(v, a, hi, k);
    (a, b)
}

/// The two-character text `0x` followed by two lower-case hexadecimal digits.
pub open spec fn hex_digit(d: int) -> char {
    if d < 10 {
        ('0' as int + d) as char
    } else {
        ('a' as int + d - 10) as char
    }
}

/// A byte as written in an ACPI call: `0x` and two lower-case hex digits.
pub open spec fn hex_byte(b: u8) -> Seq<char> {
    seq!['0', 'x', hex_digit(b as int / 16), hex_digit(b as int % 16)]
}

fn nibble_text(d: u8) -> (r: &'static str)
    requires
        d < 16,
    ensures
        r@ == seq![hex_digit(d as int)],
{
    match d {
        0 => {
            proof { reveal_strlit("0"); }
            "0"
        },
        1 => {
            proof { reveal_strlit("1"); }
            "1"
        },
        2 => {
            proof { reveal_strlit("2"); }
            "2"
        },
        3 => {
            proof { reveal_strlit("3"); }
            "3"
        },
        4 => {
            proof { reveal_strlit("4"); }
            "4"
        },
        5 => {
            proof { reveal_strlit("5"); }
            "5"
        },
        6 => {
            proof { reveal_strlit("6"); }
            "6"
        },
        7 => {
            proof { reveal_strlit("7"); }
            "7"
        },
        8 => {
            proof { reveal_strlit("8"); }
            "8"
        },
        9 => {
            proof { reveal_strlit("9"); }
            "9"
        },
        10 => {
            proof { reveal_strlit("a"); }
            "a"
        },
        11 => {
            proof { reveal_strlit("b"); }
            "b"
        },
        12 => {
            proof { reveal_strlit("c"); }
            "c"
        },
        13 => {
            proof { reveal_strlit("d"); }
            "d"
        },
        14 => {
            proof { reveal_strlit("e"); }
            "e"
        },
        _ => {
            proof { reveal_strlit("f"); }
            "f"
        },
    }
}

/// Appends `b` to `s` as `0x` and two lower-case hexadecimal digits.
pub fn push_hex_byte(s: &mut String, b: u8)
    ensures
        final(s)@ == old(s)@ + hex_byte(b),
{
    proof {
        reveal_strlit("0x");
    }
    s.append("0x");
    s.append(nibble_text(b / 16));
    s.append(nibble_text(b % 16));
    assert(final(s)@ =~= old(s)@ + hex_byte(b));
}


/// An upper-case hexadecimal digit.
pub open spec fn hex_digit_upper(d: int) -> char {
    if d < 10 {
        ('0' as int + d) as char
    } else {
        ('A' as int + d - 10) as char
    }
}

/// A byte as `0x` and two upper-case hexadecimal digits.
pub open spec fn hex_byte_upper(b: u8) -> Seq<char> {
    seq!['0', 'x', hex_digit_upper(b as int / 16), hex_digit_upper(b as int % 16)]
}

fn nibble_text_upper(d: u8) -> (r: &'static str)
    requires
        d < 16,
    ensures
        r@ == seq![hex_digit_upper(d as int)],
{
    match d {
        10 => {
            proof { reveal_strlit("A"); }
            "A"
        },
        11 => {
            proof { reveal_strlit("B"); }
            "B"
        },
        12 => {
            proof { reveal_strlit("C"); }
            "C"
        },
        13 => {
            proof { reveal_strlit("D"); }
            "D"
        },
        14 => {
            proof { reveal_strlit("E"); }
            "E"
        },
        15 => {
            proof { reveal_strlit("F"); }
            "F"
        },
        _ => nibble_text(d),
    }
}

/// Appends `b` to `s` as `0x` and two upper-case hexadecimal digits.
pub fn push_hex_byte_upper(s: &mut String, b: u8)
    ensures
        final(s)@ == old(s)@ + hex_byte_upper(b),
{
    proof {
        reveal_strlit("0x");
    }
    s.append("0x");
    s.append(nibble_text_upper(b / 16));
    s.append(nibble_text_upper(b % 16));
    assert(final(s)@ =~= old(s)@ + hex_byte_upper(b));
}

/// A digit of base 16, in either case.
pub open spec fn is_hex_digit(c: char) -> bool {
    ('0' <= c && c <= '9') || ('a' <= c && c <= 'f') || ('A' <= c && c <= 'F')
}

/// The value of a base-16 digit.
pub open spec fn hex_digit_value(c: char) -> nat {
    if '0' <= c && c <= '9' {
        (c as int - '0' as int) as nat
    } else if 'a' <= c && c <= 'f' {
        (c as int - 'a' as int + 10) as nat
    } else {
        (c as int - 'A' as int + 10) as nat
    }
}

/// The number that a run of base-16 digits writes.
pub open spec fn hex_value(s: Seq<char>) -> nat
    decreases s.len(),
{
    if s.len() == 0 {
        0
    } else {
        hex_value(s.drop_last()) * 16 + hex_digit_value(s.last())
    }
}

/// The length of the run of base-16 digits that starts `s`.
pub open spec fn hex_run(s: Seq<char>) -> nat
    decreases s.len(),
{
    if s.len() > 0 && is_hex_digit(s[0]) {
        1 + hex_run(s.subrange(1, s.len() as int))
    } else {
        0
    }
}

/// The run of base-16 digits that starts `s`.
pub open spec fn leading_hex(s: Seq<char>) -> Seq<char> {
    s.subrange(0, hex_run(s) as int)
}

/// A longer run of digits never writes a smaller number.
pub proof fn lemma_hex_value_grows(s: Seq<char>, n: int)
    requires
        0 <= n <= s.len(),
    ensures
        hex_value(s.subrange(0, n)) <= hex_value(s),
    decreases s.len() - n,
{
    if n < s.len() {
        lemma_hex_value_grows(s, n + 1);
        assert(s.subrange(0, n + 1).drop_last() =~= s.subrange(0, n));
    } else {
        assert(s.subrange(0, n) =~= s);
    }
}

proof fn lemma_hex_run_bound(s: Seq<char>)
    ensures
        hex_run(s) <= s.len(),
    decreases s.len(),
{
    if s.len() > 0 && is_hex_digit(s[0]) {
        lemma_hex_run_bound(s.subrange(1, s.len() as int));
    }
}

/// The end of the run of base-16 digits that starts at `lo` within `v[lo..hi]`.
pub fn hex_run_end(v: &Vec<char>, lo: usize, hi: usize) -> (r: usize)
    requires
        lo <= hi <= v.len(),
    ensures
        lo <= r <= hi,
        v@.subrange(lo as int, r as int) == leading_hex(v@.subrange(lo as int, hi as int)),
        forall|j: int| lo <= j < r ==> is_hex_digit(#[trigger] v@[j]),
{
    let mut i = lo;
    while i < hi && (('0' <= v[i] && v[i] <= '9') || ('a' <= v[i] && v[i] <= 'f') || ('A' <= v[i]
        && v[i] <= 'F'))
        invariant
            lo <= i <= hi <= v.len(),
            forall|j: int| lo <= j < i ==> is_hex_digit(#[trigger] v@[j]),
            hex_run(v@.subrange(lo as int, hi as int)) == (i - lo) + hex_run(
                v@.subrange(i as int, hi as int),
            ),
        decreases hi - i,
    {
        assert(v@.subrange(i as int, hi as int).subrange(1, (hi - i) as int) =~= v@.subrange(
            i + 1,
            hi as int,
        ));
        i += 1;
    }
    proof {
        lemma_hex_run_bound(v@.subrange(lo as int, hi as int));
        assert(v@.subrange(lo as int, i as int) =~= v@.subrange(lo as int, hi as int).subrange(
            0,
            hex_run(v@.subrange(lo as int, hi as int)) as int,
        ));
    }
    i
}

/// The number that the base-16 digits `v[lo..hi]` write, when it fits in a
/// `u32`.
pub fn parse_hex_u32(v: &Vec<char>, lo: usize, hi: usize) -> (r: Option<u32>)
    requires
        lo <= hi <= v.len(),
        forall|j: int| lo <= j < hi ==> is_hex_digit(#[trigger] v@[j]),
    ensures
        r is Some <==> hex_value(v@.subrange(lo as int, hi as int)) <= u32::MAX,
        r is Some ==> r->Some_0 == hex_value(v@.subrange(lo as int, hi as int)),
{
    let ghost whole = v@.subrange(lo as int, hi as int);
    let mut acc: u64 = 0;
    let mut i = lo;
    while i < hi
        invariant
            lo <= i <= hi <= v.len(),
            whole == v@.subrange(lo as int, hi as int),
            forall|j: int| lo <= j < hi ==> is_hex_digit(#[trigger] v@[j]),
            acc == hex_value(v@.subrange(lo as int, i as int)),
            acc <= u32::MAX,
        decreases hi - i,
    {
        let c = v[i];
        let d: u64 = if '0' <= c && c <= '9' {
            (c as u64) - ('0' as u64)
        } else if 'a' <= c && c <= 'f' {
            (c as u64) - ('a' as u64) + 10
        } else {
            (c as u64) - ('A' as u64) + 10
        };
        assert(v@.subrange(lo as int, i + 1).drop_last() =~= v@.subrange(lo as int, i as int));
        acc = acc * 16 + d;
        i += 1;
        if acc > 0xFFFF_FFFF {
            proof {
                assert(whole.subrange(0, i - lo) =~= v@.subrange(lo as int, i as int));
                lemma_hex_value_grows(whole, i - lo);
            }
            return None;
        }
    }
    Some(acc as u32)
}

} // verus!
