//! The wire protocol: tagged string messages carrying a whole board or a
//! single-cell change.
//!
//! Tags `j` and `n` carry `<clues>SPLIT<cells>`; tags `u` and `c` carry
//! `<index>,<cell>` with the cell one of `0`, `1`, `X`.

use vstd::prelude::*;
use vstd::std_specs::iter::IteratorSpec;
use crate::cell::{CellState, char_state, from_char, state_char, to_char};

verus! {

/// The characters of `s` in order.
pub(crate) fn chars_of(s: &str) -> (r: Vec<char>)
    ensures
        r@ == s@,
{
    broadcast use vstd::string::group_string_axioms;

    let mut it = s.chars();
    let mut out: Vec<char> = Vec::new();
    loop
        invariant
            out@ + it.remaining() == s@,
            it.decrease() is Some,
        ensures
            out@ == s@,
        decreases it.decrease()->0,
    {
        match it.next() {
            Some(c) => {
                out.push(c);
            },
            None => {
                assert(it.remaining().len() == 0);
                assert(out@ =~= out@ + it.remaining());
                break;
            },
        }
    }
    out
}

/// Relies on `String`'s `FromIterator<&char>`: the string of the characters of `v` in order.
#[verifier::external_body]
pub(crate) fn string_of(v: &Vec<char>) -> (r: String)
    ensures
        r@ == v@,
{
    v.iter().collect()
}

/// A decoded inbound message.
#[derive(Debug)]
pub enum SyncMessage {
    /// Swap the whole board: clue text and cells text.
    Replace { clues: String, cells: Vec<char> },
    /// Set the cell at row-major position `index`.
    Delta { index: u64, cell: CellState },
    /// A known tag whose payload does not have the protocol's shape.
    Malformed,
    /// A tag the protocol does not know.
    Unknown,
}

pub open spec fn delimiter() -> Seq<char> {
    seq!['S', 'P', 'L', 'I', 'T']
}

pub open spec fn delimiter_at(s: Seq<char>, i: int) -> bool {
    0 <= i && i + 5 <= s.len() && s.subrange(i, i + 5) == delimiter()
}

/// First position at or after `start` where the delimiter begins, or the
/// length of `s` if there is none.
pub open spec fn find_delimiter(s: Seq<char>, start: int) -> int
    decreases s.len() - start,
{
    if start < 0 || start + 5 > s.len() {
        s.len() as int
    } else if delimiter_at(s, start) {
        start
    } else {
        find_delimiter(s, start + 1)
    }
}

/// The clues section of a replace payload: everything before the first
/// delimiter.
pub open spec fn clues_section(p: Seq<char>) -> Seq<char> {
    p.subrange(0, find_delimiter(p, 0))
}

/// The cells section of a replace payload: what stands between the first
/// delimiter and the next one (or the end); empty without a delimiter.
pub open spec fn cells_section(p: Seq<char>) -> Seq<char> {
    let k = find_delimiter(p, 0);
    if k == p.len() {
        Seq::empty()
    } else {
        p.subrange(k + 5, find_delimiter(p, k + 5))
    }
}

proof fn lemma_find_delimiter_range(s: Seq<char>, start: int)
    requires
        0 <= start,
    ensures
        find_delimiter(s, start) == s.len() || (start <= find_delimiter(s, start) && delimiter_at(
            s,
            find_delimiter(s, start),
        )),
        find_delimiter(s, start) <= s.len(),
    decreases s.len() - start,
{
    if start + 5 <= s.len() && !delimiter_at(s, start) {
        lemma_find_delimiter_range(s, start + 1);
    }
}

fn delimiter_at_exec(s: &Vec<char>, i: usize) -> (r: bool)
    ensures
        r == delimiter_at(s@, i as int),
{
    if i > s.len() || s.len() - i < 5 {
        return false;
    }
    let r = s[i] == 'S' && s[i + 1] == 'P' && s[i + 2] == 'L' && s[i + 3] == 'I' && s[i + 4]
        == 'T';
    assert(r == (s@.subrange(i as int, i + 5) =~= delimiter()));
    r
}

fn find_delimiter_exec(s: &Vec<char>, start: usize) -> (r: usize)
    requires
        start <= s@.len(),
    ensures
        r == find_delimiter(s@, start as int),
{
    let mut i = start;
    while i < s.len() && !delimiter_at_exec(s, i)
        invariant
            start <= i <= s@.len(),
            find_delimiter(s@, start as int) == find_delimiter(s@, i as int),
        decreases s.len() - i,
    {
        assert(i + 5 > s@.len() ==> find_delimiter(s@, i as int) == s@.len());
        if s.len() - i < 5 {
            i = s.len();
        } else {
            i += 1;
        }
    }
    i
}

fn copy_range(s: &Vec<char>, from: usize, to: usize) -> (r: Vec<char>)
    requires
        from <= to <= s@.len(),
    ensures
        r@ == s@.subrange(from as int, to as int),
{
    let mut out: Vec<char> = Vec::new();
    let mut i = from;
    while i < to
        invariant
            from <= i <= to <= s@.len(),
            out@ == s@.subrange(from as int, i as int),
        decreases to - i,
    {
        out.push(s[i]);
        i += 1;
        assert(out@ =~= s@.subrange(from as int, i as int));
    }
    out
}

pub open spec fn is_digit(ch: char) -> bool {
    48 <= (ch as u32) <= 57
}

pub open spec fn digit_value(ch: char) -> nat {
    ((ch as u32) - 48) as nat
}

pub open spec fn all_digits(s: Seq<char>) -> bool {
    forall|i: int| 0 <= i < s.len() ==> is_digit(#[trigger] s[i])
}

/// The number that a string of decimal digits spells.
pub open spec fn digits_value(s: Seq<char>) -> nat
    decreases s.len(),
{
    if s.len() == 0 {
        0
    } else {
        digits_value(s.drop_last()) * 10 + digit_value(s.last())
    }
}

/// The decimal spelling of `n`, without leading zeros.
pub open spec fn decimal(n: nat) -> Seq<char>
    decreases n,
{
    if n < 10 {
        seq![digit_char(n)]
    } else {
        decimal(n / 10).push(digit_char(n % 10))
    }
}

pub open spec fn digit_char(d: nat) -> char {
    if d == 0 {
        '0'
    } else if d == 1 {
        '1'
    } else if d == 2 {
        '2'
    } else if d == 3 {
        '3'
    } else if d == 4 {
        '4'
    } else if d == 5 {
        '5'
    } else if d == 6 {
        '6'
    } else if d == 7 {
        '7'
    } else if d == 8 {
        '8'
    } else {
        '9'
    }
}

/// The index and cell of a delta payload `<digits>,<cell>`, if it has that
/// shape and the index fits in 64 bits.
pub open spec fn parse_delta_spec(p: Seq<char>) -> Option<(u64, CellState)> {
    if p.len() >= 3 && p[p.len() - 2] == ',' && char_state(p.last()) is Some && all_digits(
        p.subrange(0, p.len() - 2),
    ) && digits_value(p.subrange(0, p.len() - 2)) <= u64::MAX {
        Some(
            (
                digits_value(p.subrange(0, p.len() - 2)) as u64,
                char_state(p.last())->Some_0,
            ),
        )
    } else {
        None
    }
}

proof fn lemma_digits_prefix_le(s: Seq<char>, i: int)
    requires
        0 <= i <= s.len(),
    ensures
        digits_value(s.subrange(0, i)) <= digits_value(s),
    decreases s.len() - i,
{
    if i < s.len() {
        lemma_digits_prefix_le(s.drop_last(), i);
        assert(s.drop_last().subrange(0, i) =~= s.subrange(0, i));
    } else {
        assert(s.subrange(0, i) =~= s);
    }
}

fn parse_delta(p: &Vec<char>) -> (r: Option<(u64, CellState)>)
    ensures
        r == parse_delta_spec(p@),
{
    let n = p.len();
    if n < 3 || p[n - 2] != ',' {
        return None;
    }
    let cell = match from_char(p[n - 1]) {
        Some(c) => c,
        None => {
            return None;
        },
    };
    let ghost digits = p@.subrange(0, n - 2);
    let mut v: u64 = 0;
    let mut i: usize = 0;
    while i < n - 2
        invariant
            n == p@.len(),
            n >= 3,
            i <= n - 2,
            digits == p@.subrange(0, n - 2),
            all_digits(digits.subrange(0, i as int)),
            v == digits_value(digits.subrange(0, i as int)),
        decreases n - 2 - i,
    {
        let ch = p[i];
        assert(digits.subrange(0, i + 1).drop_last() =~= digits.subrange(0, i as int));
        if !((ch as u32) >= 48 && (ch as u32) <= 57) {
            assert(!is_digit(digits[i as int]));
            return None;
        }
        let dv = (ch as u32 - 48) as u64;
        if v > (u64::MAX - dv) / 10 {
            proof {
                lemma_digits_prefix_le(digits, i + 1);
            }
            assert(digits_value(digits) > u64::MAX) by (nonlinear_arith)
                requires v > (u64::MAX - dv) / 10, digits_value(digits.subrange(0, i + 1)) == v * 10 + dv,
                digits_value(digits.subrange(0, i + 1)) <= digits_value(digits), 0 <= dv <= 9;
            return None;
        }
        v = v * 10 + dv;
        i += 1;
        assert(all_digits(digits.subrange(0, i as int)));
    }
    assert(digits.subrange(0, n - 2) =~= digits);
    Some((v, cell))
}

pub open spec fn tag_is(t: Seq<char>, a: char, b: char) -> bool {
    t == seq![a] || t == seq![b]
}

fn tag_is_exec(t: &Vec<char>, a: char, b: char) -> (r: bool)
    ensures
        r == tag_is(t@, a, b),
{
    let r = t.len() == 1 && (t[0] == a || t[0] == b);
    assert(t.len() == 1 ==> (t@ =~= seq![t@[0]]));
    r
}

/// Decode an inbound `(tag, payload)` message.
pub fn decode_message(tag: &str, payload: &str) -> (r: SyncMessage)
    ensures
        tag_is(tag@, 'j', 'n') <==> r is Replace,
        r matches SyncMessage::Replace { clues, cells } ==> clues@ == clues_section(payload@)
            && cells@ == cells_section(payload@),
        !tag_is(tag@, 'j', 'n') && tag_is(tag@, 'u', 'c') ==> r == match parse_delta_spec(
            payload@,
        ) {
            Some((index, cell)) => SyncMessage::Delta { index, cell },
            None => SyncMessage::Malformed,
        },
        !tag_is(tag@, 'j', 'n') && !tag_is(tag@, 'u', 'c') ==> r is Unknown,
{
    let t = chars_of(tag);
    let p = chars_of(payload);
    if tag_is_exec(&t, 'j', 'n') {
        let k = find_delimiter_exec(&p, 0);
        proof {
            lemma_find_delimiter_range(p@, 0);
        }
        let clues = string_of(&copy_range(&p, 0, k));
        let cells = if k == p.len() {
            Vec::new()
        } else {
            let k2 = find_delimiter_exec(&p, k + 5);
            proof {
                lemma_find_delimiter_range(p@, k + 5);
            }
            copy_range(&p, k + 5, k2)
        };
        proof {
            if k == p@.len() {
                assert(cells@ =~= cells_section(payload@));
            }
        }
        SyncMessage::Replace { clues, cells }
    } else if tag_is_exec(&t, 'u', 'c') {
        match parse_delta(&p) {
            Some((index, cell)) => SyncMessage::Delta { index, cell },
            None => SyncMessage::Malformed,
        }
    } else {
        SyncMessage::Unknown
    }
}

fn push_decimal(n: u64, out: &mut Vec<char>)
    ensures
        final(out)@ == old(out)@ + decimal(n as nat),
    decreases n,
{
    if n >= 10 {
        push_decimal(n / 10, out);
    }
    let d = n % 10;
    let ch = if d == 0 {
        '0'
    } else if d == 1 {
        '1'
    } else if d == 2 {
        '2'
    } else if d == 3 {
        '3'
    } else if d == 4 {
        '4'
    } else if d == 5 {
        '5'
    } else if d == 6 {
        '6'
    } else if d == 7 {
        '7'
    } else if d == 8 {
        '8'
    } else {
        '9'
    };
    out.push(ch);
    assert(n < 10 ==> n % 10 == n);
}

/// The payload `<index>,<cell>` of a delta.
pub open spec fn delta_payload(index: u64, cell: CellState) -> Seq<char> {
    decimal(index as nat) + seq![',', state_char(cell)]
}

proof fn lemma_decimal_value(n: nat)
    ensures
        all_digits(decimal(n)),
        digits_value(decimal(n)) == n,
        decimal(n).len() >= 1,
    decreases n,
{
    if n >= 10 {
        lemma_decimal_value(n / 10);
        let s = decimal(n / 10);
        let d = n % 10;
        assert(s.push(digit_char(d)).drop_last() =~= s);
        assert(is_digit(digit_char(d)) && digit_value(digit_char(d)) == d);
        vstd::arithmetic::div_mod::lemma_fundamental_div_mod(n as int, 10);
        assert(digits_value(s.push(digit_char(d))) == digits_value(s) * 10 + d);
        assert((n / 10) * 10 + d == n) by (nonlinear_arith)
            requires n == 10 * (n / 10) + n % 10, d == n % 10;
        assert(decimal(n) == s.push(digit_char(d)));
        assert(digits_value(decimal(n)) == n);
        assert(all_digits(s.push(digit_char(d)))) by {
            assert forall|i: int| 0 <= i < s.len() + 1 implies is_digit(
                #[trigger] s.push(digit_char(d))[i],
            ) by {
                if i < s.len() {
                    assert(is_digit(s[i]));
                }
            }
        }
    } else {
        assert(seq![digit_char(n)].drop_last() =~= Seq::<char>::empty());
        assert(digit_value(digit_char(n)) == n);
        let one = seq![digit_char(n)];
        assert(one.last() == digit_char(n));
        assert(digits_value(one.drop_last()) == 0);
        assert(digits_value(one) == digit_value(digit_char(n)));
    }
}

/// A delta decodes to exactly what was encoded: parsing the payload of
/// `(index, cell)` gives back `index` and `cell`.
pub proof fn lemma_delta_round_trip(index: u64, cell: CellState)
    ensures
        parse_delta_spec(delta_payload(index, cell)) == Some((index, cell)),
{
    lemma_decimal_value(index as nat);
    let dec = decimal(index as nat);
    let p = delta_payload(index, cell);
    assert(p.subrange(0, p.len() - 2) =~= dec);
    assert(p[p.len() - 2] == ',');
    assert(p.last() == state_char(cell));
}

/// Encode a single-cell change as the `(tag, payload)` pair `("c", "<index>,<cell>")`.
pub fn encode_delta(index: u64, cell: CellState) -> (r: (String, String))
    ensures
        r.0@ == seq!['c'],
        r.1@ == delta_payload(index, cell),
{
    let mut tag: Vec<char> = Vec::new();
    tag.push('c');
    let mut p: Vec<char> = Vec::new();
    push_decimal(index, &mut p);
    p.push(',');
    p.push(to_char(cell));
    assert(p@ =~= delta_payload(index, cell));
    assert(tag@ =~= seq!['c']);
    (string_of(&tag), string_of(&p))
}

} // verus!
