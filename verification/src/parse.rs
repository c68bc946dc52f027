//! Verified parsing of the textual value formats that appear in the
//! configuration: hex-encoded byte strings (the auxiliary record field, packet
//! payloads, node identifiers, private keys) and decimal sequence numbers.

use vstd::prelude::*;

verus! {

/// A character is a hex digit: `0-9`, `a-f` or `A-F`.
pub open spec fn is_hex_digit(c: char) -> bool {
    ('0' as u32 <= c as u32 && c as u32 <= '9' as u32)
    || ('a' as u32 <= c as u32 && c as u32 <= 'f' as u32)
    || ('A' as u32 <= c as u32 && c as u32 <= 'F' as u32)
}

/// Numeric value of a hex digit.
pub open spec fn hex_digit_value(c: char) -> int
    recommends
        is_hex_digit(c),
{
    if '0' as u32 <= c as u32 && c as u32 <= '9' as u32 {
        c as u32 - '0' as u32
    } else if 'a' as u32 <= c as u32 && c as u32 <= 'f' as u32 {
        c as u32 - 'a' as u32 + 10
    } else {
        c as u32 - 'A' as u32 + 10
    }
}

/// A whole string is valid hex: even length, every character a hex digit.
pub open spec fn is_hex_string(s: Seq<char>) -> bool {
    s.len() % 2 == 0 && forall|i: int| 0 <= i < s.len() ==> is_hex_digit(#[trigger] s[i])
}

/// The byte encoded by the `i`-th digit pair of `s`.
pub open spec fn hex_byte_at(s: Seq<char>, i: int) -> u8
    recommends
        0 <= i < s.len() / 2,
{
    (16 * hex_digit_value(s[2 * i]) + hex_digit_value(s[2 * i + 1])) as u8
}

/// The bytes a hex string decodes to: one byte per digit pair.
pub open spec fn spec_hex_decode(s: Seq<char>) -> Seq<u8> {
    Seq::new((s.len() / 2) as nat, |i: int| hex_byte_at(s, i))
}

/// Numeric value of a hex digit, or `None` for any other character.
fn hex_value(c: char) -> (r: Option<u8>)
    ensures
        r is Some <==> is_hex_digit(c),
        r matches Some(v) ==> v == hex_digit_value(c) && v < 16,
{
    let u: u32 = c as u32;
    if 48 <= u && u <= 57 {
        Some((u - 48) as u8)
    } else if 97 <= u && u <= 102 {
        Some((u - 97 + 10) as u8)
    } else if 65 <= u && u <= 70 {
        Some((u - 65 + 10) as u8)
    } else {
        None
    }
}

/// Decodes a hex string to bytes. Returns `None` exactly when the string has
/// odd length or holds a character that is not a hex digit.
pub fn hex_decode(s: &str) -> (r: Option<Vec<u8>>)
    ensures
        r is Some <==> is_hex_string(s@),
        r matches Some(v) ==> v@ == spec_hex_decode(s@),
{
    let n: usize = s.unicode_len();
    if n % 2 != 0 {
        return None;
    }
    let mut out: Vec<u8> = Vec::new();
    let mut i: usize = 0;
    while i < n
        invariant
            n == s@.len(),
            n % 2 == 0,
            i % 2 == 0,
            i <= n,
            out@.len() == i / 2,
            forall|k: int| 0 <= k < i ==> is_hex_digit(#[trigger] s@[k]),
            forall|j: int| 0 <= j < i / 2 ==> out@[j] == hex_byte_at(s@, j),
        decreases n - i,
    {
        let c0: char = s.get_char(i);
        let c1: char = s.get_char(i + 1);
        let v0 = match hex_value(c0) {
            Some(v) => v,
            None => {
                assert(!is_hex_digit(s@[i as int]));
                return None;
            },
        };
        let v1 = match hex_value(c1) {
            Some(v) => v,
            None => {
                assert(!is_hex_digit(s@[i + 1]));
                return None;
            },
        };
        out.push(16 * v0 + v1);
        i = i + 2;
    }
    assert(out@ =~= spec_hex_decode(s@));
    Some(out)
}

/// A character is a decimal digit.
pub open spec fn is_dec_digit(c: char) -> bool {
    '0' as u32 <= c as u32 && c as u32 <= '9' as u32
}

/// Numeric value of a decimal digit.
pub open spec fn dec_digit_value(c: char) -> int
    recommends
        is_dec_digit(c),
{
    c as u32 - '0' as u32
}

/// The digit portion of a decimal literal: an optional single leading `+`
/// sign is dropped, as Rust's own unsigned-integer parser does.
pub open spec fn dec_digits(s: Seq<char>) -> Seq<char> {
    if s.len() > 0 && s[0] == '+' {
        s.skip(1)
    } else {
        s
    }
}

/// A string is a decimal unsigned-integer literal: an optional leading `+`
/// followed by one or more decimal digits.
pub open spec fn is_dec_string(s: Seq<char>) -> bool {
    let d = dec_digits(s);
    d.len() > 0 && forall|i: int| 0 <= i < d.len() ==> is_dec_digit(#[trigger] d[i])
}

/// The value of a digit string, most significant digit first.
pub open spec fn dec_value(d: Seq<char>) -> int
    decreases d.len(),
{
    if d.len() == 0 {
        0
    } else {
        10 * dec_value(d.drop_last()) + dec_digit_value(d.last())
    }
}

/// Parses a decimal `u64` literal (optionally `+`-signed, as `str::parse`
/// accepts). Returns `None` exactly when the string is not such a literal or
/// its value does not fit in a `u64`.
pub fn parse_u64(s: &str) -> (r: Option<u64>)
    ensures
        r is Some <==> is_dec_string(s@) && dec_value(dec_digits(s@)) <= u64::MAX,
        r matches Some(v) ==> v == dec_value(dec_digits(s@)),
{
    let n: usize = s.unicode_len();
    let mut i: usize = 0;
    if n > 0 && s.get_char(0) == '+' {
        i = 1;
    }
    let ghost d = dec_digits(s@);
    let ghost off = i as int;
    assert(d =~= s@.skip(off));
    if i >= n {
        return None;
    }
    let mut acc: u64 = 0;
    while i < n
        invariant
            n == s@.len(),
            off <= i <= n,
            off == 0 || off == 1,
            d == dec_digits(s@),
            d == s@.skip(off),
            d.len() == n - off,
            forall|k: int| 0 <= k < i - off ==> is_dec_digit(#[trigger] d[k]),
            acc == dec_value(d.take(i - off)),
        decreases n - i,
    {
        let c: char = s.get_char(i);
        let u: u32 = c as u32;
        if !(48 <= u && u <= 57) {
            assert(!is_dec_digit(d[i - off]));
            return None;
        }
        let v: u8 = (u - 48) as u8;
        let next = match acc.checked_mul(10) {
            Some(m) => m.checked_add(v as u64),
            None => None,
        };
        acc = match next {
            Some(a) => a,
            None => {
                proof {
                    assert(d.take(i - off + 1).drop_last() =~= d.take(i - off));
                    assert(d.take(i - off + 1).last() == d[i - off]);
                    assert(dec_value(d.take(i - off + 1)) > u64::MAX);
                    lemma_dec_value_prefix_full(d, i - off + 1);
                }
                return None;
            },
        };
        proof {
            assert(d.take(i - off + 1).drop_last() =~= d.take(i - off));
            assert(d.take(i - off + 1).last() == d[i - off]);
        }
        i = i + 1;
    }
    assert(d.take(n - off) =~= d);
    Some(acc)
}

/// Helper: once some prefix of an (all-digit) string exceeds `u64::MAX`, the
/// whole string does too.
proof fn lemma_dec_value_prefix_full(d: Seq<char>, j: int)
    requires
        0 <= j <= d.len(),
        forall|i: int| 0 <= i < j ==> is_dec_digit(#[trigger] d[i]),
        dec_value(d.take(j)) > u64::MAX,
    ensures
        !(forall|i: int| 0 <= i < d.len() ==> is_dec_digit(#[trigger] d[i]))
            || dec_value(d) > u64::MAX,
{
    if forall|i: int| 0 <= i < d.len() ==> is_dec_digit(#[trigger] d[i]) {
        lemma_dec_value_step(d, j);
    }
}

/// Helper: the value of an all-digit string is never negative.
proof fn lemma_dec_value_nonneg(d: Seq<char>)
    requires
        forall|i: int| 0 <= i < d.len() ==> is_dec_digit(#[trigger] d[i]),
    ensures
        dec_value(d) >= 0,
    decreases d.len(),
{
    if d.len() > 0 {
        lemma_dec_value_nonneg(d.drop_last());
        assert(is_dec_digit(d.last()));
    }
}

/// The comma-separated pieces of `s` from position `i` on, the piece under
/// construction being `cur`: every comma ends a piece, and the final piece is
/// what remains — so the empty string has the single empty piece, as Rust's
/// own splitter has it.
pub open spec fn split_from(s: Seq<char>, i: int, cur: Seq<char>) -> Seq<Seq<char>>
    decreases s.len() - i,
{
    if i < 0 || i >= s.len() {
        seq![cur]
    } else if s[i] == ',' {
        seq![cur] + split_from(s, i + 1, Seq::empty())
    } else {
        split_from(s, i + 1, cur.push(s[i]))
    }
}

/// The comma-separated pieces of a string.
pub open spec fn spec_split(s: Seq<char>) -> Seq<Seq<char>> {
    split_from(s, 0, Seq::empty())
}

/// Splits a string at commas, exactly as `str::split(',')` does: one piece
/// per comma-free run, empty pieces included.
pub fn split_commas<'a>(s: &'a str) -> (r: Vec<&'a str>)
    ensures
        r@.map_values(|p: &'a str| p@) == spec_split(s@),
{
    let n: usize = s.unicode_len();
    let mut parts: Vec<&'a str> = Vec::new();
    let mut start: usize = 0;
    let mut i: usize = 0;
    proof {
        assert(s@.subrange(0, 0) =~= Seq::<char>::empty());
        assert(parts@.map_values(|p: &'a str| p@) =~= Seq::<Seq<char>>::empty());
        assert(Seq::<Seq<char>>::empty() + split_from(s@, 0, Seq::empty()) =~= split_from(
            s@,
            0,
            Seq::empty(),
        ));
    }
    while i < n
        invariant
            n == s@.len(),
            start <= i <= n,
            spec_split(s@) == parts@.map_values(|p: &'a str| p@) + split_from(
                s@,
                i as int,
                s@.subrange(start as int, i as int),
            ),
        decreases n - i,
    {
        let c: char = s.get_char(i);
        if c == ',' {
            let piece = s.substring_char(start, i);
            proof {
                let ghost views = parts@.map_values(|p: &'a str| p@);
                assert(parts@.push(piece).map_values(|p: &'a str| p@) =~= views.push(piece@));
                assert(seq![s@.subrange(start as int, i as int)] + split_from(
                    s@,
                    i + 1,
                    Seq::empty(),
                ) =~= views.push(piece@).skip(views.len() as int) + split_from(
                    s@,
                    i + 1,
                    Seq::empty(),
                ));
            }
            parts.push(piece);
            start = i + 1;
            proof {
                assert(s@.subrange(start as int, i + 1) =~= Seq::<char>::empty());
                assert(spec_split(s@) =~= parts@.map_values(|p: &'a str| p@) + split_from(
                    s@,
                    i + 1,
                    s@.subrange(start as int, i + 1),
                ));
            }
        } else {
            proof {
                assert(s@.subrange(start as int, i + 1) =~= s@.subrange(start as int, i as int).push(
                    s@[i as int],
                ));
            }
        }
        i = i + 1;
    }
    let piece = s.substring_char(start, n);
    proof {
        let ghost views = parts@.map_values(|p: &'a str| p@);
        assert(split_from(s@, n as int, s@.subrange(start as int, n as int)) =~= seq![piece@]);
        assert(parts@.push(piece).map_values(|p: &'a str| p@) =~= views.push(piece@));
        assert(views + seq![piece@] =~= views.push(piece@));
    }
    parts.push(piece);
    parts
}

/// Helper: for an all-digit string, the value of any prefix bounds the value
/// of the whole from below.
proof fn lemma_dec_value_step(d: Seq<char>, j: int)
    requires
        0 <= j <= d.len(),
        forall|i: int| 0 <= i < d.len() ==> is_dec_digit(#[trigger] d[i]),
    ensures
        dec_value(d) >= dec_value(d.take(j)),
    decreases d.len() - j,
{
    if j < d.len() {
        lemma_dec_value_step(d, j + 1);
        assert(d.take(j + 1).drop_last() =~= d.take(j));
        assert(is_dec_digit(d.take(j + 1).last()));
        assert(forall|i: int| 0 <= i < j ==> is_dec_digit(#[trigger] d.take(j)[i]));
        lemma_dec_value_nonneg(d.take(j));
        assert(dec_value(d.take(j + 1)) >= dec_value(d.take(j)));
    } else {
        assert(d.take(j) =~= d);
    }
}

} // verus!
