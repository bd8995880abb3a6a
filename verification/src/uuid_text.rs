//! The hyphenated text form of 128-bit identifiers, verified in both
//! directions: formatting an id and parsing one back are inverse operations.
//!
//! An id renders as 32 hexadecimal digits in five groups of 8-4-4-4-12,
//! most significant digit first. Parsing accepts either letter case;
//! formatting emits lower case.
use vstd::prelude::*;

verus! {

/// The numeric value of a hexadecimal digit, or 16 for any other character.
pub open spec fn hex_value(c: char) -> int {
    let v = c as int;
    if 48 <= v <= 57 {
        v - 48
    } else if 97 <= v <= 102 {
        v - 87
    } else if 65 <= v <= 70 {
        v - 55
    } else {
        16
    }
}

/// Whether `c` is a hexadecimal digit, in either case.
pub open spec fn is_hex_digit(c: char) -> bool {
    hex_value(c) < 16
}

/// Whether `c` is a lower-case hexadecimal digit.
pub open spec fn is_lower_hex(c: char) -> bool {
    let v = c as int;
    (48 <= v <= 57) || (97 <= v <= 102)
}

/// Whether every character of `s` is a hexadecimal digit.
pub open spec fn all_hex(s: Seq<char>) -> bool {
    forall|i: int| 0 <= i < s.len() ==> is_hex_digit(s[i])
}

/// Sixteen to the power `k`.
pub open spec fn pow16(k: nat) -> int
    decreases k,
{
    if k == 0 {
        1
    } else {
        16 * pow16((k - 1) as nat)
    }
}

/// The value of a sequence of hexadecimal digits, most significant first.
pub open spec fn hex_seq_value(s: Seq<char>) -> int
    decreases s.len(),
{
    if s.len() == 0 {
        0
    } else {
        hex_seq_value(s.drop_last()) * 16 + hex_value(s.last())
    }
}

/// The value of a sequence of nibbles, least significant first.
pub open spec fn nibbles_value(s: Seq<u8>) -> int
    decreases s.len(),
{
    if s.len() == 0 {
        0
    } else {
        s[0] + 16 * nibbles_value(s.drop_first())
    }
}

pub proof fn lemma_pow16_pos(k: nat)
    ensures
        pow16(k) >= 1,
    decreases k,
{
    if k > 0 {
        lemma_pow16_pos((k - 1) as nat);
    }
}

pub proof fn lemma_pow16_mono(a: nat, b: nat)
    requires
        a <= b,
    ensures
        pow16(a) <= pow16(b),
    decreases b,
{
    if a < b {
        lemma_pow16_mono(a, (b - 1) as nat);
        lemma_pow16_pos((b - 1) as nat);
    }
}

/// A sequence of hexadecimal digits encodes a value below 16^len.
pub proof fn lemma_hex_seq_value_bound(s: Seq<char>)
    requires
        all_hex(s),
    ensures
        0 <= hex_seq_value(s) < pow16(s.len()),
    decreases s.len(),
{
    if s.len() > 0 {
        assert(all_hex(s.drop_last())) by {
            assert(forall|i: int|
                0 <= i < s.drop_last().len() ==> s.drop_last()[i] == s[i] && is_hex_digit(s[i]));
        }
        lemma_hex_seq_value_bound(s.drop_last());
        assert(is_hex_digit(s.last())) by {
            assert(s[s.len() - 1] == s.last());
        }
    }
}

/// Reading digits most significant first gives the same value as reading the
/// reversed nibbles least significant first.
pub proof fn lemma_rev_value(chars: Seq<char>, nibbles: Seq<u8>)
    requires
        chars.len() == nibbles.len(),
        forall|t: int|
            0 <= t < chars.len() ==> hex_value(chars[t]) == nibbles[chars.len() - 1 - t] as int,
    ensures
        hex_seq_value(chars) == nibbles_value(nibbles),
    decreases chars.len(),
{
    if chars.len() > 0 {
        let n = chars.len() as int;
        assert forall|t: int| 0 <= t < n - 1 implies hex_value(chars.drop_last()[t])
            == nibbles.drop_first()[n - 2 - t] as int by {
            assert(chars.drop_last()[t] == chars[t]);
            assert(nibbles.drop_first()[n - 2 - t] == nibbles[n - 1 - t]);
        }
        lemma_rev_value(chars.drop_last(), nibbles.drop_first());
        assert(hex_value(chars.last()) == nibbles[0] as int) by {
            assert(chars[n - 1] == chars.last());
        }
    }
}

/// The digit positions of a 36-character hyphenated id string.
pub open spec fn uuid_digits(s: Seq<char>) -> Seq<char> {
    s.subrange(0, 8) + s.subrange(9, 13) + s.subrange(14, 18) + s.subrange(19, 23) + s.subrange(
        24,
        36,
    )
}

/// Whether `s` is a hyphenated text form of the identifier `n`.
pub open spec fn is_uuid_repr(s: Seq<char>, n: u128) -> bool {
    &&& s.len() == 36
    &&& s[8] == '-'
    &&& s[13] == '-'
    &&& s[18] == '-'
    &&& s[23] == '-'
    &&& all_hex(uuid_digits(s))
    &&& hex_seq_value(uuid_digits(s)) == n
}

/// The digits among the first `i` characters of a partially read id string.
pub open spec fn collected_digits(s: Seq<char>, i: int) -> Seq<char> {
    if i <= 8 {
        s.subrange(0, i)
    } else if i <= 13 {
        s.subrange(0, 8) + s.subrange(9, i)
    } else if i <= 18 {
        s.subrange(0, 8) + s.subrange(9, 13) + s.subrange(14, i)
    } else if i <= 23 {
        s.subrange(0, 8) + s.subrange(9, 13) + s.subrange(14, 18) + s.subrange(19, i)
    } else {
        s.subrange(0, 8) + s.subrange(9, 13) + s.subrange(14, 18) + s.subrange(19, 23)
            + s.subrange(24, i)
    }
}

/// Whether position `i` of the text form holds a group separator.
pub open spec fn is_hyphen_pos(i: int) -> bool {
    i == 8 || i == 13 || i == 18 || i == 23
}

proof fn lemma_collected_step(s: Seq<char>, i: int)
    requires
        0 <= i < 36,
        i < s.len(),
    ensures
        is_hyphen_pos(i) ==> collected_digits(s, i + 1) =~= collected_digits(s, i),
        !is_hyphen_pos(i) ==> collected_digits(s, i + 1) =~= collected_digits(s, i).push(s[i]),
{
}

/// 16^32 is one more than the largest 128-bit value.
proof fn lemma_pow16_32()
    ensures
        pow16(32) == 0x1_0000_0000_0000_0000_0000_0000_0000_0000,
{
    reveal_with_fuel(pow16, 33);
    assert(pow16(32) == 0x1_0000_0000_0000_0000_0000_0000_0000_0000);
}

/// The numeric value of a hexadecimal digit character, or 16 for any other
/// character.
pub fn hex_digit_value(c: char) -> (r: u8)
    ensures
        r as int == hex_value(c),
{
    let v = c as u32;
    if 48 <= v && v <= 57 {
        (v - 48) as u8
    } else if 97 <= v && v <= 102 {
        (v - 87) as u8
    } else if 65 <= v && v <= 70 {
        (v - 55) as u8
    } else {
        16
    }
}

/// The lower-case hexadecimal digit character of a nibble.
pub fn nibble_char(d: u8) -> (c: char)
    requires
        d < 16,
    ensures
        hex_value(c) == d as int,
        is_hex_digit(c),
        is_lower_hex(c),
{
    if d < 10 {
        ((48 + d as u32) as u8) as char
    } else {
        ((87 + d as u32) as u8) as char
    }
}

/// Parse the hyphenated text form of an identifier.
///
/// Returns the encoded value exactly when the string is 36 characters of
/// hexadecimal digits in groups of 8-4-4-4-12; otherwise nothing, and then
/// the string is the text form of no identifier at all.
pub fn parse_uuid(s: &str) -> (r: Option<u128>)
    ensures
        match r {
            Some(n) => is_uuid_repr(s@, n),
            None => forall|m: u128| !is_uuid_repr(s@, m),
        },
{
    let len = s.unicode_len();
    if len != 36 {
        return None;
    }
    let mut acc: u128 = 0;
    let ghost mut digits: Seq<char> = Seq::empty();
    let mut i: usize = 0;
    while i < 36
        invariant
            0 <= i <= 36,
            s@.len() == 36,
            digits =~= collected_digits(s@, i as int),
            all_hex(digits),
            acc as int == hex_seq_value(digits),
            forall|p: int| 0 <= p < i && is_hyphen_pos(p) ==> #[trigger] s@[p] == '-',
        decreases 36 - i,
    {
        let c = s.get_char(i);
        proof {
            lemma_collected_step(s@, i as int);
        }
        if i == 8 || i == 13 || i == 18 || i == 23 {
            if c != '-' {
                proof {
                    assert(forall|m: u128| !is_uuid_repr(s@, m));
                }
                return None;
            }
        } else {
            let v = hex_digit_value(c);
            if v >= 16 {
                proof {
                    assert forall|m: u128| !is_uuid_repr(s@, m) by {
                        if is_uuid_repr(s@, m) {
                            let d = uuid_digits(s@);
                            let idx: int = if i < 8 {
                                i as int
                            } else if i < 13 {
                                i - 1
                            } else if i < 18 {
                                i - 2
                            } else if i < 23 {
                                i - 3
                            } else {
                                i - 4
                            };
                            assert(d[idx] == s@[i as int]);
                            assert(is_hex_digit(d[idx]));
                        }
                    }
                }
                return None;
            }
            proof {
                let next = digits.push(c);
                assert(next.drop_last() =~= digits);
                assert(next.last() == c);
                assert(hex_seq_value(next) == hex_seq_value(digits) * 16 + hex_value(c));
                lemma_hex_seq_value_bound(digits);
                assert(digits.len() <= 31) by {
                    assert(collected_digits(s@, i as int).len() <= i);
                }
                lemma_pow16_mono(digits.len() + 1, 32);
                lemma_pow16_32();
                assert(hex_seq_value(digits) * 16 + 15 < pow16(digits.len() + 1)) by {
                    assert(hex_seq_value(digits) <= pow16(digits.len()) - 1);
                    assert(hex_seq_value(digits) * 16 <= (pow16(digits.len()) - 1) * 16);
                }
            }
            acc = acc * 16 + (v as u128);
            proof {
                digits = digits.push(c);
            }
        }
        i += 1;
    }
    proof {
        assert(digits =~= uuid_digits(s@));
        assert(all_hex(uuid_digits(s@)));
        assert(hex_seq_value(uuid_digits(s@)) == acc as int);
        assert(s@[8] == '-' && s@[13] == '-' && s@[18] == '-' && s@[23] == '-');
        assert(is_uuid_repr(s@, acc));
    }
    Some(acc)
}

/// Render an identifier in its hyphenated text form, lower case.
pub fn uuid_string(n: u128) -> (r: String)
    ensures
        is_uuid_repr(r@, n),
        forall|k: int| 0 <= k < 32 ==> is_lower_hex(#[trigger] uuid_digits(r@)[k]),
{
    let mut m = n;
    let mut nibbles: Vec<u8> = Vec::new();
    let mut j: usize = 0;
    while j < 32
        invariant
            0 <= j <= 32,
            nibbles@.len() == j,
            forall|k: int| 0 <= k < j ==> nibbles@[k] < 16,
            n as int == m as int * pow16(j as nat) + nibbles_value(nibbles@),
            0 <= nibbles_value(nibbles@) < pow16(j as nat),
        decreases 32 - j,
    {
        let d = (m % 16) as u8;
        let ghost prev = nibbles@;
        let ghost m_prev = m as int;
        nibbles.push(d);
        m = m / 16;
        proof {
            lemma_nibbles_push(prev, d);
            lemma_pow16_pos(j as nat);
            assert(m_prev == (m_prev / 16) * 16 + m_prev % 16) by (nonlinear_arith);
            assert(m_prev * pow16(j as nat) == (m_prev / 16) * pow16((j + 1) as nat) + (m_prev % 16)
                * pow16(j as nat)) by (nonlinear_arith)
                requires
                    pow16((j + 1) as nat) == 16 * pow16(j as nat),
                    m_prev == (m_prev / 16) * 16 + m_prev % 16,
            ;
            assert(d as int * pow16(j as nat) == (m_prev % 16) * pow16(j as nat));
            assert(nibbles_value(nibbles@) == nibbles_value(prev) + d * pow16(prev.len() as nat));
            assert(nibbles_value(nibbles@) < pow16((j + 1) as nat)) by (nonlinear_arith)
                requires
                    nibbles_value(nibbles@) == nibbles_value(prev) + d * pow16(j as nat),
                    nibbles_value(prev) < pow16(j as nat),
                    0 <= nibbles_value(prev),
                    d < 16,
                    pow16((j + 1) as nat) == 16 * pow16(j as nat),
                    pow16(j as nat) >= 1,
            ;
        }
        j += 1;
    }
    proof {
        lemma_pow16_32();
        assert(m as int * pow16(32) <= n as int || m == 0) by (nonlinear_arith)
            requires
                n as int == m as int * pow16(32) + nibbles_value(nibbles@),
                nibbles_value(nibbles@) >= 0,
        ;
        assert(m == 0);
        assert(n as int == nibbles_value(nibbles@));
    }
    let mut hexs = String::new();
    let mut t: usize = 0;
    while t < 32
        invariant
            0 <= t <= 32,
            nibbles@.len() == 32,
            forall|k: int| 0 <= k < 32 ==> nibbles@[k] < 16,
            hexs@.len() == t,
            forall|k: int| 0 <= k < t ==> hex_value(hexs@[k]) == nibbles@[31 - k] as int,
            forall|k: int| 0 <= k < t ==> is_hex_digit(#[trigger] hexs@[k]),
            forall|k: int| 0 <= k < t ==> is_lower_hex(#[trigger] hexs@[k]),
        decreases 32 - t,
    {
        let c = nibble_char(nibbles[31 - t]);
        push_char(&mut hexs, c);
        t += 1;
    }
    proof {
        lemma_rev_value(hexs@, nibbles@);
    }
    let g0 = hexs.as_str().substring_char(0, 8).to_owned();
    let g1 = hexs.as_str().substring_char(8, 12);
    let g2 = hexs.as_str().substring_char(12, 16);
    let g3 = hexs.as_str().substring_char(16, 20);
    let g4 = hexs.as_str().substring_char(20, 32);
    let out = g0.concat("-").concat(g1).concat("-").concat(g2).concat("-").concat(g3).concat(
        "-",
    ).concat(g4);
    proof {
        reveal_strlit("-");
        assert(out@.len() == 36);
        assert(out@.subrange(0, 8) =~= hexs@.subrange(0, 8));
        assert(out@[8] == '-');
        assert(out@.subrange(9, 13) =~= hexs@.subrange(8, 12));
        assert(out@[13] == '-');
        assert(out@.subrange(14, 18) =~= hexs@.subrange(12, 16));
        assert(out@[18] == '-');
        assert(out@.subrange(19, 23) =~= hexs@.subrange(16, 20));
        assert(out@[23] == '-');
        assert(out@.subrange(24, 36) =~= hexs@.subrange(20, 32));
        assert(uuid_digits(out@) =~= hexs@);
    }
    out
}

proof fn lemma_nibbles_push(s: Seq<u8>, d: u8)
    ensures
        nibbles_value(s.push(d)) == nibbles_value(s) + d * pow16(s.len() as nat),
    decreases s.len(),
{
    let p = s.push(d);
    if s.len() == 0 {
        assert(p.len() == 1);
        assert(p[0] == d);
        assert(p.drop_first() =~= Seq::<u8>::empty());
        assert(nibbles_value(p) == p[0] + 16 * nibbles_value(p.drop_first()));
        assert(nibbles_value(Seq::<u8>::empty()) == 0);
        assert(pow16(0nat) == 1);
        assert(nibbles_value(s) == 0);
        assert(nibbles_value(p) == nibbles_value(s) + d * pow16(s.len() as nat));
    } else {
        assert(p.drop_first() =~= s.drop_first().push(d));
        lemma_nibbles_push(s.drop_first(), d);
        assert(p[0] == s[0]);
        assert(nibbles_value(p) == s[0] + 16 * nibbles_value(s.drop_first().push(d)));
        let a = nibbles_value(s.drop_first());
        let q = pow16((s.len() - 1) as nat);
        assert(nibbles_value(p) == s[0] + 16 * (a + d * q));
        assert(pow16(s.len() as nat) == 16 * q);
        assert(16 * (a + d * q) == 16 * a + d * (16 * q)) by (nonlinear_arith);
        assert(nibbles_value(s) == s[0] + 16 * a);
        assert(nibbles_value(p) == nibbles_value(s) + d * pow16(s.len() as nat));
    }
}

/// Relies on std's `String::push`: appends one character.
#[verifier::external_body]
pub(crate) fn push_char(s: &mut String, c: char)
    ensures
        final(s)@ == old(s)@.push(c),
{
    s.push(c);
}

/// The identifier a string is the text form of, when it is one; by the
/// round-trip property there is at most one.
pub open spec fn spec_uuid_of(s: Seq<char>) -> u128 {
    choose|m: u128| is_uuid_repr(s, m)
}

/// Relies on uuid's `Uuid::new_v4`: a freshly drawn random 128-bit
/// identifier. Nothing is promised of the value.
#[verifier::external_body]
pub fn fresh_uuid() -> u128 {
    ::uuid::Uuid::new_v4().as_u128()
}

/// Formatting an identifier and parsing the result gives the identifier
/// back: the text form determines the value, so any two representations of
/// the same value decode alike.
pub proof fn lemma_uuid_round_trip(s: Seq<char>, n: u128, m: u128)
    requires
        is_uuid_repr(s, n),
        is_uuid_repr(s, m),
    ensures
        n == m,
{
}

} // verus!
