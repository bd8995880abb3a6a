//! Human-friendly item identifiers: a kind tag, a separator, and the item's
//! id rendered in base62 with the standard digit ordering (0 to 9, then
//! A to Z, then a to z), most significant digit first. The rendering is
//! verified, and distinct ids provably render distinctly.
use crate::uuid_text::push_char;
use vstd::prelude::*;

verus! {

/// The kinds of items that get a friendly identifier.
pub enum ItemIdType {
    User,
}

impl ItemIdType {
    /// The tag of this item kind.
    pub fn as_str(&self) -> (r: &'static str)
        ensures
            r@ == spec_item_tag(*self),
    {
        match self {
            ItemIdType::User => "user",
        }
    }
}

/// The tag of each item kind.
pub open spec fn spec_item_tag(t: ItemIdType) -> Seq<char> {
    match t {
        ItemIdType::User => "user"@,
    }
}

/// The character of one base62 digit, standard ordering.
pub open spec fn base62_char(d: int) -> char {
    if 0 <= d <= 9 {
        (48 + d) as char
    } else if 10 <= d <= 35 {
        (55 + d) as char
    } else if 36 <= d <= 61 {
        (61 + d) as char
    } else {
        '?'
    }
}

/// The base62 digits of a value, most significant first; zero is the one
/// digit `0`.
pub open spec fn base62_digits(n: nat) -> Seq<char>
    decreases n,
{
    if n < 62 {
        seq![base62_char(n as int)]
    } else {
        base62_digits(n / 62).push(base62_char((n % 62) as int))
    }
}

/// The value encoded by a sequence of base62 digit characters, most
/// significant first.
pub open spec fn base62_seq_value(s: Seq<char>) -> int
    decreases s.len(),
{
    if s.len() == 0 {
        0
    } else {
        base62_seq_value(s.drop_last()) * 62 + base62_char_value(s.last())
    }
}

/// The numeric value of a base62 digit character, or 62 for any other
/// character.
pub open spec fn base62_char_value(c: char) -> int {
    let v = c as int;
    if 48 <= v <= 57 {
        v - 48
    } else if 65 <= v <= 90 {
        v - 55
    } else if 97 <= v <= 122 {
        v - 61
    } else {
        62
    }
}

/// A digit character decodes back to its digit.
proof fn lemma_base62_char_value(d: int)
    requires
        0 <= d < 62,
    ensures
        base62_char_value(base62_char(d)) == d,
{
}

/// The digit sequence of a value decodes back to the value: the rendering
/// determines the value, so distinct values render distinctly.
pub proof fn lemma_base62_digits_value(n: nat)
    ensures
        base62_seq_value(base62_digits(n)) == n,
    decreases n,
{
    if n < 62 {
        lemma_base62_char_value(n as int);
        let s = base62_digits(n);
        assert(s.len() == 1);
        assert(s.drop_last() =~= Seq::<char>::empty());
        assert(s.last() == base62_char(n as int));
        assert(base62_seq_value(Seq::<char>::empty()) == 0);
        assert(base62_seq_value(s) == 0 * 62 + base62_char_value(base62_char(n as int)));
    } else {
        lemma_base62_digits_value(n / 62);
        lemma_base62_char_value((n % 62) as int);
        let s = base62_digits(n);
        assert(s.drop_last() =~= base62_digits(n / 62));
        assert(s.last() == base62_char((n % 62) as int));
        assert(n == (n / 62) * 62 + n % 62) by (nonlinear_arith);
    }
}

/// The exec form of one base62 digit.
fn base62_digit_char(d: u8) -> (c: char)
    requires
        d < 62,
    ensures
        c == base62_char(d as int),
{
    if d <= 9 {
        ((48 + d as u32) as u8) as char
    } else if d <= 35 {
        ((55 + d as u32) as u8) as char
    } else {
        ((61 + d as u32) as u8) as char
    }
}

/// Render a value in base62, standard digit ordering, most significant
/// digit first.
pub fn base62_string(n: u128) -> (r: String)
    ensures
        r@ == base62_digits(n as nat),
    decreases n,
{
    if n < 62 {
        let mut s = String::new();
        push_char(&mut s, base62_digit_char(n as u8));
        proof {
            assert(s@ =~= base62_digits(n as nat));
        }
        s
    } else {
        let mut s = base62_string(n / 62);
        push_char(&mut s, base62_digit_char((n % 62) as u8));
        proof {
            assert((n as nat) / 62 == (n / 62) as nat);
            assert((n as nat) % 62 == (n % 62) as nat);
        }
        s
    }
}

/// The friendly form of an item's identifier: tag, '|', base62 digits.
pub open spec fn spec_friendly_id(n: u128, t: ItemIdType) -> Seq<char> {
    spec_item_tag(t) + "|"@ + base62_digits(n as nat)
}

/// Distinct ids have distinct friendly forms for a fixed item kind: the
/// tag and separator are common, and the digit part determines the value.
pub proof fn lemma_friendly_id_injective(n1: u128, n2: u128, t: ItemIdType)
    requires
        spec_friendly_id(n1, t) == spec_friendly_id(n2, t),
    ensures
        n1 == n2,
{
    let head = spec_item_tag(t) + "|"@;
    let s1 = spec_friendly_id(n1, t);
    let s2 = spec_friendly_id(n2, t);
    assert(base62_digits(n1 as nat) =~= s1.skip(head.len() as int));
    assert(base62_digits(n2 as nat) =~= s2.skip(head.len() as int));
    lemma_base62_digits_value(n1 as nat);
    lemma_base62_digits_value(n2 as nat);
}

/// Values that can render themselves as a friendly identifier.
pub trait ToFriendlyId {
    /// Render the friendly identifier of this value for the given item kind.
    fn to_friendly_id(&self, item_type: ItemIdType) -> String;
}

impl ToFriendlyId for u128 {
    fn to_friendly_id(&self, item_type: ItemIdType) -> (r: String)
        ensures
            r@ == spec_friendly_id(*self, item_type),
    {
        let tag = item_type.as_str().to_owned();
        tag.concat("|").concat(base62_string(*self).as_str())
    }
}

} // verus!
