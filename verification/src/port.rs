//! Port numbers written as text.
use vstd::prelude::*;

verus! {

/// Whether `c` is one of the ten ASCII digits.
pub open spec fn is_digit(c: char) -> bool {
    '0' <= c <= '9'
}

/// Whether `text` holds ASCII digits and nothing else.
pub open spec fn all_digits(text: Seq<char>) -> bool {
    forall|i: int| 0 <= i < text.len() ==> is_digit(#[trigger] text[i])
}

/// The number that a run of digits writes in base ten.
pub open spec fn decimal(digits: Seq<char>) -> nat
    decreases digits.len(),
{
    if digits.len() == 0 {
        0
    } else {
        (decimal(digits.drop_last()) * 10 + (digits.last() as nat - '0' as nat)) as nat
    }
}

/// `text` without the one plus sign that may lead it.
pub open spec fn unsigned_part(text: Seq<char>) -> Seq<char> {
    if text.len() > 0 && text[0] == '+' {
        text.drop_first()
    } else {
        text
    }
}

/// The port that `text` writes: an optional plus sign, then one or more ASCII
/// digits whose number fits in sixteen bits. Anything else writes no port.
pub open spec fn port_of(text: Seq<char>) -> Option<u16> {
    let digits = unsigned_part(text);
    if digits.len() > 0 && all_digits(digits) && decimal(digits) <= u16::MAX {
        Some(decimal(digits) as u16)
    } else {
        None
    }
}

/// A run of digits writes a number no smaller than any of its beginnings does.
proof fn lemma_decimal_grows(digits: Seq<char>, upto: int)
    requires
        0 <= upto <= digits.len(),
        all_digits(digits),
    ensures
        decimal(digits.take(upto)) <= decimal(digits),
    decreases digits.len() - upto,
{
    if upto == digits.len() {
        assert(digits.take(upto) == digits);
    } else {
        lemma_decimal_grows(digits, upto + 1);
        let longer = digits.take(upto + 1);
        assert(longer.drop_last() == digits.take(upto));
    }
}

/// Reads the port that `text` writes. The grammar is the one by which
/// `u16::from_str` reads a number.
pub fn parse_port(text: &str) -> (port: Option<u16>)
    ensures
        port == port_of(text@),
{
    let mut value: u32 = 0;
    let mut signed = false;
    let mut seen = false;
    let mut first = true;
    for c in it: text.chars()
        invariant
            it.seq() == text@,
            first <==> it.index() == 0,
            signed ==> it.index() >= 1 && text@[0] == '+',
            !signed && it.index() >= 1 ==> text@[0] != '+',
            seen <==> it.index() > (if signed { 1int } else { 0int }),
            all_digits(text@.subrange(if signed { 1int } else { 0int }, it.index())),
            value == decimal(text@.subrange(if signed { 1int } else { 0int }, it.index())),
            value <= u16::MAX,
    {
        let ghost start = if signed { 1int } else { 0int };
        let ghost at = it.index();
        if first && c == '+' {
            signed = true;
        } else {
            let ghost digits = unsigned_part(text@);
            assert(digits[at - start] == c);
            if c < '0' || c > '9' {
                return None;
            }
            let digit: u32 = c as u32 - '0' as u32;
            let ghost longer = text@.subrange(start, at + 1);
            assert(longer.drop_last() == text@.subrange(start, at));
            if value * 10 + digit > 65535 {
                proof {
                    if all_digits(digits) {
                        lemma_decimal_grows(digits, at + 1 - start);
                        assert(digits.take(at + 1 - start) == longer);
                    }
                }
                return None;
            }
            value = value * 10 + digit;
            seen = true;
        }
        first = false;
    }
    proof {
        let start = if signed { 1int } else { 0int };
        assert(unsigned_part(text@) == text@.subrange(start, text@.len() as int));
    }
    if seen {
        Some(value as u16)
    } else {
        None
    }
}

} // verus!
