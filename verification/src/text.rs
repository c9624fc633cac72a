//! Decimal text for the numbers that go into item keys and request paths.

use vstd::prelude::*;
use vstd::string::StringExecFns;

verus! {

/// The character for the decimal digit `digit`.
pub open spec fn spec_digit_char(digit: nat) -> char
    recommends
        digit < 10,
{
    if digit == 0 {
        '0'
    } else if digit == 1 {
        '1'
    } else if digit == 2 {
        '2'
    } else if digit == 3 {
        '3'
    } else if digit == 4 {
        '4'
    } else if digit == 5 {
        '5'
    } else if digit == 6 {
        '6'
    } else if digit == 7 {
        '7'
    } else if digit == 8 {
        '8'
    } else {
        '9'
    }
}

/// The decimal digits of `n`, most significant first, without leading
/// zeros; a single `0` for zero.
pub open spec fn spec_decimal(n: nat) -> Seq<char>
    decreases n,
{
    if n < 10 {
        seq![spec_digit_char(n)]
    } else {
        spec_decimal(n / 10).push(spec_digit_char(n % 10))
    }
}

/// The decimal text of `i`: a minus sign before the digits of a negative
/// number, the bare digits otherwise.
pub open spec fn spec_signed_decimal(i: int) -> Seq<char> {
    if i < 0 {
        seq!['-'] + spec_decimal((-i) as nat)
    } else {
        spec_decimal(i as nat)
    }
}

/// The digit a character stands for, or 0 for any other character.
pub open spec fn spec_digit_value(c: char) -> nat {
    if c == '1' {
        1
    } else if c == '2' {
        2
    } else if c == '3' {
        3
    } else if c == '4' {
        4
    } else if c == '5' {
        5
    } else if c == '6' {
        6
    } else if c == '7' {
        7
    } else if c == '8' {
        8
    } else if c == '9' {
        9
    } else {
        0
    }
}

/// Whether `c` is one of the ten decimal digits.
pub open spec fn is_digit(c: char) -> bool {
    c == '0' || c == '1' || c == '2' || c == '3' || c == '4' || c == '5' || c == '6' || c == '7'
        || c == '8' || c == '9'
}

/// The number that the digits `text` spell.
pub open spec fn spec_decimal_value(text: Seq<char>) -> nat
    decreases text.len(),
{
    if text.len() == 0 {
        0
    } else {
        spec_decimal_value(text.drop_last()) * 10 + spec_digit_value(text.last())
    }
}

/// Decimal text is made of digits and spells the number it was made from.
pub proof fn lemma_decimal_value(n: nat)
    ensures
        spec_decimal_value(spec_decimal(n)) == n,
        spec_decimal(n).len() >= 1,
        forall|i: int| 0 <= i < spec_decimal(n).len() ==> is_digit(#[trigger] spec_decimal(n)[i]),
    decreases n,
{
    if n < 10 {
        let text = spec_decimal(n);
        assert(text.drop_last() =~= Seq::<char>::empty());
        assert(spec_decimal_value(text.drop_last()) == 0);
    } else {
        lemma_decimal_value(n / 10);
        let text = spec_decimal(n);
        assert(text.drop_last() =~= spec_decimal(n / 10));
        assert(text.last() == spec_digit_char(n % 10));
    }
}

/// Different numbers have different decimal text.
pub proof fn lemma_decimal_injective(a: nat, b: nat)
    requires
        spec_decimal(a) == spec_decimal(b),
    ensures
        a == b,
{
    lemma_decimal_value(a);
    lemma_decimal_value(b);
}

/// Different signed numbers have different decimal text.
pub proof fn lemma_signed_decimal_injective(a: int, b: int)
    requires
        spec_signed_decimal(a) == spec_signed_decimal(b),
    ensures
        a == b,
{
    lemma_decimal_value((if a < 0 { -a } else { a }) as nat);
    lemma_decimal_value((if b < 0 { -b } else { b }) as nat);
    let ta = spec_signed_decimal(a);
    let tb = spec_signed_decimal(b);
    if a < 0 {
        assert(ta[0] == '-');
        if b >= 0 {
            assert(is_digit(spec_decimal(b as nat)[0]));
            assert(false);
        }
        assert(ta.drop_first() =~= spec_decimal((-a) as nat));
        assert(tb.drop_first() =~= spec_decimal((-b) as nat));
        lemma_decimal_injective((-a) as nat, (-b) as nat);
    } else {
        assert(is_digit(spec_decimal(a as nat)[0]));
        if b < 0 {
            assert(tb[0] == '-');
            assert(false);
        }
        lemma_decimal_injective(a as nat, b as nat);
    }
}

/// The text of one decimal digit.
fn digit_text(digit: u64) -> (text: &'static str)
    requires
        digit < 10,
    ensures
        text@ == seq![spec_digit_char(digit as nat)],
{
    proof {
        reveal_strlit("0");
        reveal_strlit("1");
        reveal_strlit("2");
        reveal_strlit("3");
        reveal_strlit("4");
        reveal_strlit("5");
        reveal_strlit("6");
        reveal_strlit("7");
        reveal_strlit("8");
        reveal_strlit("9");
    }
    let text: &'static str = if digit == 0 {
        "0"
    } else if digit == 1 {
        "1"
    } else if digit == 2 {
        "2"
    } else if digit == 3 {
        "3"
    } else if digit == 4 {
        "4"
    } else if digit == 5 {
        "5"
    } else if digit == 6 {
        "6"
    } else if digit == 7 {
        "7"
    } else if digit == 8 {
        "8"
    } else {
        "9"
    };
    assert(text@ =~= seq![spec_digit_char(digit as nat)]);
    text
}

/// The decimal text of `n`.
pub fn decimal(n: u64) -> (text: String)
    ensures
        text@ == spec_decimal(n as nat),
{
    let mut text: String = String::from_str(digit_text(n % 10));
    let mut rest: u64 = n / 10;
    assert(n >= 10 ==> spec_decimal(n as nat) =~= spec_decimal(rest as nat) + text@);
    while rest > 0
        invariant
            rest > 0 ==> spec_decimal(n as nat) == spec_decimal(rest as nat) + text@,
            rest == 0 ==> spec_decimal(n as nat) == text@,
        decreases rest,
    {
        let longer: String = String::from_str(digit_text(rest % 10)).concat(text.as_str());
        proof {
            let digit = seq![spec_digit_char((rest % 10) as nat)];
            if rest < 10 {
                assert(spec_decimal(rest as nat) =~= digit);
            } else {
                assert(spec_decimal(rest as nat) =~= spec_decimal((rest / 10) as nat) + digit);
                assert(spec_decimal((rest / 10) as nat) + digit + text@ =~= spec_decimal(
                    (rest / 10) as nat,
                ) + (digit + text@));
            }
        }
        text = longer;
        rest = rest / 10;
    }
    text
}

/// The decimal text of `i`, with a minus sign where it is negative.
pub fn signed_decimal(i: i32) -> (text: String)
    ensures
        text@ == spec_signed_decimal(i as int),
{
    if i < 0 {
        let magnitude: u64 = (-(i as i64)) as u64;
        let digits: String = decimal(magnitude);
        proof {
            reveal_strlit("-");
        }
        let text: String = String::from_str("-").concat(digits.as_str());
        assert(text@ =~= seq!['-'] + spec_decimal((-i) as nat));
        text
    } else {
        decimal(i as u64)
    }
}

/// Whether every character of `text` is a decimal digit.
pub open spec fn spec_all_digits(text: Seq<char>) -> bool {
    forall|i: int| 0 <= i < text.len() ==> is_digit(#[trigger] text[i])
}

/// Whether `text` begins with a plus or a minus sign.
pub open spec fn spec_has_sign(text: Seq<char>) -> bool {
    text.len() > 0 && (text[0] == '-' || text[0] == '+')
}

/// The item identifier that `text` spells: an optional sign and then one
/// or more decimal digits, whose number fits in 32 bits.  Any other text
/// spells none.
pub open spec fn spec_parse_item_id(text: Seq<char>) -> Option<i32> {
    let digits = if spec_has_sign(text) {
        text.drop_first()
    } else {
        text
    };
    let magnitude = spec_decimal_value(digits) as int;
    let value = if text.len() > 0 && text[0] == '-' {
        -magnitude
    } else {
        magnitude
    };
    if digits.len() > 0 && spec_all_digits(digits) && i32::MIN <= value <= i32::MAX {
        Some(value as i32)
    } else {
        None
    }
}

/// Reading the decimal text of an identifier gives the identifier back.
pub proof fn lemma_parse_reads_decimal(id: i32)
    ensures
        spec_parse_item_id(spec_signed_decimal(id as int)) == Some(id),
{
    let text = spec_signed_decimal(id as int);
    if id < 0 {
        let digits = spec_decimal((-id) as nat);
        lemma_decimal_value((-id) as nat);
        assert(text[0] == '-');
        assert(text.drop_first() =~= digits);
    } else {
        lemma_decimal_value(id as nat);
        assert(is_digit(text[0]));
    }
}

/// The digit that `c` stands for, where it is one.
fn digit_of(c: char) -> (digit: Option<u8>)
    ensures
        digit is Some <==> is_digit(c),
        digit matches Some(d) ==> d == spec_digit_value(c) && d < 10,
{
    if c == '0' {
        Some(0)
    } else if c == '1' {
        Some(1)
    } else if c == '2' {
        Some(2)
    } else if c == '3' {
        Some(3)
    } else if c == '4' {
        Some(4)
    } else if c == '5' {
        Some(5)
    } else if c == '6' {
        Some(6)
    } else if c == '7' {
        Some(7)
    } else if c == '8' {
        Some(8)
    } else if c == '9' {
        Some(9)
    } else {
        None
    }
}

/// Reads an item identifier from the tag of an element.
pub fn parse_item_id(text: &str) -> (id: Option<i32>)
    ensures
        id == spec_parse_item_id(text@),
{
    let ghost all: Seq<char> = text@;
    let ghost skip: int = if spec_has_sign(all) {
        1
    } else {
        0
    };
    let ghost digits: Seq<char> = if spec_has_sign(all) {
        all.drop_first()
    } else {
        all
    };
    let mut negative: bool = false;
    let mut first: bool = true;
    let mut any_digit: bool = false;
    let mut valid: bool = true;
    let mut too_large: bool = false;
    let mut magnitude: i64 = 0;
    for c in walk: text.chars()
        invariant
            walk.seq() == all,
            digits == if spec_has_sign(all) {
                all.drop_first()
            } else {
                all
            },
            skip == if spec_has_sign(all) {
                1int
            } else {
                0int
            },
            first == (walk.index() == 0),
            negative == (walk.index() > 0 && all[0] == '-'),
            any_digit == (walk.index() > skip),
            walk.index() >= skip ==> valid == spec_all_digits(digits.take(walk.index() - skip)),
            walk.index() < skip ==> valid,
            walk.index() >= skip && valid ==> too_large == (spec_decimal_value(
                digits.take(walk.index() - skip),
            ) > 0x8000_0000),
            walk.index() >= skip && valid && !too_large ==> magnitude == spec_decimal_value(
                digits.take(walk.index() - skip),
            ),
            walk.index() < skip ==> magnitude == 0 && !too_large,
            0 <= magnitude <= 0x8000_0000,
    {
        let ghost at = walk.index() as int;
        if first && (c == '-' || c == '+') {
            negative = c == '-';
            proof {
                assert(digits.take(0) =~= Seq::<char>::empty());
            }
        } else {
            proof {
                let before = digits.take(at - skip);
                let after = digits.take(at - skip + 1);
                assert(after.drop_last() =~= before);
                assert(after.last() == c);
                if at == 0 {
                    assert(before =~= Seq::<char>::empty());
                }
                if spec_all_digits(after) {
                    assert forall|i: int| 0 <= i < before.len() implies is_digit(
                        #[trigger] before[i],
                    ) by {
                        assert(before[i] == after[i]);
                    }
                }
                if spec_all_digits(before) && is_digit(c) {
                    assert forall|i: int| 0 <= i < after.len() implies is_digit(
                        #[trigger] after[i],
                    ) by {
                        if i < before.len() {
                            assert(after[i] == before[i]);
                        }
                    }
                }
                if !is_digit(c) {
                    assert(!is_digit(after[after.len() - 1]));
                }
            }
            match digit_of(c) {
                Some(d) => {
                    if valid && !too_large {
                        let longer: i64 = magnitude * 10 + d as i64;
                        if longer > 0x8000_0000 {
                            too_large = true;
                        } else {
                            magnitude = longer;
                        }
                    }
                },
                None => {
                    valid = false;
                },
            }
            any_digit = true;
        }
        first = false;
    }
    proof {
        assert(all.take(all.len() as int) =~= all);
        assert(digits.take(digits.len() as int) =~= digits);
    }
    if !any_digit || !valid || too_large {
        return None;
    }
    if negative {
        Some((-magnitude) as i32)
    } else if magnitude > 0x7fff_ffff {
        None
    } else {
        Some(magnitude as i32)
    }
}

/// `n` in decimal with at least two digits.
pub open spec fn spec_two_digits(n: nat) -> Seq<char> {
    if n < 10 {
        seq!['0'] + spec_decimal(n)
    } else {
        spec_decimal(n)
    }
}

/// The hours shown for `seconds`: the whole hours, and never more than
/// the largest 32-bit number.
pub open spec fn spec_clock_hours(seconds: nat) -> nat {
    if seconds / 3600 > i32::MAX {
        i32::MAX as nat
    } else {
        seconds / 3600
    }
}

/// `seconds` as hours, minutes and seconds with colons between them, each
/// with at least two digits.
pub open spec fn spec_clock_text(seconds: nat) -> Seq<char> {
    spec_two_digits(spec_clock_hours(seconds)) + seq![':'] + spec_two_digits(
        (seconds % 3600) / 60,
    ) + seq![':'] + spec_two_digits(seconds % 60)
}

/// `n` in decimal with at least two digits.
pub fn two_digits(n: u64) -> (text: String)
    ensures
        text@ == spec_two_digits(n as nat),
{
    let digits: String = decimal(n);
    if n < 10 {
        proof {
            reveal_strlit("0");
        }
        let text: String = String::from_str("0").concat(digits.as_str());
        assert(text@ =~= seq!['0'] + spec_decimal(n as nat));
        text
    } else {
        digits
    }
}

/// The time `seconds` into an episode, as a player shows it.
pub fn clock_text(seconds: u64) -> (text: String)
    ensures
        text@ == spec_clock_text(seconds as nat),
{
    proof {
        reveal_strlit(":");
    }
    let whole_hours: u64 = seconds / 3600;
    let hours: u64 = if whole_hours > 0x7fff_ffff {
        0x7fff_ffff
    } else {
        whole_hours
    };
    let minutes: u64 = (seconds % 3600) / 60;
    let rest: u64 = seconds % 60;
    let h: String = two_digits(hours);
    let m: String = two_digits(minutes);
    let s: String = two_digits(rest);
    let text: String = h.concat(":").concat(m.as_str()).concat(":").concat(s.as_str());
    assert(":"@ =~= seq![':']);
    text
}

} // verus!
