use vstd::prelude::*;

verus! {

/// Number of particles when none is asked for.
pub const DEFAULT_PARTICLE_AMOUNT: u32 = 3000;

/// `c` is one of the ten decimal digits.
pub open spec fn is_digit(c: char) -> bool {
    '0' <= c <= '9'
}

/// The number that a sequence of decimal digits denotes.
pub open spec fn decimal(digits: Seq<char>) -> nat
    decreases digits.len(),
{
    if digits.len() == 0 {
        0
    } else {
        decimal(digits.drop_last()) * 10 + (digits.last() as nat - '0' as nat) as nat
    }
}

/// `text` without the one plus sign that may stand in front of a number.
pub open spec fn unsigned_part(text: Seq<char>) -> Seq<char> {
    if text.len() > 0 && text[0] == '+' {
        text.subrange(1, text.len() as int)
    } else {
        text
    }
}

/// The amount that `text` asks for: `text` is one or more decimal digits,
/// with or without a plus sign in front and nothing else, and the number
/// fits a `u32`.
pub open spec fn amount_in(text: Seq<char>) -> Option<u32> {
    let digits = unsigned_part(text);
    if digits.len() > 0 && (forall|i: int| 0 <= i < digits.len() ==> is_digit(#[trigger] digits[i]))
        && decimal(digits) <= u32::MAX {
        Some(decimal(digits) as u32)
    } else {
        None
    }
}

/// The number of particles to start with: what `value` asks for, and
/// `DEFAULT_PARTICLE_AMOUNT` where there is no value or it is not an amount.
pub open spec fn particle_amount(value: Option<Seq<char>>) -> u32 {
    match value {
        Some(text) => match amount_in(text) {
            Some(amount) => amount,
            None => DEFAULT_PARTICLE_AMOUNT,
        },
        None => DEFAULT_PARTICLE_AMOUNT,
    }
}

/// Without a value, and with a value that is no amount, the number of
/// particles is `DEFAULT_PARTICLE_AMOUNT`.
pub proof fn lemma_default_amount(text: Seq<char>)
    ensures
        particle_amount(None) == DEFAULT_PARTICLE_AMOUNT,
        amount_in(text) is None ==> particle_amount(Some(text)) == DEFAULT_PARTICLE_AMOUNT,
        DEFAULT_PARTICLE_AMOUNT == 3000,
{
}

/// Reads `text` as an amount.
pub fn parse_amount(text: &str) -> (amount: Option<u32>)
    ensures
        amount == amount_in(text@),
{
    let ghost start: int = if text@.len() > 0 && text@[0] == '+' {
        1
    } else {
        0
    };
    let mut value: u64 = 0;
    let mut any = false;
    let mut first = true;
    for c in it: text.chars()
        invariant
            it.seq() == text@,
            start == if text@.len() > 0 && text@[0] == '+' {
                1int
            } else {
                0int
            },
            first <==> it.index() == 0,
            !first ==> start <= it.index(),
            any <==> start < it.index(),
            !first ==> forall|i: int| start <= i < it.index() ==> is_digit(#[trigger] text@[i]),
            first ==> value == 0,
            !first ==> value == capped(decimal(text@.subrange(start, it.index() as int))),
    {
        if first && c == '+' {
            first = false;
            assert(text@.subrange(1, 1) =~= Seq::<char>::empty());
        } else if '0' <= c && c <= '9' {
            proof {
                let upto = it.index() as int;
                assert(text@.subrange(start, upto + 1).drop_last() =~= text@.subrange(start, upto));
                assert(text@.subrange(start, upto + 1).last() == c);
                if first {
                    assert(text@.subrange(start, upto) =~= Seq::<char>::empty());
                }
            }
            let digit: u64 = (c as u32 - '0' as u32) as u64;
            value = value * 10 + digit;
            if value > AMOUNT_CAP {
                value = AMOUNT_CAP;
            }
            first = false;
            any = true;
        } else {
            proof {
                let at = it.index() as int;
                assert(unsigned_part(text@)[at - start] == c);
            }
            return None;
        }
    }
    assert(text@.subrange(start, text@.len() as int) =~= unsigned_part(text@));
    if any && value <= u32::MAX as u64 {
        Some(value as u32)
    } else {
        None
    }
}

/// The number of particles to start with, from the value that the start-up
/// configuration holds for it, if any.
pub fn get_particle_amount(value: Option<&str>) -> (amount: u32)
    ensures
        amount == particle_amount(
            match value {
                Some(text) => Some(text@),
                None => None,
            },
        ),
        value is None ==> amount == DEFAULT_PARTICLE_AMOUNT,
{
    match value {
        Some(text) => match parse_amount(text) {
            Some(amount) => amount,
            None => DEFAULT_PARTICLE_AMOUNT,
        },
        None => DEFAULT_PARTICLE_AMOUNT,
    }
}

/// Above every `u32`: numbers are counted no further than this while reading.
const AMOUNT_CAP: u64 = 0x1_0000_0000;

/// `n`, counted no further than `AMOUNT_CAP`.
spec fn capped(n: nat) -> u64 {
    if n > AMOUNT_CAP {
        AMOUNT_CAP
    } else {
        n as u64
    }
}

} // verus!
