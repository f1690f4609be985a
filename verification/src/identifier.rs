//! Session identifiers: `device_` followed by the session's number in
//! decimal, padded with zeros to four digits.

use vstd::prelude::*;
use vstd::string::*;

verus! {

/// The character of a decimal digit.
pub open spec fn digit_char(d: nat) -> char {
    (('0' as u8 + d) as u8) as char
}

/// The decimal digits of `n`, most significant first.
pub open spec fn decimal(n: nat) -> Seq<char>
    decreases n,
{
    if n < 10 {
        seq![digit_char(n)]
    } else {
        decimal(n / 10).push(digit_char(n % 10))
    }
}

/// `count` zeros.
pub open spec fn zeros(count: nat) -> Seq<char> {
    Seq::new(count, |i: int| '0')
}

/// The decimal digits of `n`, with zeros in front where there are fewer
/// than four.
pub open spec fn padded(n: nat) -> Seq<char> {
    let digits = decimal(n);
    if digits.len() >= 4 {
        digits
    } else {
        zeros((4 - digits.len()) as nat) + digits
    }
}

/// The identifier of the session with number `n`.
pub open spec fn device_id_text(n: nat) -> Seq<char> {
    "device_"@ + padded(n)
}

/// The number that a sequence of decimal digits writes.
pub open spec fn decimal_value(s: Seq<char>) -> int
    decreases s.len(),
{
    if s.len() == 0 {
        0
    } else {
        decimal_value(s.drop_last()) * 10 + (s.last() as int - '0' as int)
    }
}

proof fn lemma_decimal_value(n: nat)
    ensures
        decimal_value(decimal(n)) == n,
        decimal(n).len() >= 1,
    decreases n,
{
    if n < 10 {
        assert(decimal(n).drop_last() =~= Seq::<char>::empty());
        assert(decimal_value(Seq::<char>::empty()) == 0);
    } else {
        lemma_decimal_value(n / 10);
        assert(decimal(n).drop_last() =~= decimal(n / 10));
    }
}

proof fn lemma_zeros_value(count: nat, s: Seq<char>)
    ensures
        decimal_value(zeros(count) + s) == decimal_value(s),
    decreases s.len(), count,
{
    if s.len() == 0 {
        assert(zeros(count) + s =~= zeros(count));
        if count > 0 {
            assert(zeros(count).drop_last() =~= zeros((count - 1) as nat) + s);
            lemma_zeros_value((count - 1) as nat, s);
        }
    } else {
        assert((zeros(count) + s).drop_last() =~= zeros(count) + s.drop_last());
        lemma_zeros_value(count, s.drop_last());
    }
}

/// An identifier belongs to one number only.
pub proof fn lemma_device_id_injective(a: nat, b: nat)
    requires
        device_id_text(a) == device_id_text(b),
    ensures
        a == b,
{
    let prefix = "device_"@;
    assert((prefix + padded(a)).skip(prefix.len() as int) =~= padded(a));
    assert((prefix + padded(b)).skip(prefix.len() as int) =~= padded(b));
    assert(padded(a) == padded(b));
    lemma_decimal_value(a);
    lemma_decimal_value(b);
    if decimal(a).len() < 4 {
        lemma_zeros_value((4 - decimal(a).len()) as nat, decimal(a));
    }
    if decimal(b).len() < 4 {
        lemma_zeros_value((4 - decimal(b).len()) as nat, decimal(b));
    }
}

fn push_decimal(digits: &mut Vec<char>, n: u32)
    ensures
        final(digits)@ == old(digits)@ + decimal(n as nat),
    decreases n,
{
    if n >= 10 {
        push_decimal(digits, n / 10);
    }
    let d: u8 = (n % 10) as u8;
    digits.push((48u8 + d) as char);
    proof {
        if n >= 10 {
            assert(final(digits)@ =~= old(digits)@ + decimal(n as nat));
        } else {
            assert(final(digits)@ =~= old(digits)@ + decimal(n as nat));
        }
    }
}

/// Writes the identifier of the session with number `number`.
pub fn device_id(number: u32) -> (id: String)
    ensures
        id@ == device_id_text(number as nat),
{
    let mut digits: Vec<char> = Vec::new();
    push_decimal(&mut digits, number);
    assert(digits@ =~= decimal(number as nat));
    let mut id = String::from_str("device_");
    let mut width: usize = digits.len();
    let ghost pad: nat = if digits@.len() >= 4 {
        0
    } else {
        (4 - digits@.len()) as nat
    };
    while width < 4
        invariant
            digits@.len() <= width,
            width - digits@.len() <= pad,
            width < 4 ==> pad == 4 - digits@.len(),
            width >= 4 ==> width - digits@.len() == pad,
            id@ == "device_"@ + zeros((width - digits@.len()) as nat),
        decreases 4 - width,
    {
        id.push('0');
        assert(zeros((width - digits@.len()) as nat).push('0') =~= zeros(
            (width + 1 - digits@.len()) as nat,
        ));
        width += 1;
    }
    let ghost head = id@;
    let mut i: usize = 0;
    while i < digits.len()
        invariant
            i <= digits@.len(),
            id@ == head + digits@.take(i as int),
        decreases digits@.len() - i,
    {
        assert(digits@.take(i as int + 1) =~= digits@.take(i as int).push(digits@[i as int]));
        id.push(digits[i]);
        i += 1;
    }
    assert(digits@.take(i as int) =~= digits@);
    assert(id@ =~= device_id_text(number as nat));
    id
}

} // verus!
