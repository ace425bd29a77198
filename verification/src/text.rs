//! Numbers as text.
use vstd::prelude::*;
use vstd::string::*;

verus! {

/// The digits of a number in decimal notation.
pub open spec fn decimal(n: nat) -> Seq<char>
    decreases n,
{
    if n < 10 {
        seq![digit(n)]
    } else {
        decimal(n / 10).push(digit(n % 10))
    }
}

/// The digits of a number in hexadecimal notation.
pub open spec fn hex(n: nat) -> Seq<char>
    decreases n,
{
    if n < 16 {
        seq![digit(n)]
    } else {
        hex(n / 16).push(digit(n % 16))
    }
}

/// The digit for a number below sixteen.
pub open spec fn digit(n: nat) -> char {
    if n < 10 {
        (48 + n) as u8 as char
    } else {
        (87 + n) as u8 as char
    }
}

fn digit_str(n: usize) -> (s: &'static str)
    requires
        n < 16,
    ensures
        s@ == seq![digit(n as nat)],
{
    proof {
        reveal_strlit("0");
        reveal_strlit("1");
        reveal_strlit("2");
        reveal_strlit("3");
        reveal_strlit("4");
        reveal_strlit("5");
        reveal_strlit("6");
        reveal_strlit("7");
        reveal_strlit("8");
        reveal_strlit("9");
        reveal_strlit("a");
        reveal_strlit("b");
        reveal_strlit("c");
        reveal_strlit("d");
        reveal_strlit("e");
        reveal_strlit("f");
    }
    match n {
        0 => "0",
        1 => "1",
        2 => "2",
        3 => "3",
        4 => "4",
        5 => "5",
        6 => "6",
        7 => "7",
        8 => "8",
        9 => "9",
        10 => "a",
        11 => "b",
        12 => "c",
        13 => "d",
        14 => "e",
        _ => "f",
    }
}

/// Append a number in decimal notation.
pub fn append_decimal(s: &mut String, n: u32)
    ensures
        final(s)@ == old(s)@ + decimal(n as nat),
    decreases n,
{
    if n >= 10 {
        append_decimal(s, n / 10);
    }
    s.append(digit_str((n % 10) as usize));
    assert(s@ == old(s)@ + decimal(n as nat));
}

/// Append a number in hexadecimal notation.
pub fn append_hex(s: &mut String, n: usize)
    ensures
        final(s)@ == old(s)@ + hex(n as nat),
    decreases n,
{
    if n >= 16 {
        append_hex(s, n / 16);
    }
    s.append(digit_str(n % 16));
    assert(s@ == old(s)@ + hex(n as nat));
}

/// A name, followed by an address.
pub fn name_and_addr(name: &'static str, addr: usize) -> (s: String)
    ensures
        s@ == name@ + hex(addr as nat),
{
    let mut s = String::new();
    s.append(name);
    append_hex(&mut s, addr);
    assert(s@ == name@ + hex(addr as nat));
    s
}

/// The number that a digit stands for, or none.
pub open spec fn digit_value(c: char) -> Option<nat> {
    if '0' <= c <= '9' {
        Some((c as int - '0' as int) as nat)
    } else if 'a' <= c <= 'f' {
        Some((c as int - 'a' as int + 10) as nat)
    } else {
        None
    }
}

/// The number that digits stand for in a notation.
pub open spec fn number(digits: Seq<char>, base: nat) -> nat
    decreases digits.len(),
{
    if digits.len() == 0 {
        0
    } else {
        number(digits.drop_last(), base) * base + digit_value(digits.last())->0
    }
}

/// Whether a text is a number in its shortest notation: digits below the base, of which the first
/// is not zero unless it is the only one.
pub open spec fn is_number(digits: Seq<char>, base: nat) -> bool {
    &&& digits.len() > 0
    &&& forall|i: int|
        0 <= i < digits.len() ==> (digit_value(#[trigger] digits[i]) matches Some(v) && v < base)
    &&& digits.len() > 1 ==> digits[0] != '0'
}

proof fn lemma_digit(n: nat)
    requires
        n < 16,
    ensures
        digit_value(digit(n)) == Some(n),
        n > 0 ==> digit(n) != '0',
{
}

proof fn lemma_decimal(n: nat)
    ensures
        is_number(decimal(n), 10),
        number(decimal(n), 10) == n,
        n > 0 ==> decimal(n)[0] != '0',
    decreases n,
{
    lemma_digit(n % 10);
    if n < 10 {
        assert(seq![digit(n)].drop_last() =~= Seq::<char>::empty());
        assert(number(seq![digit(n)].drop_last(), 10) == 0);
        assert(seq![digit(n)].last() == digit(n));
    } else {
        lemma_decimal(n / 10);
        assert(decimal(n).drop_last() =~= decimal(n / 10));
        assert(decimal(n).last() == digit(n % 10));
    }
}

proof fn lemma_hex(n: nat)
    ensures
        is_number(hex(n), 16),
        number(hex(n), 16) == n,
        n > 0 ==> hex(n)[0] != '0',
    decreases n,
{
    lemma_digit(n % 16);
    if n < 16 {
        assert(seq![digit(n)].drop_last() =~= Seq::<char>::empty());
        assert(number(seq![digit(n)].drop_last(), 16) == 0);
        assert(seq![digit(n)].last() == digit(n));
    } else {
        lemma_hex(n / 16);
        assert(hex(n).drop_last() =~= hex(n / 16));
        assert(hex(n).last() == digit(n % 16));
    }
}

/// What is appended for a number is that number in decimal notation, behind what was there.
pub proof fn law_decimal_reads_back(s: &mut String, n: u32)
    requires
        call_ensures(append_decimal, (s, n), ()),
    ensures
        ({
            let before = old(s)@.len() as int;
            let digits = final(s)@.skip(before);
            &&& final(s)@.take(before) == old(s)@
            &&& is_number(digits, 10)
            &&& number(digits, 10) == n
        }),
{
    lemma_decimal(n as nat);
    let before = old(s)@.len() as int;
    assert(final(s)@.take(before) =~= old(s)@);
    assert(final(s)@.skip(before) =~= decimal(n as nat));
}

/// What is appended for a number is that number in hexadecimal notation, behind what was there; and
/// so is the address behind a name.
pub proof fn law_hex_reads_back(
    s: &mut String,
    n: usize,
    name: &'static str,
    named: String,
)
    requires
        call_ensures(append_hex, (s, n), ()),
        call_ensures(name_and_addr, (name, n), named),
    ensures
        ({
            let before = old(s)@.len() as int;
            let digits = final(s)@.skip(before);
            &&& final(s)@.take(before) == old(s)@
            &&& is_number(digits, 16)
            &&& number(digits, 16) == n
            &&& named@ == name@ + digits
        }),
{
    lemma_hex(n as nat);
    let before = old(s)@.len() as int;
    assert(final(s)@.take(before) =~= old(s)@);
    assert(final(s)@.skip(before) =~= hex(n as nat));
}

} // verus!
