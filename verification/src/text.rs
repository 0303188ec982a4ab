//! Texts for the user: decimal numbers and the message of a failed register read.

use vstd::prelude::*;
use vstd::string::*;

verus! {

/// The character of a decimal digit.
pub open spec fn digit_char(d: nat) -> char
    recommends
        d < 10,
{
    if d == 0 {
        '0'
    } else if d == 1 {
        '1'
    } else if d == 2 {
        '2'
    } else if d == 3 {
        '3'
    } else if d == 4 {
        '4'
    } else if d == 5 {
        '5'
    } else if d == 6 {
        '6'
    } else if d == 7 {
        '7'
    } else if d == 8 {
        '8'
    } else {
        '9'
    }
}

/// A number in decimal, without leading zeros.
pub open spec fn decimal(n: nat) -> Seq<char>
    decreases n,
{
    if n < 10 {
        seq![digit_char(n)]
    } else {
        decimal(n / 10).push(digit_char(n % 10))
    }
}

/// The message of a register read that failed: it names the register's
/// offset, then the cause.
pub open spec fn read_error_text(offset: nat, cause: Seq<char>) -> Seq<char> {
    "Register "@ + decimal(offset) + " konnte nicht gelesen werden: "@ + cause
}

/// `true` for the ten digit characters.
pub open spec fn is_digit(c: char) -> bool {
    c == '0' || c == '1' || c == '2' || c == '3' || c == '4' || c == '5' || c == '6' || c == '7'
        || c == '8' || c == '9'
}

/// A number in decimal is made of digits, at least one.
pub proof fn lemma_decimal_digits(n: nat)
    ensures
        decimal(n).len() >= 1,
        n >= 10 ==> decimal(n).len() >= 2,
        forall|i: int| 0 <= i < decimal(n).len() ==> is_digit(#[trigger] decimal(n)[i]),
    decreases n,
{
    if n >= 10 {
        lemma_decimal_digits(n / 10);
    }
}

/// Two numbers that read the same in decimal are the same number.
pub proof fn lemma_decimal_injective(a: nat, b: nat)
    requires
        decimal(a) == decimal(b),
    ensures
        a == b,
    decreases a,
{
    lemma_decimal_digits(a);
    lemma_decimal_digits(b);
    if a < 10 || b < 10 {
        assert(a < 10 ==> decimal(a).len() == 1);
        assert(b < 10 ==> decimal(b).len() == 1);
        assert(a < 10 && b < 10);
        assert(decimal(a)[0] == digit_char(a));
        assert(decimal(b)[0] == digit_char(b));
    } else {
        let x = decimal(a / 10);
        let y = decimal(b / 10);
        assert(x =~= decimal(a).drop_last());
        assert(y =~= decimal(b).drop_last());
        assert(decimal(a).last() == digit_char(a % 10));
        assert(decimal(b).last() == digit_char(b % 10));
        lemma_decimal_injective(a / 10, b / 10);
        assert(a % 10 == b % 10);
    }
}

/// Where the first message's number is no longer than the second's, equal
/// messages have numbers of the same length.
proof fn lemma_same_length(j: nat, k: nat, cause_j: Seq<char>, cause_k: Seq<char>)
    requires
        read_error_text(j, cause_j) == read_error_text(k, cause_k),
        decimal(j).len() <= decimal(k).len(),
    ensures
        decimal(j).len() == decimal(k).len(),
{
    reveal_strlit("Register ");
    reveal_strlit(" konnte nicht gelesen werden: ");
    lemma_decimal_digits(k);
    let a = decimal(j);
    let b = decimal(k);
    if a.len() < b.len() {
        let at = 9 + a.len() as int;
        assert(read_error_text(j, cause_j)[at] == ' ');
        assert(read_error_text(k, cause_k)[at] == b[a.len() as int]);
        assert(is_digit(b[a.len() as int]));
    }
}

/// The message of a failed read names the offset and the cause: messages
/// for two offsets, or for two causes, differ.
pub proof fn lemma_read_error_text_injective(
    j: nat,
    k: nat,
    cause_j: Seq<char>,
    cause_k: Seq<char>,
)
    requires
        read_error_text(j, cause_j) == read_error_text(k, cause_k),
    ensures
        j == k,
        cause_j == cause_k,
{
    reveal_strlit("Register ");
    reveal_strlit(" konnte nicht gelesen werden: ");
    let a = decimal(j);
    let b = decimal(k);
    if a.len() <= b.len() {
        lemma_same_length(j, k, cause_j, cause_k);
    } else {
        lemma_same_length(k, j, cause_k, cause_j);
    }
    let one = read_error_text(j, cause_j);
    let other = read_error_text(k, cause_k);
    assert(a =~= b) by {
        assert forall|i: int| 0 <= i < a.len() implies a[i] == b[i] by {
            assert(one[9 + i] == a[i]);
            assert(other[9 + i] == b[i]);
        }
    }
    lemma_decimal_injective(j, k);
    let start = 9 + a.len() as int + 30;
    assert(cause_j =~= cause_k) by {
        assert(one.len() == start + cause_j.len());
        assert(other.len() == start + cause_k.len());
        assert forall|i: int| 0 <= i < cause_j.len() implies cause_j[i] == cause_k[i] by {
            assert(one[start + i] == cause_j[i]);
            assert(other[start + i] == cause_k[i]);
        }
    }
}

fn digit_str(d: u16) -> (s: &'static str)
    requires
        d < 10,
    ensures
        s@ == seq![digit_char(d as nat)],
{
    proof {
        reveal_strlit("0");
        reveal_strlit("1");
        reveal_strlit("2");
        reveal_strlit("3");
        reveal_strlit("4");
        reveal_strlit("5");
        reveal_strlit("6");
        reveal_strlit("7");
        reveal_strlit("8");
        reveal_strlit("9");
    }
    let s = if d == 0 {
        "0"
    } else if d == 1 {
        "1"
    } else if d == 2 {
        "2"
    } else if d == 3 {
        "3"
    } else if d == 4 {
        "4"
    } else if d == 5 {
        "5"
    } else if d == 6 {
        "6"
    } else if d == 7 {
        "7"
    } else if d == 8 {
        "8"
    } else {
        "9"
    };
    assert(s@ =~= seq![digit_char(d as nat)]);
    s
}

/// Writes `n` in decimal.
pub fn to_decimal(n: u16) -> (text: String)
    ensures
        text@ == decimal(n as nat),
    decreases n,
{
    if n < 10 {
        String::from_str(digit_str(n))
    } else {
        let mut text = to_decimal(n / 10);
        text.append(digit_str(n % 10));
        proof {
            assert(text@ =~= decimal(n as nat));
        }
        text
    }
}

/// Builds the message of a failed read of the register at `offset`.
pub fn read_error_message(offset: u16, cause: &str) -> (message: String)
    ensures
        message@ == read_error_text(offset as nat, cause@),
{
    let mut message = String::from_str("Register ");
    let number = to_decimal(offset);
    message.append(number.as_str());
    message.append(" konnte nicht gelesen werden: ");
    message.append(cause);
    message
}

} // verus!
