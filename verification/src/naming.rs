//! The name under which a front creates its custody engine.

use crate::account::AccountId;
use vstd::prelude::*;

verus! {

/// The character of the decimal digit `d`.
pub open spec fn digit_char(d: nat) -> char {
    if d == 0 {
        '0'
    } else if d == 1 {
        '1'
    } else if d == 2 {
        '2'
    } else if d == 3 {
        '3'
    } else if d == 4 {
        '4'
    } else if d == 5 {
        '5'
    } else if d == 6 {
        '6'
    } else if d == 7 {
        '7'
    } else if d == 8 {
        '8'
    } else {
        '9'
    }
}

/// The decimal digits of `n`, the most significant first, without leading
/// zeros.
pub open spec fn decimal_digits(n: nat) -> Seq<char>
    decreases n,
{
    if n < 10 {
        seq![digit_char(n)]
    } else {
        decimal_digits(n / 10).push(digit_char(n % 10))
    }
}

/// The account of the custody engine that the front `current` creates with
/// the salt `salt`: `wallet_`, the salt in decimal digits, a dot, and the
/// front's own account.
pub open spec fn wallet_account_name(salt: nat, current: Seq<char>) -> Seq<char> {
    "wallet_"@ + decimal_digits(salt) + "."@ + current
}

/// A number has at least one digit.
pub proof fn lemma_decimal_digits_nonempty(n: nat)
    ensures
        decimal_digits(n).len() >= 1,
    decreases n,
{
    if n >= 10 {
        lemma_decimal_digits_nonempty(n / 10);
    }
}

/// Two digits with the same character are the same digit.
pub proof fn lemma_digit_char_injective(c: nat, d: nat)
    requires
        c < 10,
        d < 10,
        digit_char(c) == digit_char(d),
    ensures
        c == d,
{
}

/// Two numbers with the same digits are the same number.
pub proof fn lemma_decimal_digits_injective(m: nat, n: nat)
    requires
        decimal_digits(m) == decimal_digits(n),
    ensures
        m == n,
    decreases m,
{
    lemma_decimal_digits_nonempty(m / 10);
    lemma_decimal_digits_nonempty(n / 10);
    if m < 10 && n < 10 {
        assert(decimal_digits(m)[0] == digit_char(m));
        assert(decimal_digits(n)[0] == digit_char(n));
        lemma_digit_char_injective(m, n);
    } else if m < 10 || n < 10 {
        assert(decimal_digits(m).len() == decimal_digits(n).len());
    } else {
        let front_m = decimal_digits(m / 10);
        let front_n = decimal_digits(n / 10);
        assert(front_m.push(digit_char(m % 10)).last() == digit_char(m % 10));
        assert(front_n.push(digit_char(n % 10)).last() == digit_char(n % 10));
        assert(front_m.push(digit_char(m % 10)).drop_last() =~= front_m);
        assert(front_n.push(digit_char(n % 10)).drop_last() =~= front_n);
        lemma_decimal_digits_injective(m / 10, n / 10);
        lemma_digit_char_injective(m % 10, n % 10);
    }
}

/// Two salts that differ give the same front two custody accounts that
/// differ: an attempt with a salt that was not used before never meets the
/// account of an earlier attempt.
pub proof fn lemma_wallet_names_differ(salt: nat, earlier: nat, current: Seq<char>)
    requires
        salt != earlier,
    ensures
        wallet_account_name(salt, current) != wallet_account_name(earlier, current),
{
    let one = wallet_account_name(salt, current);
    let other = wallet_account_name(earlier, current);
    let digits = decimal_digits(salt);
    let earlier_digits = decimal_digits(earlier);
    if one == other {
        assert(one.len() == "wallet_"@.len() + digits.len() + "."@.len() + current.len());
        assert(other.len() == "wallet_"@.len() + earlier_digits.len() + "."@.len()
            + current.len());
        let start = "wallet_"@.len() as int;
        assert(one.subrange(start, start + digits.len()) =~= digits);
        assert(other.subrange(start, start + earlier_digits.len()) =~= earlier_digits);
        lemma_decimal_digits_injective(salt, earlier);
    }
}

/// The digit `d` as text.
fn digit_text(d: u64) -> (res: &'static str)
    requires
        d < 10,
    ensures
        res@ == seq![digit_char(d as nat)],
{
    proof {
        reveal_strlit("0");
        reveal_strlit("1");
        reveal_strlit("2");
        reveal_strlit("3");
        reveal_strlit("4");
        reveal_strlit("5");
        reveal_strlit("6");
        reveal_strlit("7");
        reveal_strlit("8");
        reveal_strlit("9");
    }
    let res = if d == 0 {
        "0"
    } else if d == 1 {
        "1"
    } else if d == 2 {
        "2"
    } else if d == 3 {
        "3"
    } else if d == 4 {
        "4"
    } else if d == 5 {
        "5"
    } else if d == 6 {
        "6"
    } else if d == 7 {
        "7"
    } else if d == 8 {
        "8"
    } else {
        "9"
    };
    assert(res@ =~= seq![digit_char(d as nat)]);
    res
}

/// `n` in decimal digits.
pub fn decimal_text(n: u64) -> (res: String)
    ensures
        res@ == decimal_digits(n as nat),
    decreases n,
{
    if n < 10 {
        String::from_str(digit_text(n))
    } else {
        let mut text = decimal_text(n / 10);
        text.append(digit_text(n % 10));
        assert(text@ =~= decimal_digits((n / 10) as nat).push(digit_char((n % 10) as nat)));
        text
    }
}

/// The account under which the front `current` creates its custody engine
/// for the salt `salt`. The name is not checked here.
pub fn wallet_account_id(salt: u64, current: &AccountId) -> (res: AccountId)
    ensures
        res@ == wallet_account_name(salt as nat, current@),
{
    let mut name = String::from_str("wallet_");
    name.append(decimal_text(salt).as_str());
    name.append(".");
    name.append(current.as_str());
    AccountId::new_unchecked(name)
}

} // verus!
