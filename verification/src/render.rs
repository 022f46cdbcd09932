//! Verified rendering of attribute values: decimal numerals and the display
//! form of the configuration record.

use vstd::prelude::*;
use vstd::string::StringExecFns;

use crate::state::State;

verus! {

/// The character of one decimal digit.
pub open spec fn spec_digit_char(d: int) -> char {
    if d == 0 {
        '0'
    } else if d == 1 {
        '1'
    } else if d == 2 {
        '2'
    } else if d == 3 {
        '3'
    } else if d == 4 {
        '4'
    } else if d == 5 {
        '5'
    } else if d == 6 {
        '6'
    } else if d == 7 {
        '7'
    } else if d == 8 {
        '8'
    } else {
        '9'
    }
}

/// The decimal numeral of `n`, most significant digit first, without leading
/// zeros (the numeral of zero is the single digit zero).
pub open spec fn spec_decimal(n: nat) -> Seq<char>
    decreases n,
{
    if n < 10 {
        seq![spec_digit_char(n as int)]
    } else {
        spec_decimal(n / 10).push(spec_digit_char((n % 10) as int))
    }
}

/// The one-character string of a single decimal digit.
fn digit_str(d: u128) -> (r: &'static str)
    requires
        d < 10,
    ensures
        r@ == seq![spec_digit_char(d as int)],
{
    let r: &'static str = if d == 0 {
        "0"
    } else if d == 1 {
        "1"
    } else if d == 2 {
        "2"
    } else if d == 3 {
        "3"
    } else if d == 4 {
        "4"
    } else if d == 5 {
        "5"
    } else if d == 6 {
        "6"
    } else if d == 7 {
        "7"
    } else if d == 8 {
        "8"
    } else {
        "9"
    };
    proof {
        reveal_strlit("0");
        reveal_strlit("1");
        reveal_strlit("2");
        reveal_strlit("3");
        reveal_strlit("4");
        reveal_strlit("5");
        reveal_strlit("6");
        reveal_strlit("7");
        reveal_strlit("8");
        reveal_strlit("9");
        assert(r@ =~= seq![spec_digit_char(d as int)]);
    }
    r
}

/// Appends the decimal numeral of `n`.
fn push_decimal(n: u128, out: &mut String)
    ensures
        final(out)@ == old(out)@ + spec_decimal(n as nat),
    decreases n,
{
    if n < 10 {
        out.append(digit_str(n));
        proof {
            assert(final(out)@ =~= old(out)@ + spec_decimal(n as nat));
        }
    } else {
        push_decimal(n / 10, out);
        out.append(digit_str(n % 10));
        proof {
            assert(final(out)@ =~= old(out)@ + spec_decimal(n as nat));
        }
    }
}

/// The decimal numeral of `n` as a string.
pub fn u128_to_string(n: u128) -> (s: String)
    ensures
        s@ == spec_decimal(n as nat),
{
    let mut s = String::new();
    push_decimal(n, &mut s);
    proof {
        assert(s@ =~= spec_decimal(n as nat));
    }
    s
}

/// The display form of the configuration record, field by field.
pub open spec fn spec_contract_info(cfg: State) -> Seq<char> {
    "State { admin: \""@ + cfg.admin@ + "\", recipient: \""@ + cfg.recipient@ + "\", denom: \""@
        + cfg.denom@ + "\", business_name: \""@ + cfg.business_name@ + "\" }"@
}

/// Renders the configuration record for the initialization event attribute.
pub fn contract_info_string(cfg: &State) -> (r: String)
    ensures
        r@ == spec_contract_info(*cfg),
{
    let mut r = String::new();
    r.append("State { admin: \"");
    r.append(cfg.admin.as_str());
    r.append("\", recipient: \"");
    r.append(cfg.recipient.as_str());
    r.append("\", denom: \"");
    r.append(cfg.denom.as_str());
    r.append("\", business_name: \"");
    r.append(cfg.business_name.as_str());
    r.append("\" }");
    proof {
        assert(r@ =~= spec_contract_info(*cfg));
    }
    r
}

} // verus!
