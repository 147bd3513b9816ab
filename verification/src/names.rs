//! The names that the calling convention gives to the 32 registers.

use vstd::prelude::*;
use vstd::string::StringExecFns;
use crate::state::CoreState;

verus! {

/// The character of the decimal digit `digit`.
pub open spec fn digit_char(digit: int) -> char
    recommends
        0 <= digit < 10,
{
    if digit == 0 {
        '0'
    } else if digit == 1 {
        '1'
    } else if digit == 2 {
        '2'
    } else if digit == 3 {
        '3'
    } else if digit == 4 {
        '4'
    } else if digit == 5 {
        '5'
    } else if digit == 6 {
        '6'
    } else if digit == 7 {
        '7'
    } else if digit == 8 {
        '8'
    } else {
        '9'
    }
}

/// The decimal digits of `number`, most significant first, without leading
/// zeros.
pub open spec fn decimal(number: nat) -> Seq<char>
    decreases number,
{
    if number < 10 {
        seq![digit_char(number as int)]
    } else {
        decimal(number / 10).push(digit_char((number % 10) as int))
    }
}

/// The name of register `index`: `zero`, `ra`, `sp`, `gp` and `tp` for the
/// first five, then a letter and a number: `t0` to `t2`, `s0` and `s1`,
/// `a0` to `a7`, `s2` to `s11`, `t3` to `t6`.
pub open spec fn reg_name_spec(index: int) -> Seq<char>
    recommends
        0 <= index < 32,
{
    if index == 0 {
        seq!['z', 'e', 'r', 'o']
    } else if index == 1 {
        seq!['r', 'a']
    } else if index == 2 {
        seq!['s', 'p']
    } else if index == 3 {
        seq!['g', 'p']
    } else if index == 4 {
        seq!['t', 'p']
    } else if index <= 7 {
        seq!['t'] + decimal((index - 5) as nat)
    } else if index <= 9 {
        seq!['s'] + decimal((index - 8) as nat)
    } else if index <= 17 {
        seq!['a'] + decimal((index - 10) as nat)
    } else if index <= 27 {
        seq!['s'] + decimal((index - 16) as nat)
    } else {
        seq!['t'] + decimal((index - 25) as nat)
    }
}

fn digit_str(digit: usize) -> (text: &'static str)
    requires
        digit < 10,
    ensures
        text@ == seq![digit_char(digit as int)],
{
    proof {
        reveal_strlit("0");
        reveal_strlit("1");
        reveal_strlit("2");
        reveal_strlit("3");
        reveal_strlit("4");
        reveal_strlit("5");
        reveal_strlit("6");
        reveal_strlit("7");
        reveal_strlit("8");
        reveal_strlit("9");
    }
    let text = if digit == 0 {
        "0"
    } else if digit == 1 {
        "1"
    } else if digit == 2 {
        "2"
    } else if digit == 3 {
        "3"
    } else if digit == 4 {
        "4"
    } else if digit == 5 {
        "5"
    } else if digit == 6 {
        "6"
    } else if digit == 7 {
        "7"
    } else if digit == 8 {
        "8"
    } else {
        "9"
    };
    assert(text@ =~= seq![digit_char(digit as int)]);
    text
}

fn append_decimal(text: &mut String, number: usize)
    ensures
        final(text)@ == old(text)@ + decimal(number as nat),
    decreases number,
{
    if number >= 10 {
        append_decimal(text, number / 10);
    }
    text.append(digit_str(number % 10));
    assert(text@ =~= old(text)@ + decimal(number as nat));
}

fn numbered(prefix: &str, number: usize) -> (name: String)
    ensures
        name@ == prefix@ + decimal(number as nat),
{
    let mut name = String::from_str(prefix);
    append_decimal(&mut name, number);
    name
}

impl CoreState {
    /// The name of register `index` in the calling convention.
    pub fn reg_name(index: usize) -> (name: String)
        requires
            index < 32,
        ensures
            name@ == reg_name_spec(index as int),
    {
        proof {
            reveal_strlit("zero");
            reveal_strlit("ra");
            reveal_strlit("sp");
            reveal_strlit("gp");
            reveal_strlit("tp");
            reveal_strlit("t");
            reveal_strlit("s");
            reveal_strlit("a");
        }
        let name = if index == 0 {
            String::from_str("zero")
        } else if index == 1 {
            String::from_str("ra")
        } else if index == 2 {
            String::from_str("sp")
        } else if index == 3 {
            String::from_str("gp")
        } else if index == 4 {
            String::from_str("tp")
        } else if index <= 7 {
            numbered("t", index - 5)
        } else if index <= 9 {
            numbered("s", index - 8)
        } else if index <= 17 {
            numbered("a", index - 10)
        } else if index <= 27 {
            numbered("s", index - 16)
        } else {
            numbered("t", index - 25)
        };
        assert(name@ =~= reg_name_spec(index as int));
        name
    }
}

} // verus!
