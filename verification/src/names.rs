//! Deterministic naming: decimal rendering of counters, wire and
//! duplication-label names, and the emitted-network naming scheme.
//!
//! Identical inputs must always produce byte-identical output networks,
//! so every name is pinned down to the character by a spec function.

use vstd::prelude::*;
use vstd::string::StringExecFns;

verus! {

/// The character for one decimal digit.
pub open spec fn digit_char(d: nat) -> char {
    if d == 0 {
        '0'
    } else if d == 1 {
        '1'
    } else if d == 2 {
        '2'
    } else if d == 3 {
        '3'
    } else if d == 4 {
        '4'
    } else if d == 5 {
        '5'
    } else if d == 6 {
        '6'
    } else if d == 7 {
        '7'
    } else if d == 8 {
        '8'
    } else {
        '9'
    }
}

/// The usual decimal rendering of `n`, most significant digit first,
/// without leading zeros (`0` renders as `"0"`).
pub open spec fn decimal_chars(n: nat) -> Seq<char>
    decreases n,
{
    if n < 10 {
        seq![digit_char(n)]
    } else {
        decimal_chars(n / 10).push(digit_char(n % 10))
    }
}

/// The name of wire `n`: `w` followed by the decimal rendering.
pub open spec fn wire_name(n: nat) -> Seq<char> {
    seq!['w'] + decimal_chars(n)
}

/// The label of duplication fragment `n`: `dup` followed by the decimal
/// rendering.
pub open spec fn dup_name(n: nat) -> Seq<char> {
    seq!['d', 'u', 'p'] + decimal_chars(n)
}

/// A path-style suffix: `::` followed by the decimal rendering of `n`.
pub open spec fn path_suffix(n: nat) -> Seq<char> {
    seq![':', ':'] + decimal_chars(n)
}

/// The name of the network emitted for one stage of one specialization:
/// the specialization's qualified path, an index suffix if the
/// specialization is not the sole instantiation of its definition, and a
/// stage suffix if the stage is not the unit's entry stage.
pub open spec fn stage_name_v(path: Seq<char>, singular: bool, index: nat, stage: nat) -> Seq<
    char,
> {
    (if singular {
        path
    } else {
        path + path_suffix(index)
    }) + (if stage == 0 {
        Seq::<char>::empty()
    } else {
        path_suffix(stage)
    })
}

/// The string for one decimal digit.
fn digit_str(d: usize) -> (r: &'static str)
    requires
        d < 10,
    ensures
        r@ == seq![digit_char(d as nat)],
{
    proof {
        reveal_strlit("0");
        reveal_strlit("1");
        reveal_strlit("2");
        reveal_strlit("3");
        reveal_strlit("4");
        reveal_strlit("5");
        reveal_strlit("6");
        reveal_strlit("7");
        reveal_strlit("8");
        reveal_strlit("9");
    }
    if d == 0 {
        proof {
            assert("0"@ =~= seq![digit_char(d as nat)]);
        }
        "0"
    } else if d == 1 {
        proof {
            assert("1"@ =~= seq![digit_char(d as nat)]);
        }
        "1"
    } else if d == 2 {
        proof {
            assert("2"@ =~= seq![digit_char(d as nat)]);
        }
        "2"
    } else if d == 3 {
        proof {
            assert("3"@ =~= seq![digit_char(d as nat)]);
        }
        "3"
    } else if d == 4 {
        proof {
            assert("4"@ =~= seq![digit_char(d as nat)]);
        }
        "4"
    } else if d == 5 {
        proof {
            assert("5"@ =~= seq![digit_char(d as nat)]);
        }
        "5"
    } else if d == 6 {
        proof {
            assert("6"@ =~= seq![digit_char(d as nat)]);
        }
        "6"
    } else if d == 7 {
        proof {
            assert("7"@ =~= seq![digit_char(d as nat)]);
        }
        "7"
    } else if d == 8 {
        proof {
            assert("8"@ =~= seq![digit_char(d as nat)]);
        }
        "8"
    } else {
        proof {
            assert("9"@ =~= seq![digit_char(d as nat)]);
        }
        "9"
    }
}

/// Append the decimal rendering of `n` to `s`.
pub fn push_decimal(s: &mut String, n: usize)
    ensures
        final(s)@ == old(s)@ + decimal_chars(n as nat),
    decreases n,
{
    if n >= 10 {
        push_decimal(s, n / 10);
    }
    s.append(digit_str(n % 10));
    proof {
        assert(final(s)@ =~= old(s)@ + decimal_chars(n as nat));
    }
}

/// The name of wire `n`, as a string.
pub fn wire_string(n: usize) -> (r: String)
    ensures
        r@ == wire_name(n as nat),
{
    proof {
        reveal_strlit("w");
    }
    let mut s = String::from_str("w");
    proof {
        assert(s@ =~= seq!['w']);
    }
    push_decimal(&mut s, n);
    s
}

/// The label of duplication fragment `n`, as a string.
pub fn dup_string(n: usize) -> (r: String)
    ensures
        r@ == dup_name(n as nat),
{
    proof {
        reveal_strlit("dup");
    }
    let mut s = String::from_str("dup");
    proof {
        assert(s@ =~= seq!['d', 'u', 'p']);
    }
    push_decimal(&mut s, n);
    s
}

/// Append `::` and the decimal rendering of `n` to `s`.
pub(crate) fn push_suffix(s: &mut String, n: usize)
    ensures
        final(s)@ == old(s)@ + path_suffix(n as nat),
{
    proof {
        reveal_strlit("::");
    }
    s.append("::");
    proof {
        assert(s@ =~= old(s)@ + seq![':', ':']);
    }
    push_decimal(s, n);
    proof {
        assert(final(s)@ =~= old(s)@ + path_suffix(n as nat));
    }
}

/// The emitted-network name for the stage `stage` of a specialization
/// with qualified path `path`, sole-instantiation flag `singular` and
/// sibling index `index`.
pub fn stage_string(path: &str, singular: bool, index: usize, stage: usize) -> (r: String)
    ensures
        r@ == stage_name_v(path@, singular, index as nat, stage as nat),
{
    let mut s = path.to_owned();
    if !singular {
        push_suffix(&mut s, index);
    }
    if stage != 0 {
        push_suffix(&mut s, stage);
    }
    proof {
        assert(s@ =~= stage_name_v(path@, singular, index as nat, stage as nat));
    }
    s
}

} // verus!
