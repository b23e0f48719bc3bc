//! Decimal rendering of the integer quantities the engine exposes
//! (clock, score line), verified against a sequence-of-characters model.

use vstd::prelude::*;
use vstd::string::StringExecFns;

verus! {

/// The character of a single decimal digit.
pub open spec fn chiffre(d: int) -> char {
    if d == 0 {
        '0'
    } else if d == 1 {
        '1'
    } else if d == 2 {
        '2'
    } else if d == 3 {
        '3'
    } else if d == 4 {
        '4'
    } else if d == 5 {
        '5'
    } else if d == 6 {
        '6'
    } else if d == 7 {
        '7'
    } else if d == 8 {
        '8'
    } else {
        '9'
    }
}

/// Decimal writing of a non-negative integer, most significant digit first.
pub open spec fn chiffres(n: int) -> Seq<char>
    decreases n,
{
    if n < 10 {
        seq![chiffre(n)]
    } else {
        chiffres(n / 10).push(chiffre(n % 10))
    }
}

/// Decimal writing padded on the left with '0' to at least two characters.
pub open spec fn chiffres_pad2(n: int) -> Seq<char> {
    if n < 10 {
        seq!['0'].add(chiffres(n))
    } else {
        chiffres(n)
    }
}

fn chaine_chiffre(d: u64) -> (r: &'static str)
    requires
        d < 10,
    ensures
        r@ == seq![chiffre(d as int)],
{
    proof {
        reveal_strlit("0");
        reveal_strlit("1");
        reveal_strlit("2");
        reveal_strlit("3");
        reveal_strlit("4");
        reveal_strlit("5");
        reveal_strlit("6");
        reveal_strlit("7");
        reveal_strlit("8");
        reveal_strlit("9");
    }
    let r = if d == 0 {
        "0"
    } else if d == 1 {
        "1"
    } else if d == 2 {
        "2"
    } else if d == 3 {
        "3"
    } else if d == 4 {
        "4"
    } else if d == 5 {
        "5"
    } else if d == 6 {
        "6"
    } else if d == 7 {
        "7"
    } else if d == 8 {
        "8"
    } else {
        "9"
    };
    proof {
        assert(r@ =~= seq![chiffre(d as int)]);
    }
    r
}

/// The decimal writing of `n`.
pub fn decimal(n: u64) -> (s: String)
    ensures
        s@ == chiffres(n as int),
    decreases n,
{
    if n < 10 {
        let s = String::from_str(chaine_chiffre(n));
        proof {
            assert(s@ =~= chiffres(n as int));
        }
        s
    } else {
        let mut s = decimal(n / 10);
        s.append(chaine_chiffre(n % 10));
        proof {
            assert(s@ =~= chiffres(n as int));
        }
        s
    }
}

/// The decimal writing of `n`, left-padded with '0' to two characters.
pub fn decimal_pad2(n: u64) -> (s: String)
    ensures
        s@ == chiffres_pad2(n as int),
{
    if n < 10 {
        proof {
            reveal_strlit("0");
        }
        let mut s = String::from_str("0");
        let d = decimal(n);
        s.append(d.as_str());
        proof {
            assert(s@ =~= chiffres_pad2(n as int));
        }
        s
    } else {
        decimal(n)
    }
}

} // verus!
