//! Building the explanations that checks report.
use vstd::prelude::*;

verus! {

pub assume_specification[ String::push ](s: &mut String, ch: char)
    ensures
        final(s)@ == old(s)@.push(ch),
;

/// The character of a decimal digit.
pub open spec fn digit_char(d: nat) -> char {
    ((48 + d) as u8) as char
}

/// The digits of `n` written in base `radix`, most significant first, without
/// leading zeros (`0` is written as a single digit), as `format!` writes them.
pub open spec fn radix_text(n: nat, radix: nat) -> Seq<char>
    decreases n,
{
    if radix < 2 || n < radix {
        seq![digit_char(n)]
    } else {
        proof {
            assert(n / radix < n) by (nonlinear_arith)
                requires
                    radix >= 2,
                    n >= radix,
            ;
        }
        radix_text(n / radix, radix).push(digit_char(n % radix))
    }
}

/// Appends the digits of `n` in base `radix`.
pub fn push_number(s: &mut String, n: u32, radix: u32)
    requires
        2 <= radix <= 10,
    ensures
        final(s)@ == old(s)@ + radix_text(n as nat, radix as nat),
    decreases n,
{
    if n >= radix {
        assert(n / radix < n) by (nonlinear_arith)
            requires
                radix >= 2,
                n >= radix,
        ;
        push_number(s, n / radix, radix);
    }
    let d = n % radix;
    let c = ((48 + d) as u8) as char;
    assert(c == digit_char((n % radix) as nat));
    if n < radix {
        assert(n % radix == n) by (nonlinear_arith)
            requires
                n < radix,
                radix >= 2,
        ;
    }
    s.push(c);
    assert(s@ =~= old(s)@ + radix_text(n as nat, radix as nat));
}

/// What `format!("{:?}", Path::new(p))` makes of a path: the path quoted, with
/// special characters (quotes and apostrophes among them) escaped.
pub uninterp spec fn path_debug_text(p: Seq<char>) -> Seq<char>;

/// `format!("{:?}", Path::new(p))`: the `Debug` form of a path.
#[verifier::external_body]
pub(crate) fn debug_path(p: &str) -> (r: String)
    ensures
        r@ == path_debug_text(p@),
{
    format!("{:?}", std::path::Path::new(p))
}

/// The string `a` followed by `b`.
pub fn concat2(a: &str, b: &str) -> (r: String)
    ensures
        r@ == a@ + b@,
{
    let mut r = a.to_owned();
    r.append(b);
    r
}

} // verus!
