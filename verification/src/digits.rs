//! Rendering a number under a numeral system whose digit alphabet is the
//! word-list: digit words appear least-significant first, separated by
//! single spaces.

use vstd::prelude::*;
use vstd::string::StringExecFns;

verus! {

/// The rendering of `n` continued onto what is already built in `acc`:
/// while digits remain, a space is put down first whenever `acc` is
/// non-empty, then the word for the next (least significant) digit.
pub open spec fn spec_to_digits_acc(n: nat, syms: Seq<Seq<char>>, acc: Seq<char>) -> Seq<char>
    decreases n,
    via spec_to_digits_acc_decreases
{
    if syms.len() < 2 || n == 0 {
        acc
    } else {
        let base = syms.len() as int;
        let sep = if acc.len() > 0 {
            acc + seq![' ']
        } else {
            acc
        };
        spec_to_digits_acc((n as int / base) as nat, syms, sep + syms[n as int % base])
    }
}

#[via_fn]
proof fn spec_to_digits_acc_decreases(n: nat, syms: Seq<Seq<char>>, acc: Seq<char>) {
    if syms.len() >= 2 && n > 0 {
        assert((n as int) / (syms.len() as int) < n) by (nonlinear_arith)
            requires
                n >= 1,
                syms.len() >= 2,
        ;
    }
}

/// The base-`syms.len()` rendering of `n` with the alphabet `syms`:
/// empty for zero, else the digit words from least significant up,
/// space-separated (an empty digit word adds no separator of its own).
pub open spec fn spec_to_digits(n: nat, syms: Seq<Seq<char>>) -> Seq<char> {
    spec_to_digits_acc(n, syms, Seq::empty())
}

/// Returns the base-n representation of a number according to an
/// alphabet specified in `symbols`; the length of `symbols` is the base.
/// For example, `symbols = ["0", "1"]` is the binary numeral system.
pub fn to_digits(num: u32, symbols: &Vec<&str>) -> (r: String)
    requires
        2 <= symbols@.len() <= 0xffff_ffff,
    ensures
        r@ == spec_to_digits(num as nat, symbols@.map_values(|s: &str| s@)),
{
    let ghost syms = symbols@.map_values(|s: &str| s@);
    let base: u32 = symbols.len() as u32;
    let mut digits = String::new();
    let mut n = num;
    while n > 0
        invariant
            2 <= symbols@.len() <= 0xffff_ffff,
            base == symbols@.len(),
            syms == symbols@.map_values(|s: &str| s@),
            spec_to_digits_acc(num as nat, syms, Seq::empty()) == spec_to_digits_acc(
                n as nat,
                syms,
                digits@,
            ),
        decreases n,
    {
        let ghost n0 = n as nat;
        let ghost d0 = digits@;
        let i = n % base;
        proof {
            reveal_strlit(" ");
            assert(syms[i as int] == symbols@[i as int]@);
            assert(n / base < n) by (nonlinear_arith)
                requires
                    n >= 1,
                    base >= 2,
            ;
        }
        if !digits.as_str().is_empty() {
            digits.append(" ");
        }
        digits.append(symbols[i as usize]);
        proof {
            let sep = if d0.len() > 0 {
                d0 + seq![' ']
            } else {
                d0
            };
            assert(digits@ =~= sep + syms[i as int]);
            assert((n0 as int) % (base as int) == i as int);
            assert(spec_to_digits_acc(n0, syms, d0) == spec_to_digits_acc(
                ((n0 as int) / (base as int)) as nat,
                syms,
                sep + syms[i as int],
            ));
        }
        n = n / base;
    }
    digits
}

} // verus!
