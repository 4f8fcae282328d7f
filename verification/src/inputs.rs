//! Operand selection and the host's summary line.
//!
//! The program takes its two operands from the parsed command-line values,
//! in order, falling back to the fixed constants 9.11 and 9.9 (given here by
//! their IEEE-754 double bit patterns) for the missing ones.  After the
//! comparison runs, the host prints one human-readable summary line; this
//! module assembles that line.

use vstd::prelude::*;

verus! {

/// Bit pattern of the double 9.11, the first operand's fallback.
pub const DEFAULT_LHS_BITS: u64 = 0x4022_3851_eb85_1eb8;

/// Bit pattern of the double 9.9, the second operand's fallback.
pub const DEFAULT_RHS_BITS: u64 = 0x4023_cccc_cccc_cccd;

/// Picks the two operands from the parsed values: the first two present are
/// taken in order, missing ones fall back to the defaults, and any further
/// values are ignored.
pub fn select_operands(parsed: &Vec<u64>) -> (r: (u64, u64))
    ensures
        r.0 == if parsed@.len() >= 1 {
            parsed@[0]
        } else {
            DEFAULT_LHS_BITS
        },
        r.1 == if parsed@.len() >= 2 {
            parsed@[1]
        } else {
            DEFAULT_RHS_BITS
        },
{
    let lhs: u64 = if parsed.len() >= 1 {
        parsed[0]
    } else {
        DEFAULT_LHS_BITS
    };
    let rhs: u64 = if parsed.len() >= 2 {
        parsed[1]
    } else {
        DEFAULT_RHS_BITS
    };
    (lhs, rhs)
}

/// The default pair compares to false: 9.11 does not exceed 9.9 under the
/// ordered greater-than.
pub proof fn lemma_defaults_not_greater()
    ensures
        !crate::fbits::f64_gt(DEFAULT_LHS_BITS, DEFAULT_RHS_BITS),
{
    assert(!crate::fbits::is_nan(DEFAULT_LHS_BITS)) by (bit_vector);
    assert(!crate::fbits::is_nan(DEFAULT_RHS_BITS)) by (bit_vector);
    assert(!crate::fbits::is_neg(DEFAULT_LHS_BITS)) by (bit_vector);
    assert(!crate::fbits::is_neg(DEFAULT_RHS_BITS)) by (bit_vector);
    assert(crate::fbits::magnitude(DEFAULT_LHS_BITS) == 0x4022_3851_eb85_1eb8u64)
        by (bit_vector);
    assert(crate::fbits::magnitude(DEFAULT_RHS_BITS) == 0x4023_cccc_cccc_cccdu64)
        by (bit_vector);
}

/// With no arguments the program runs the comparison on (9.11, 9.9): the
/// generated function prints 0 and reports false.
pub proof fn lemma_default_run(rep: crate::ir::FunctionRep)
    requires
        crate::ir::is_comparison_rep(rep),
    ensures
        crate::eval::run_function(rep, DEFAULT_LHS_BITS, DEFAULT_RHS_BITS) == Some(
            (seq![0u32], false),
        ),
{
    lemma_defaults_not_greater();
    crate::eval::lemma_comparison_semantics(rep, DEFAULT_LHS_BITS, DEFAULT_RHS_BITS);
}

/// The view of the text `true` or `false` that the summary line reports.
pub open spec fn bool_text(r: bool) -> Seq<char> {
    if r {
        "true"@
    } else {
        "false"@
    }
}

/// Assembles the host's summary line `Is <lhs> larger than <rhs> ? <result>`
/// from the textual renderings of the two operands and the boolean outcome.
pub fn summary_line(lhs: &str, rhs: &str, result: bool) -> (s: String)
    ensures
        s@ == "Is "@ + lhs@ + " larger than "@ + rhs@ + " ? "@ + bool_text(result),
{
    let mut s = String::from_str("Is ");
    s.append(lhs);
    s.append(" larger than ");
    s.append(rhs);
    s.append(" ? ");
    if result {
        s.append("true");
    } else {
        s.append("false");
    }
    s
}

} // verus!
