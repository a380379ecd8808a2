//! Building blocks of SQL text: numbered parameter references and lists.
use vstd::prelude::*;

use crate::text::{decimal_digits, u64_text};

verus! {

/// The most parameters one statement may carry.
pub const MAX_PARAMS: usize = 65535;

/// `$n`, the reference to the `n`-th parameter.
pub open spec fn param_ref(n: nat) -> Seq<char> {
    seq!['$'] + decimal_digits(n)
}

/// `$first, $first+1, ..., $first+count-1`.
pub open spec fn numbered_params(first: nat, count: nat) -> Seq<char>
    decreases count,
{
    if count == 0 {
        Seq::empty()
    } else if count == 1 {
        param_ref(first)
    } else {
        numbered_params(first, (count - 1) as nat) + ", "@ + param_ref((first + count - 1) as nat)
    }
}

/// `($k*fields+1, ..., $k*fields+fields)`, the group of the `k`-th row.
pub open spec fn param_group(k: nat, fields: nat) -> Seq<char> {
    "("@ + numbered_params(k * fields + 1, fields) + ")"@
}

/// The groups of `rows` rows of `fields` parameters each, separated by `, `.
pub open spec fn param_groups(rows: nat, fields: nat) -> Seq<char>
    decreases rows,
{
    if rows == 0 {
        Seq::empty()
    } else if rows == 1 {
        param_group(0, fields)
    } else {
        param_groups((rows - 1) as nat, fields) + ", "@ + param_group((rows - 1) as nat, fields)
    }
}

/// Appends `$n`.
pub fn push_param_ref(out: &mut String, n: u64)
    ensures
        final(out)@ == old(out)@ + param_ref(n as nat),
{
    out.append("$");
    let digits = u64_text(n);
    out.append(digits.as_str());
    proof {
        reveal_strlit("$");
        assert(final(out)@ =~= old(out)@ + param_ref(n as nat));
    }
}

/// Appends `$first, ..., $first+count-1`.
pub fn push_numbered_params(out: &mut String, first: u64, count: u64)
    requires
        first + count <= u64::MAX,
    ensures
        final(out)@ == old(out)@ + numbered_params(first as nat, count as nat),
{
    let ghost start = out@;
    let mut k: u64 = 0;
    while k < count
        invariant
            first + count <= u64::MAX,
            k <= count,
            out@ == start + numbered_params(first as nat, k as nat),
        decreases count - k,
    {
        if k > 0 {
            out.append(", ");
        }
        push_param_ref(out, first + k);
        proof {
            assert(out@ =~= start + numbered_params(first as nat, (k + 1) as nat));
        }
        k = k + 1;
    }
}

/// `$first, ..., $first+count-1` as a new text.
pub fn numbered_params_text(first: u64, count: u64) -> (r: String)
    requires
        first + count <= u64::MAX,
    ensures
        r@ == numbered_params(first as nat, count as nat),
{
    let mut out = String::new();
    push_numbered_params(&mut out, first, count);
    assert(out@ =~= numbered_params(first as nat, count as nat));
    out
}

/// The parameter groups of `rows` rows of `fields` parameters each.
pub fn param_groups_text(rows: u64, fields: u64) -> (r: String)
    requires
        rows * fields + fields + 1 <= u64::MAX,
    ensures
        r@ == param_groups(rows as nat, fields as nat),
{
    let mut out = String::new();
    let mut k: u64 = 0;
    while k < rows
        invariant
            rows * fields + fields + 1 <= u64::MAX,
            k <= rows,
            out@ == param_groups(k as nat, fields as nat),
        decreases rows - k,
    {
        let ghost before = out@;
        if k > 0 {
            out.append(", ");
        }
        out.append("(");
        assert(k * fields <= rows * fields) by (nonlinear_arith)
            requires
                k <= rows,
        ;
        push_numbered_params(&mut out, k * fields + 1, fields);
        out.append(")");
        proof {
            if k == 0 {
                assert(out@ =~= param_group(0, fields as nat));
            } else {
                assert(out@ =~= before + ", "@ + param_group(k as nat, fields as nat));
            }
        }
        k = k + 1;
    }
    out
}

} // verus!
