//! Semantics of the function representation.
//!
//! `run_function` says what a representation computes on two double
//! arguments: the values printed through the print primitive and the boolean
//! result, or nothing when execution would go wrong.  An executable
//! evaluator implements exactly that, and a lemma pins down what the
//! comparison representation built by this library computes: it prints the
//! widened outcome of the ordered greater-than and returns that outcome.

use vstd::prelude::*;

use crate::fbits::f64_gt;
use crate::fbits::float_gt_bits;
use crate::ir::{
    inst_result_ty, inst_wf, is_comparison_rep, operand_ty, well_formed, FunctionRep, Inst,
    Operand, Ty,
};

verus! {

/// A runtime value: a double carried as its bit pattern, a 1-bit boolean,
/// or a 32-bit integer.
#[derive(Clone, Copy, PartialEq, Eq, Structural, Debug)]
pub enum Val {
    /// A double, by its IEEE-754 bit pattern.
    F64Bits(u64),
    /// A 1-bit integer.
    I1(bool),
    /// A 32-bit integer.
    I32(u32),
}

/// The value an operand reads: a parameter or an earlier instruction's
/// result, `None` when out of range.
pub open spec fn operand_val(params: Seq<Val>, temps: Seq<Val>, o: Operand) -> Option<Val> {
    match o {
        Operand::Param(j) => if (j as int) < params.len() {
            Some(params[j as int])
        } else {
            None
        },
        Operand::Temp(t) => if (t as int) < temps.len() {
            Some(temps[t as int])
        } else {
            None
        },
    }
}

/// Executes a body from instruction `k` on, given the parameter values, the
/// results of the first `k` instructions, and the integers printed so far.
/// Yields the full print trace and the returned boolean, or `None` when an
/// operand is missing or has the wrong type, the body ends without a return,
/// or the returned value is not a boolean.  The print primitive's own result
/// is modelled as the integer 0; a well-formed comparison body never reads
/// it.
pub open spec fn run_from(
    body: Seq<Inst>,
    params: Seq<Val>,
    temps: Seq<Val>,
    prints: Seq<u32>,
    k: int,
) -> Option<(Seq<u32>, bool)>
    decreases body.len() - k,
{
    if k < 0 || k >= body.len() {
        None
    } else {
        match body[k] {
            Inst::FCmpOgt(a, b) => match (
                operand_val(params, temps, a),
                operand_val(params, temps, b),
            ) {
                (Some(Val::F64Bits(x)), Some(Val::F64Bits(y))) => run_from(
                    body,
                    params,
                    temps.push(Val::I1(f64_gt(x, y))),
                    prints,
                    k + 1,
                ),
                _ => None,
            },
            Inst::ZExtToI32(a) => match operand_val(params, temps, a) {
                Some(Val::I1(v)) => run_from(
                    body,
                    params,
                    temps.push(Val::I32(if v { 1u32 } else { 0u32 })),
                    prints,
                    k + 1,
                ),
                _ => None,
            },
            Inst::CallPrint(a) => match operand_val(params, temps, a) {
                Some(Val::I32(n)) => run_from(
                    body,
                    params,
                    temps.push(Val::I32(0)),
                    prints.push(n),
                    k + 1,
                ),
                _ => None,
            },
            Inst::Ret(a) => match operand_val(params, temps, a) {
                Some(Val::I1(r)) => Some((prints, r)),
                _ => None,
            },
        }
    }
}

/// What a representation computes when invoked on two doubles given by
/// their bit patterns, the first bound to the first parameter.
pub open spec fn run_function(rep: FunctionRep, a: u64, b: u64) -> Option<(Seq<u32>, bool)> {
    run_from(rep.body@, seq![Val::F64Bits(a), Val::F64Bits(b)], Seq::empty(), Seq::empty(), 0)
}

/// The value an operand reads, executably.
fn operand_val_exec(params: &Vec<Val>, temps: &Vec<Val>, o: Operand) -> (r: Option<Val>)
    ensures
        r == operand_val(params@, temps@, o),
{
    match o {
        Operand::Param(j) => if j < params.len() {
            Some(params[j])
        } else {
            None
        },
        Operand::Temp(t) => if t < temps.len() {
            Some(temps[t])
        } else {
            None
        },
    }
}

/// Evaluates a representation on two doubles given by their bit patterns:
/// returns the integers printed and the boolean result, exactly as the
/// semantics `run_function` has them, or `None` when execution goes wrong.
pub fn eval_function(rep: &FunctionRep, a: u64, b: u64) -> (r: Option<(Vec<u32>, bool)>)
    ensures
        match r {
            Some(t) => run_function(*rep, a, b) == Some((t.0@, t.1)),
            None => run_function(*rep, a, b) is None,
        },
{
    let mut params: Vec<Val> = Vec::new();
    params.push(Val::F64Bits(a));
    params.push(Val::F64Bits(b));
    let mut temps: Vec<Val> = Vec::new();
    let mut prints: Vec<u32> = Vec::new();
    let n = rep.body.len();
    proof {
        assert(params@ =~= seq![Val::F64Bits(a), Val::F64Bits(b)]);
        assert(temps@ =~= Seq::<Val>::empty());
        assert(prints@ =~= Seq::<u32>::empty());
    }
    let mut k: usize = 0;
    while k < n
        invariant
            n == rep.body@.len(),
            k <= n,
            params@ =~= seq![Val::F64Bits(a), Val::F64Bits(b)],
            run_function(*rep, a, b) == run_from(rep.body@, params@, temps@, prints@, k as int),
        decreases n - k,
    {
        match rep.body[k] {
            Inst::FCmpOgt(oa, ob) => {
                let va = operand_val_exec(&params, &temps, oa);
                let vb = operand_val_exec(&params, &temps, ob);
                match (va, vb) {
                    (Some(Val::F64Bits(x)), Some(Val::F64Bits(y))) => {
                        let cmp = float_gt_bits(x, y);
                        temps.push(Val::I1(cmp));
                    },
                    _ => {
                        return None;
                    },
                }
            },
            Inst::ZExtToI32(oa) => {
                let va = operand_val_exec(&params, &temps, oa);
                match va {
                    Some(Val::I1(v)) => {
                        temps.push(Val::I32(if v { 1u32 } else { 0u32 }));
                    },
                    _ => {
                        return None;
                    },
                }
            },
            Inst::CallPrint(oa) => {
                let va = operand_val_exec(&params, &temps, oa);
                match va {
                    Some(Val::I32(m)) => {
                        temps.push(Val::I32(0));
                        prints.push(m);
                    },
                    _ => {
                        return None;
                    },
                }
            },
            Inst::Ret(oa) => {
                let va = operand_val_exec(&params, &temps, oa);
                match va {
                    Some(Val::I1(res)) => {
                        return Some((prints, res));
                    },
                    _ => {
                        return None;
                    },
                }
            },
        }
        k = k + 1;
    }
    None
}

/// The type of a runtime value.
pub open spec fn val_ty(v: Val) -> Ty {
    match v {
        Val::F64Bits(_) => Ty::F64,
        Val::I1(_) => Ty::I1,
        Val::I32(_) => Ty::I32,
    }
}

/// The typing invariant of a running evaluation: the parameters carry the
/// declared types, and each computed result carries its instruction's
/// result type.
pub open spec fn state_typed(rep: FunctionRep, params: Seq<Val>, temps: Seq<Val>) -> bool {
    &&& params.len() == rep.param_tys@.len()
    &&& forall|j: int| 0 <= j < params.len() ==> val_ty(params[j]) == rep.param_tys@[j]
    &&& forall|t: int|
        0 <= t < temps.len() ==> inst_result_ty(rep.body@[t]) == Some(val_ty(temps[t]))
}

/// In a typed state, an operand the instruction at index `k` may read per
/// the well-formedness rules yields a value of exactly the expected type.
proof fn lemma_operand_progress(
    rep: FunctionRep,
    params: Seq<Val>,
    temps: Seq<Val>,
    k: int,
    o: Operand,
    t: Ty,
)
    requires
        state_typed(rep, params, temps),
        temps.len() == k,
        k <= rep.body@.len(),
        operand_ty(rep, o, k) == Some(t),
    ensures
        operand_val(params, temps, o) is Some,
        val_ty(operand_val(params, temps, o)->Some_0) == t,
{
}

/// Progress: from a typed state at a well-formed instruction, execution
/// reaches the closing return and yields a result.
proof fn lemma_run_from_progress(
    rep: FunctionRep,
    params: Seq<Val>,
    temps: Seq<Val>,
    prints: Seq<u32>,
    k: int,
)
    requires
        well_formed(rep),
        rep.ret_ty == Ty::I1,
        0 <= k < rep.body@.len(),
        temps.len() == k,
        state_typed(rep, params, temps),
    ensures
        run_from(rep.body@, params, temps, prints, k) is Some,
    decreases rep.body@.len() - k,
{
    let n = rep.body@.len() as int;
    assert(inst_wf(rep, k));
    match rep.body@[k] {
        Inst::FCmpOgt(a, b) => {
            lemma_operand_progress(rep, params, temps, k, a, Ty::F64);
            lemma_operand_progress(rep, params, temps, k, b, Ty::F64);
            let va = operand_val(params, temps, a)->Some_0;
            let vb = operand_val(params, temps, b)->Some_0;
            assert(va matches Val::F64Bits(_));
            assert(vb matches Val::F64Bits(_));
            assert(k < n - 1) by {
                assert(rep.body@.last() matches Inst::Ret(_));
            }
            lemma_run_from_progress(
                rep,
                params,
                temps.push(Val::I1(f64_gt(va->F64Bits_0, vb->F64Bits_0))),
                prints,
                k + 1,
            );
        },
        Inst::ZExtToI32(a) => {
            lemma_operand_progress(rep, params, temps, k, a, Ty::I1);
            let va = operand_val(params, temps, a)->Some_0;
            assert(va matches Val::I1(_));
            assert(k < n - 1) by {
                assert(rep.body@.last() matches Inst::Ret(_));
            }
            lemma_run_from_progress(
                rep,
                params,
                temps.push(Val::I32(if va->I1_0 { 1u32 } else { 0u32 })),
                prints,
                k + 1,
            );
        },
        Inst::CallPrint(a) => {
            lemma_operand_progress(rep, params, temps, k, a, Ty::I32);
            let va = operand_val(params, temps, a)->Some_0;
            assert(va matches Val::I32(_));
            assert(k < n - 1) by {
                assert(rep.body@.last() matches Inst::Ret(_));
            }
            lemma_run_from_progress(
                rep,
                params,
                temps.push(Val::I32(0)),
                prints.push(va->I32_0),
                k + 1,
            );
        },
        Inst::Ret(a) => {
            lemma_operand_progress(rep, params, temps, k, a, Ty::I1);
            let va = operand_val(params, temps, a)->Some_0;
            assert(va matches Val::I1(_));
        },
    }
}

/// Validation is sound for execution: a well-formed representation with the
/// comparison's signature cannot go wrong when run — on every pair of double
/// arguments it yields a print trace and a boolean result.
pub proof fn lemma_well_formed_runs(rep: FunctionRep, a: u64, b: u64)
    requires
        well_formed(rep),
        rep.param_tys@ =~= seq![Ty::F64, Ty::F64],
        rep.ret_ty == Ty::I1,
    ensures
        run_function(rep, a, b) is Some,
{
    let params = seq![Val::F64Bits(a), Val::F64Bits(b)];
    assert(state_typed(rep, params, Seq::empty()));
    lemma_run_from_progress(rep, params, Seq::empty(), Seq::empty(), 0);
}

/// What the comparison representation computes, for every pair of double
/// arguments: it prints exactly one integer — 1 when the first argument
/// exceeds the second under the ordered greater-than, else 0 — and returns
/// that comparison's outcome.
pub proof fn lemma_comparison_semantics(rep: FunctionRep, a: u64, b: u64)
    requires
        is_comparison_rep(rep),
    ensures
        run_function(rep, a, b) == Some(
            (seq![if f64_gt(a, b) { 1u32 } else { 0u32 }], f64_gt(a, b)),
        ),
{
    let params = seq![Val::F64Bits(a), Val::F64Bits(b)];
    let c = f64_gt(a, b);
    let w: u32 = if c { 1u32 } else { 0u32 };
    let t0 = Seq::<Val>::empty();
    let t1 = t0.push(Val::I1(c));
    let t2 = t1.push(Val::I32(w));
    let t3 = t2.push(Val::I32(0));
    let p0 = Seq::<u32>::empty();
    let p1 = p0.push(w);
    assert(rep.body@[0] == Inst::FCmpOgt(Operand::Param(0), Operand::Param(1)));
    assert(rep.body@[1] == Inst::ZExtToI32(Operand::Temp(0)));
    assert(rep.body@[2] == Inst::CallPrint(Operand::Temp(1)));
    assert(rep.body@[3] == Inst::Ret(Operand::Temp(0)));
    assert(run_from(rep.body@, params, t0, p0, 0) == run_from(rep.body@, params, t1, p0, 1));
    assert(t1[0] == Val::I1(c));
    assert(run_from(rep.body@, params, t1, p0, 1) == run_from(rep.body@, params, t2, p0, 2));
    assert(t2[1] == Val::I32(w));
    assert(run_from(rep.body@, params, t2, p0, 2) == run_from(rep.body@, params, t3, p1, 3));
    assert(t3[0] == Val::I1(c));
    assert(run_from(rep.body@, params, t3, p1, 3) == Some((p1, c)));
    assert(p1 =~= seq![w]);
}

/// Computes directly what the generated function computes on two doubles
/// given by their bit patterns: the printed integer (the comparison widened
/// to 0 or 1) and the boolean outcome of the ordered greater-than.
pub fn compare_and_report(a: u64, b: u64) -> (r: (u32, bool))
    ensures
        r.1 == f64_gt(a, b),
        r.0 == (if f64_gt(a, b) { 1u32 } else { 0u32 }),
{
    let c = float_gt_bits(a, b);
    (if c { 1u32 } else { 0u32 }, c)
}

} // verus!
