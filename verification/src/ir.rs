//! The function representation: an in-memory description of one function
//! that compares two doubles, prints the integer-coerced outcome, and
//! returns the boolean result.
//!
//! The representation is machine-independent.  A separate, unverified layer
//! may translate it into a native code generator's form and compile it; this
//! module builds it, pins down its exact shape, and validates its internal
//! well-formedness.

use vstd::prelude::*;

verus! {

/// The value types a representation can mention.
#[derive(Clone, Copy, PartialEq, Eq, Structural, Debug)]
pub enum Ty {
    /// 64-bit floating point.
    F64,
    /// 32-bit integer.
    I32,
    /// 1-bit integer (boolean).
    I1,
    /// Pointer (the print primitive's format argument).
    Ptr,
}

/// A value an instruction reads: a function parameter or the result of an
/// earlier instruction.
#[derive(Clone, Copy, PartialEq, Eq, Structural, Debug)]
pub enum Operand {
    /// The parameter with this index.
    Param(usize),
    /// The result of the instruction with this index in the body.
    Temp(usize),
}

/// One instruction of the function body.
#[derive(Clone, Copy, PartialEq, Eq, Structural, Debug)]
pub enum Inst {
    /// Ordered greater-than on two doubles; yields an `I1`.
    FCmpOgt(Operand, Operand),
    /// Zero-extend an `I1` to an `I32` (widen the boolean to 0 or 1).
    ZExtToI32(Operand),
    /// Call the declared print primitive with the format template and this
    /// `I32` argument; yields the primitive's `I32` result.
    CallPrint(Operand),
    /// Return this value from the function; must close the body.
    Ret(Operand),
}

/// The declaration of an external function the generated code may call.
pub struct ExternalDecl {
    /// Symbol name of the external function.
    pub name: String,
    /// Its return type.
    pub ret_ty: Ty,
    /// Its fixed parameter types.
    pub param_tys: Vec<Ty>,
    /// Whether it accepts further, variadic arguments.
    pub variadic: bool,
}

/// The in-memory representation of one function: signature, the external
/// print declaration, the format template handed to it, and the body.
pub struct FunctionRep {
    /// Symbol name under which the function is defined and later looked up.
    pub name: String,
    /// Parameter types, in declaration order.
    pub param_tys: Vec<Ty>,
    /// Return type.
    pub ret_ty: Ty,
    /// The declared host print primitive.
    pub print_decl: ExternalDecl,
    /// Format template passed to the print primitive.
    pub format: String,
    /// The instructions, executed in order.
    pub body: Vec<Inst>,
}

/// The type an instruction's result has, or `None` for an instruction that
/// produces no value.
pub open spec fn inst_result_ty(i: Inst) -> Option<Ty> {
    match i {
        Inst::FCmpOgt(_, _) => Some(Ty::I1),
        Inst::ZExtToI32(_) => Some(Ty::I32),
        Inst::CallPrint(_) => Some(Ty::I32),
        Inst::Ret(_) => None,
    }
}

/// The type of an operand as read by the instruction at index `k`: a
/// parameter's declared type, or the result type of a strictly earlier
/// instruction.  `None` if the operand is out of range or names a
/// result-less instruction.
pub open spec fn operand_ty(rep: FunctionRep, o: Operand, k: int) -> Option<Ty> {
    match o {
        Operand::Param(j) => if (j as int) < rep.param_tys@.len() {
            Some(rep.param_tys@[j as int])
        } else {
            None
        },
        Operand::Temp(t) => if (t as int) < k {
            inst_result_ty(rep.body@[t as int])
        } else {
            None
        },
    }
}

/// Well-formedness of the instruction at index `k`: every operand it reads
/// exists and has the type the instruction expects, and a return stands only
/// at the very end, carrying the declared return type.
pub open spec fn inst_wf(rep: FunctionRep, k: int) -> bool {
    match rep.body@[k] {
        Inst::FCmpOgt(a, b) => operand_ty(rep, a, k) == Some(Ty::F64) && operand_ty(rep, b, k)
            == Some(Ty::F64),
        Inst::ZExtToI32(a) => operand_ty(rep, a, k) == Some(Ty::I1),
        Inst::CallPrint(a) => operand_ty(rep, a, k) == Some(Ty::I32),
        Inst::Ret(a) => operand_ty(rep, a, k) == Some(rep.ret_ty) && k == rep.body@.len() - 1,
    }
}

/// Internal well-formedness of a representation: the body is non-empty,
/// closed by a return, every instruction is well typed, and the print
/// declaration is a variadic function of one pointer (the format) returning
/// an `I32`.
pub open spec fn well_formed(rep: FunctionRep) -> bool {
    &&& rep.body@.len() > 0
    &&& rep.body@.last() matches Inst::Ret(_)
    &&& forall|k: int| 0 <= k < rep.body@.len() ==> inst_wf(rep, k)
    &&& rep.print_decl.variadic
    &&& rep.print_decl.param_tys@ =~= seq![Ty::Ptr]
    &&& rep.print_decl.ret_ty == Ty::I32
}

/// The exact shape of the comparison function this library builds:
/// `f(a: f64, b: f64) -> i1 { c := a > b; print("%d\n", zext c); return c }`,
/// defined under the symbol name "main" and declaring "printf" as the host
/// print primitive.
pub open spec fn is_comparison_rep(rep: FunctionRep) -> bool {
    &&& rep.name@ == "main"@
    &&& rep.param_tys@ =~= seq![Ty::F64, Ty::F64]
    &&& rep.ret_ty == Ty::I1
    &&& rep.print_decl.name@ == "printf"@
    &&& rep.print_decl.ret_ty == Ty::I32
    &&& rep.print_decl.param_tys@ =~= seq![Ty::Ptr]
    &&& rep.print_decl.variadic
    &&& rep.format@ == "%d\n"@
    &&& rep.body@ =~= seq![
        Inst::FCmpOgt(Operand::Param(0), Operand::Param(1)),
        Inst::ZExtToI32(Operand::Temp(0)),
        Inst::CallPrint(Operand::Temp(1)),
        Inst::Ret(Operand::Temp(0)),
    ]
}

/// The comparison representation is internally well formed.
pub proof fn lemma_comparison_rep_well_formed(rep: FunctionRep)
    requires
        is_comparison_rep(rep),
    ensures
        well_formed(rep),
{
    assert forall|k: int| 0 <= k < rep.body@.len() implies inst_wf(rep, k) by {
        if k == 0 {
            assert(rep.body@[0] == Inst::FCmpOgt(Operand::Param(0), Operand::Param(1)));
        } else if k == 1 {
            assert(rep.body@[1] == Inst::ZExtToI32(Operand::Temp(0)));
        } else if k == 2 {
            assert(rep.body@[2] == Inst::CallPrint(Operand::Temp(1)));
        } else {
            assert(rep.body@[3] == Inst::Ret(Operand::Temp(0)));
        }
    }
    assert(rep.body@.last() matches Inst::Ret(_));
}

/// Builds the comparison function's representation: two doubles in, one
/// boolean out, the body comparing the parameters, widening the outcome,
/// printing it, and returning it.  Construction cannot fail.
pub fn generate_comparison() -> (rep: FunctionRep)
    ensures
        is_comparison_rep(rep),
        well_formed(rep),
{
    let name = String::from_str("main");
    let mut param_tys: Vec<Ty> = Vec::new();
    param_tys.push(Ty::F64);
    param_tys.push(Ty::F64);
    let mut printf_params: Vec<Ty> = Vec::new();
    printf_params.push(Ty::Ptr);
    let print_decl = ExternalDecl {
        name: String::from_str("printf"),
        ret_ty: Ty::I32,
        param_tys: printf_params,
        variadic: true,
    };
    let format = String::from_str("%d\n");
    let mut body: Vec<Inst> = Vec::new();
    body.push(Inst::FCmpOgt(Operand::Param(0), Operand::Param(1)));
    body.push(Inst::ZExtToI32(Operand::Temp(0)));
    body.push(Inst::CallPrint(Operand::Temp(1)));
    body.push(Inst::Ret(Operand::Temp(0)));
    let rep = FunctionRep { name, param_tys, ret_ty: Ty::I1, print_decl, format, body };
    proof {
        lemma_comparison_rep_well_formed(rep);
    }
    rep
}

/// The type an operand would have when read by the instruction at index `k`.
fn operand_ty_exec(rep: &FunctionRep, o: Operand, k: usize) -> (r: Option<Ty>)
    requires
        k <= rep.body@.len(),
    ensures
        r == operand_ty(*rep, o, k as int),
{
    match o {
        Operand::Param(j) => if j < rep.param_tys.len() {
            Some(rep.param_tys[j])
        } else {
            None
        },
        Operand::Temp(t) => if t < k {
            match rep.body[t] {
                Inst::FCmpOgt(_, _) => Some(Ty::I1),
                Inst::ZExtToI32(_) => Some(Ty::I32),
                Inst::CallPrint(_) => Some(Ty::I32),
                Inst::Ret(_) => None,
            }
        } else {
            None
        },
    }
}

/// Validates internal well-formedness of a representation, reporting exactly
/// whether it holds.
pub fn validate(rep: &FunctionRep) -> (r: bool)
    ensures
        r == well_formed(*rep),
{
    if rep.body.len() == 0 {
        return false;
    }
    if !(rep.print_decl.variadic && rep.print_decl.param_tys.len() == 1 && matches!(
        rep.print_decl.param_tys[0],
        Ty::Ptr
    ) && matches!(rep.print_decl.ret_ty, Ty::I32)) {
        return false;
    }
    if !(matches!(rep.body[rep.body.len() - 1], Inst::Ret(_))) {
        return false;
    }
    let n = rep.body.len();
    let mut k: usize = 0;
    while k < n
        invariant
            n == rep.body@.len(),
            k <= n,
            forall|j: int| 0 <= j < k ==> inst_wf(*rep, j),
        decreases n - k,
    {
        let ok: bool = match rep.body[k] {
            Inst::FCmpOgt(a, b) => {
                let ta = operand_ty_exec(rep, a, k);
                let tb = operand_ty_exec(rep, b, k);
                matches!(ta, Some(Ty::F64)) && matches!(tb, Some(Ty::F64))
            },
            Inst::ZExtToI32(a) => {
                let ta = operand_ty_exec(rep, a, k);
                matches!(ta, Some(Ty::I1))
            },
            Inst::CallPrint(a) => {
                let ta = operand_ty_exec(rep, a, k);
                matches!(ta, Some(Ty::I32))
            },
            Inst::Ret(a) => {
                let ta = operand_ty_exec(rep, a, k);
                let matches_ret: bool = match (ta, rep.ret_ty) {
                    (Some(Ty::F64), Ty::F64) => true,
                    (Some(Ty::I32), Ty::I32) => true,
                    (Some(Ty::I1), Ty::I1) => true,
                    (Some(Ty::Ptr), Ty::Ptr) => true,
                    _ => false,
                };
                matches_ret && k == n - 1
            },
        };
        proof {
            assert(ok == inst_wf(*rep, k as int));
        }
        if !ok {
            return false;
        }
        k = k + 1;
    }
    true
}

} // verus!
