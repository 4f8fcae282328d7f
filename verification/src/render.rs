//! Textual dump of a function representation.
//!
//! The host writes this rendering to a fixed file path on every run, as a
//! diagnostic artifact.  The text lists the external print declaration, the
//! format template, and the defined function with its body, one instruction
//! per line; parameters appear as `%p0, %p1, ...` and instruction results
//! as `%t0, %t1, ...`.

use vstd::prelude::*;

use crate::ir::{FunctionRep, Inst, Operand, Ty};

verus! {

/// The character of one decimal digit.
pub open spec fn digit_char(d: int) -> char {
    if d == 0 {
        '0'
    } else if d == 1 {
        '1'
    } else if d == 2 {
        '2'
    } else if d == 3 {
        '3'
    } else if d == 4 {
        '4'
    } else if d == 5 {
        '5'
    } else if d == 6 {
        '6'
    } else if d == 7 {
        '7'
    } else if d == 8 {
        '8'
    } else {
        '9'
    }
}

/// Decimal rendering of a natural number, most significant digit first.
pub open spec fn dec_digits(n: nat) -> Seq<char>
    decreases n,
{
    if n < 10 {
        seq![digit_char(n as int)]
    } else {
        dec_digits(n / 10).push(digit_char((n % 10) as int))
    }
}

/// The one-character text of a decimal digit.
fn digit_str(d: u64) -> (s: &'static str)
    requires
        d < 10,
    ensures
        s@ =~= seq![digit_char(d as int)],
{
    if d == 0 {
        proof {
            reveal_strlit("0");
        }
        "0"
    } else if d == 1 {
        proof {
            reveal_strlit("1");
        }
        "1"
    } else if d == 2 {
        proof {
            reveal_strlit("2");
        }
        "2"
    } else if d == 3 {
        proof {
            reveal_strlit("3");
        }
        "3"
    } else if d == 4 {
        proof {
            reveal_strlit("4");
        }
        "4"
    } else if d == 5 {
        proof {
            reveal_strlit("5");
        }
        "5"
    } else if d == 6 {
        proof {
            reveal_strlit("6");
        }
        "6"
    } else if d == 7 {
        proof {
            reveal_strlit("7");
        }
        "7"
    } else if d == 8 {
        proof {
            reveal_strlit("8");
        }
        "8"
    } else {
        proof {
            reveal_strlit("9");
        }
        "9"
    }
}

/// Decimal text of a number.
pub fn u64_to_string(n: u64) -> (s: String)
    ensures
        s@ == dec_digits(n as nat),
    decreases n,
{
    if n < 10 {
        String::from_str(digit_str(n))
    } else {
        let mut s = u64_to_string(n / 10);
        s.append(digit_str(n % 10));
        proof {
            assert(s@ =~= dec_digits((n / 10) as nat).push(digit_char((n % 10) as int)));
        }
        s
    }
}

/// The text of a value type.
pub open spec fn ty_text(t: Ty) -> Seq<char> {
    match t {
        Ty::F64 => "double"@,
        Ty::I32 => "i32"@,
        Ty::I1 => "i1"@,
        Ty::Ptr => "ptr"@,
    }
}

/// The text of a value type, executably.
fn ty_str(t: Ty) -> (s: &'static str)
    ensures
        s@ == ty_text(t),
{
    match t {
        Ty::F64 => "double",
        Ty::I32 => "i32",
        Ty::I1 => "i1",
        Ty::Ptr => "ptr",
    }
}

/// The text of an operand: `%pJ` for the parameter with index J, `%tK` for
/// the result of the instruction with index K.
pub open spec fn operand_text(o: Operand) -> Seq<char> {
    match o {
        Operand::Param(j) => "%p"@ + dec_digits(j as nat),
        Operand::Temp(t) => "%t"@ + dec_digits(t as nat),
    }
}

/// Appends an operand's text.
fn append_operand(s: &mut String, o: Operand)
    ensures
        final(s)@ == old(s)@ + operand_text(o),
{
    match o {
        Operand::Param(j) => {
            s.append("%p");
            let num = u64_to_string(j as u64);
            s.append(num.as_str());
            proof {
                assert(s@ =~= old(s)@ + operand_text(o));
            }
        },
        Operand::Temp(t) => {
            s.append("%t");
            let num = u64_to_string(t as u64);
            s.append(num.as_str());
            proof {
                assert(s@ =~= old(s)@ + operand_text(o));
            }
        },
    }
}

/// The line of one instruction, indented and newline-terminated.  The
/// result-producing instructions bind `%tK` for their index K; the return
/// names the function's declared return type.
pub open spec fn inst_text(i: Inst, k: int, print_name: Seq<char>, ret_ty: Ty) -> Seq<char> {
    match i {
        Inst::FCmpOgt(a, b) => "  %t"@ + dec_digits(k as nat) + " = fcmp ogt double "@
            + operand_text(a) + ", "@ + operand_text(b) + "\n"@,
        Inst::ZExtToI32(a) => "  %t"@ + dec_digits(k as nat) + " = zext i1 "@ + operand_text(a)
            + " to i32\n"@,
        Inst::CallPrint(a) => "  %t"@ + dec_digits(k as nat) + " = call i32 @"@ + print_name
            + "(format, i32 "@ + operand_text(a) + ")\n"@,
        Inst::Ret(a) => "  ret "@ + ty_text(ret_ty) + " "@ + operand_text(a) + "\n"@,
    }
}

/// Appends one instruction's line.
fn append_inst(s: &mut String, i: Inst, k: usize, print_name: &str, ret_ty: Ty)
    ensures
        final(s)@ == old(s)@ + inst_text(i, k as int, print_name@, ret_ty),
{
    match i {
        Inst::FCmpOgt(a, b) => {
            s.append("  %t");
            let num = u64_to_string(k as u64);
            s.append(num.as_str());
            s.append(" = fcmp ogt double ");
            append_operand(s, a);
            s.append(", ");
            append_operand(s, b);
            s.append("\n");
            proof {
                assert(s@ =~= old(s)@ + inst_text(i, k as int, print_name@, ret_ty));
            }
        },
        Inst::ZExtToI32(a) => {
            s.append("  %t");
            let num = u64_to_string(k as u64);
            s.append(num.as_str());
            s.append(" = zext i1 ");
            append_operand(s, a);
            s.append(" to i32\n");
            proof {
                assert(s@ =~= old(s)@ + inst_text(i, k as int, print_name@, ret_ty));
            }
        },
        Inst::CallPrint(a) => {
            s.append("  %t");
            let num = u64_to_string(k as u64);
            s.append(num.as_str());
            s.append(" = call i32 @");
            s.append(print_name);
            s.append("(format, i32 ");
            append_operand(s, a);
            s.append(")\n");
            proof {
                assert(s@ =~= old(s)@ + inst_text(i, k as int, print_name@, ret_ty));
            }
        },
        Inst::Ret(a) => {
            s.append("  ret ");
            s.append(ty_str(ret_ty));
            s.append(" ");
            append_operand(s, a);
            s.append("\n");
            proof {
                assert(s@ =~= old(s)@ + inst_text(i, k as int, print_name@, ret_ty));
            }
        },
    }
}

/// Comma-separated text of the first `j` parameter types of the external
/// declaration.
pub open spec fn decl_params_upto(tys: Seq<Ty>, j: int) -> Seq<char>
    decreases j,
{
    if j <= 0 {
        Seq::empty()
    } else if j == 1 {
        ty_text(tys[0])
    } else {
        decl_params_upto(tys, j - 1) + ", "@ + ty_text(tys[j - 1])
    }
}

/// Comma-separated text of the first `j` parameters of the defined
/// function, each as its type and its `%pJ` name.
pub open spec fn def_params_upto(tys: Seq<Ty>, j: int) -> Seq<char>
    decreases j,
{
    if j <= 0 {
        Seq::empty()
    } else if j == 1 {
        ty_text(tys[0]) + " %p"@ + dec_digits(0)
    } else {
        def_params_upto(tys, j - 1) + ", "@ + ty_text(tys[j - 1]) + " %p"@ + dec_digits(
            (j - 1) as nat,
        )
    }
}

/// The lines of the first `j` instructions of a body.
pub open spec fn body_upto(body: Seq<Inst>, j: int, print_name: Seq<char>, ret_ty: Ty) -> Seq<
    char,
>
    decreases j,
{
    if j <= 0 {
        Seq::empty()
    } else {
        body_upto(body, j - 1, print_name, ret_ty) + inst_text(
            body[j - 1],
            j - 1,
            print_name,
            ret_ty,
        )
    }
}

/// The whole dump: the external print declaration, the format template on a
/// line of its own (closed by the template's own trailing newline, when it
/// has one), and the defined function with its body.
pub open spec fn spec_render(rep: FunctionRep) -> Seq<char> {
    "declare "@ + ty_text(rep.print_decl.ret_ty) + " @"@ + rep.print_decl.name@ + "("@
        + decl_params_upto(rep.print_decl.param_tys@, rep.print_decl.param_tys@.len() as int) + (
    if rep.print_decl.variadic {
        if rep.print_decl.param_tys@.len() > 0 {
            ", ..."@
        } else {
            "..."@
        }
    } else {
        Seq::empty()
    }) + ")\n"@ + "format: "@ + rep.format@ + "\n"@ + "define "@ + ty_text(rep.ret_ty) + " @"@
        + rep.name@ + "("@ + def_params_upto(rep.param_tys@, rep.param_tys@.len() as int)
        + ") {\n"@ + body_upto(
        rep.body@,
        rep.body@.len() as int,
        rep.print_decl.name@,
        rep.ret_ty,
    ) + "}\n"@
}

/// Renders the textual dump of a representation.
pub fn render(rep: &FunctionRep) -> (s: String)
    ensures
        s@ == spec_render(*rep),
{
    let mut s = String::from_str("declare ");
    s.append(ty_str(rep.print_decl.ret_ty));
    s.append(" @");
    s.append(rep.print_decl.name.as_str());
    s.append("(");
    let decl_n = rep.print_decl.param_tys.len();
    let mut j: usize = 0;
    while j < decl_n
        invariant
            decl_n == rep.print_decl.param_tys@.len(),
            j <= decl_n,
            s@ == "declare "@ + ty_text(rep.print_decl.ret_ty) + " @"@ + rep.print_decl.name@
                + "("@ + decl_params_upto(rep.print_decl.param_tys@, j as int),
        decreases decl_n - j,
    {
        if j > 0 {
            s.append(", ");
        }
        s.append(ty_str(rep.print_decl.param_tys[j]));
        proof {
            assert(s@ =~= "declare "@ + ty_text(rep.print_decl.ret_ty) + " @"@
                + rep.print_decl.name@ + "("@ + decl_params_upto(
                rep.print_decl.param_tys@,
                j + 1,
            ));
        }
        j = j + 1;
    }
    if rep.print_decl.variadic {
        if decl_n > 0 {
            s.append(", ...");
        } else {
            s.append("...");
        }
    }
    s.append(")\n");
    s.append("format: ");
    s.append(rep.format.as_str());
    s.append("\n");
    s.append("define ");
    s.append(ty_str(rep.ret_ty));
    s.append(" @");
    s.append(rep.name.as_str());
    s.append("(");
    let ghost def_prefix = s@;
    let def_n = rep.param_tys.len();
    let mut j2: usize = 0;
    while j2 < def_n
        invariant
            def_n == rep.param_tys@.len(),
            j2 <= def_n,
            s@ == def_prefix + def_params_upto(rep.param_tys@, j2 as int),
        decreases def_n - j2,
    {
        if j2 > 0 {
            s.append(", ");
        }
        s.append(ty_str(rep.param_tys[j2]));
        s.append(" %p");
        let num = u64_to_string(j2 as u64);
        s.append(num.as_str());
        proof {
            assert(s@ =~= def_prefix + def_params_upto(rep.param_tys@, j2 + 1));
        }
        j2 = j2 + 1;
    }
    s.append(") {\n");
    let ghost body_prefix = s@;
    let body_n = rep.body.len();
    let mut k: usize = 0;
    while k < body_n
        invariant
            body_n == rep.body@.len(),
            k <= body_n,
            s@ == body_prefix + body_upto(rep.body@, k as int, rep.print_decl.name@, rep.ret_ty),
        decreases body_n - k,
    {
        append_inst(&mut s, rep.body[k], k, rep.print_decl.name.as_str(), rep.ret_ty);
        proof {
            assert(s@ =~= body_prefix + body_upto(
                rep.body@,
                k + 1,
                rep.print_decl.name@,
                rep.ret_ty,
            ));
        }
        k = k + 1;
    }
    s.append("}\n");
    proof {
        assert(s@ =~= spec_render(*rep));
    }
    s
}

} // verus!
