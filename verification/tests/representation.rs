//! Building, validating, evaluating and rendering the function
//! representation.

use nine_eleven::eval::eval_function;
use nine_eleven::ir::{generate_comparison, validate, FunctionRep, Inst, Operand, Ty};
use nine_eleven::render::{render, u64_to_string};

#[test]
fn built_representation_has_the_declared_shape() {
    let rep = generate_comparison();
    assert_eq!(rep.name, "main");
    assert_eq!(rep.param_tys, vec![Ty::F64, Ty::F64]);
    assert_eq!(rep.ret_ty, Ty::I1);
    assert_eq!(rep.print_decl.name, "printf");
    assert_eq!(rep.print_decl.ret_ty, Ty::I32);
    assert_eq!(rep.print_decl.param_tys, vec![Ty::Ptr]);
    assert!(rep.print_decl.variadic);
    assert_eq!(rep.format, "%d\n");
    assert_eq!(
        rep.body,
        vec![
            Inst::FCmpOgt(Operand::Param(0), Operand::Param(1)),
            Inst::ZExtToI32(Operand::Temp(0)),
            Inst::CallPrint(Operand::Temp(1)),
            Inst::Ret(Operand::Temp(0)),
        ]
    );
}

#[test]
fn built_representation_validates() {
    let rep = generate_comparison();
    assert!(validate(&rep));
}

#[test]
fn empty_body_is_malformed() {
    let mut rep = generate_comparison();
    rep.body = Vec::new();
    assert!(!validate(&rep));
}

#[test]
fn missing_return_is_malformed() {
    let mut rep = generate_comparison();
    rep.body.pop();
    assert!(!validate(&rep));
}

#[test]
fn out_of_range_operand_is_malformed() {
    let mut rep = generate_comparison();
    rep.body[0] = Inst::FCmpOgt(Operand::Param(0), Operand::Param(2));
    assert!(!validate(&rep));
}

#[test]
fn forward_reference_is_malformed() {
    let mut rep = generate_comparison();
    rep.body[0] = Inst::FCmpOgt(Operand::Temp(1), Operand::Param(1));
    assert!(!validate(&rep));
}

#[test]
fn ill_typed_widening_is_malformed() {
    let mut rep = generate_comparison();
    rep.body[1] = Inst::ZExtToI32(Operand::Param(0));
    assert!(!validate(&rep));
}

#[test]
fn return_type_mismatch_is_malformed() {
    let mut rep = generate_comparison();
    rep.ret_ty = Ty::I32;
    assert!(!validate(&rep));
}

#[test]
fn non_variadic_print_declaration_is_malformed() {
    let mut rep = generate_comparison();
    rep.print_decl.variadic = false;
    assert!(!validate(&rep));
}

#[test]
fn evaluation_prints_one_and_returns_true_on_greater_pair() {
    let rep = generate_comparison();
    let run = eval_function(&rep, 10.0f64.to_bits(), 5.0f64.to_bits());
    assert_eq!(run, Some((vec![1u32], true)));
}

#[test]
fn evaluation_prints_zero_and_returns_false_on_default_pair() {
    let rep = generate_comparison();
    let run = eval_function(&rep, 9.11f64.to_bits(), 9.9f64.to_bits());
    assert_eq!(run, Some((vec![0u32], false)));
}

#[test]
fn evaluation_is_false_on_nan_operand() {
    let rep = generate_comparison();
    let run = eval_function(&rep, f64::NAN.to_bits(), 1.0f64.to_bits());
    assert_eq!(run, Some((vec![0u32], false)));
}

#[test]
fn evaluation_of_malformed_body_fails() {
    let mut rep = generate_comparison();
    rep.body[0] = Inst::FCmpOgt(Operand::Param(0), Operand::Param(2));
    assert_eq!(eval_function(&rep, 1.0f64.to_bits(), 2.0f64.to_bits()), None);
}

#[test]
fn another_validated_body_also_evaluates() {
    let mut rep = generate_comparison();
    rep.body = vec![
        Inst::FCmpOgt(Operand::Param(0), Operand::Param(1)),
        Inst::Ret(Operand::Temp(0)),
    ];
    assert!(validate(&rep));
    assert_eq!(
        eval_function(&rep, 3.0f64.to_bits(), 2.0f64.to_bits()),
        Some((vec![], true))
    );
}

#[test]
fn rendering_matches_the_expected_dump() {
    let rep = generate_comparison();
    let expected = "declare i32 @printf(ptr, ...)\n\
                    format: %d\n\n\
                    define i1 @main(double %p0, double %p1) {\n\
                    \x20 %t0 = fcmp ogt double %p0, %p1\n\
                    \x20 %t1 = zext i1 %t0 to i32\n\
                    \x20 %t2 = call i32 @printf(format, i32 %t1)\n\
                    \x20 ret i1 %t0\n\
                    }\n";
    assert_eq!(render(&rep), expected);
}

#[test]
fn decimal_rendering_is_exact() {
    assert_eq!(u64_to_string(0), "0");
    assert_eq!(u64_to_string(7), "7");
    assert_eq!(u64_to_string(10), "10");
    assert_eq!(u64_to_string(911), "911");
    assert_eq!(u64_to_string(u64::MAX), "18446744073709551615");
}
