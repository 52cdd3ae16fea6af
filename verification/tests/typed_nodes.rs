use core::marker::PhantomData;
use squarecl::codegen::render_expression;
use squarecl::expression::Expression;
use squarecl::operator::Operator;
use squarecl::typed::{
    AddExpr, Assignment, BinaryOp, DivExpr, Expr, Initializer, Literal, MulExpr, NegExpr, NotExpr,
    SubExpr, UnaryOp, Variable,
};
use squarecl::types::IRType;

fn var_u32(name: &'static str) -> Variable<u32> {
    Variable { name, _type: PhantomData }
}

fn var_i64(name: &'static str) -> Variable<i64> {
    Variable { name, _type: PhantomData }
}

fn untyped_variable(name: &str, ty: IRType) -> Expression {
    Expression::Variable { name: name.to_string(), ty: Some(ty) }
}

#[test]
fn a_typed_variable_is_lowered_with_the_type_of_its_host_type() {
    assert_eq!(var_u32("a").expression_untyped(), untyped_variable("a", IRType::UInt(32)));
    assert_eq!(var_i64("b").expression_untyped(), untyped_variable("b", IRType::Int(64)));
    let c: Variable<i16> = Variable { name: "c", _type: PhantomData };
    assert_eq!(c.expression_untyped(), untyped_variable("c", IRType::Int(16)));
}

#[test]
fn a_typed_literal_is_lowered_with_its_displayed_value() {
    assert_eq!(
        Literal { value: 10u32 }.expression_untyped(),
        Expression::Literal { value: "10".to_string(), ty: IRType::UInt(32) }
    );
    assert_eq!(
        Literal { value: -7i16 }.expression_untyped(),
        Expression::Literal { value: "-7".to_string(), ty: IRType::Int(16) }
    );
    assert_eq!(
        Literal { value: 0u64 }.expression_untyped(),
        Expression::Literal { value: "0".to_string(), ty: IRType::UInt(64) }
    );
}

#[test]
fn typed_binary_operations_are_lowered_with_their_operator() {
    let operands = || BinaryOp {
        left: Box::new(var_u32("a")),
        right: Box::new(var_u32("b")),
        _out: PhantomData,
    };
    let lowered = |operator: Operator| Expression::Binary {
        left: Box::new(untyped_variable("a", IRType::UInt(32))),
        operator,
        right: Box::new(untyped_variable("b", IRType::UInt(32))),
        ty: Some(IRType::UInt(32)),
    };
    assert_eq!(AddExpr(operands()).expression_untyped(), lowered(Operator::Add));
    assert_eq!(SubExpr(operands()).expression_untyped(), lowered(Operator::Sub));
    assert_eq!(MulExpr(operands()).expression_untyped(), lowered(Operator::Mul));
    assert_eq!(DivExpr(operands()).expression_untyped(), lowered(Operator::Div));
}

#[test]
fn typed_unary_operations_are_lowered_with_their_operator() {
    let negated = NegExpr(UnaryOp { input: Box::new(var_i64("x")), _out: PhantomData });
    assert_eq!(
        negated.expression_untyped(),
        Expression::Unary {
            input: Box::new(untyped_variable("x", IRType::Int(64))),
            operator: Operator::Neg,
            ty: Some(IRType::Int(64)),
        }
    );
    let flipped = NotExpr(UnaryOp { input: Box::new(var_u32("y")), _out: PhantomData });
    assert_eq!(
        flipped.expression_untyped(),
        Expression::Unary {
            input: Box::new(untyped_variable("y", IRType::UInt(32))),
            operator: Operator::Not,
            ty: Some(IRType::UInt(32)),
        }
    );
}

#[test]
fn a_typed_tree_is_rendered_like_a_built_one() {
    let product = MulExpr(BinaryOp {
        left: Box::new(var_u32("a")),
        right: Box::new(var_u32("b")),
        _out: PhantomData,
    });
    let sum = AddExpr(BinaryOp {
        left: Box::new(product),
        right: Box::new(Literal { value: 2u32 }),
        _out: PhantomData,
    });
    let assignment = Assignment { left: Box::new(var_u32("d")), right: Box::new(sum) };
    let lowered = assignment.expression_untyped();
    assert_eq!(lowered.ty(), Some(IRType::UInt(32)));
    assert_eq!(render_expression(&lowered), Ok("d = a * b + 2u".to_string()));
}

#[test]
fn a_typed_initializer_is_lowered_to_an_initializer() {
    let initializer =
        Initializer { left: Box::new(var_i64("x")), right: Box::new(Literal { value: 5i64 }) };
    assert_eq!(
        initializer.expression_untyped(),
        Expression::Init {
            left: Box::new(untyped_variable("x", IRType::Int(64))),
            right: Box::new(Expression::Literal { value: "5".to_string(), ty: IRType::Int(64) }),
            ty: Some(IRType::Int(64)),
        }
    );
}
