//! Typed nodes: the host types of a node and of its operands fix the IR type
//! of the expression it is lowered to, and the host language's own rules
//! decide which operands an operator accepts.

use vstd::prelude::*;
use vstd::string::*;
use core::fmt::Display;
use core::marker::PhantomData;
use core::ops::{Add, Deref, Div, Mul, Neg, Not, Sub};
use crate::expression::{Expression, ExpressionView};
use crate::operator::Operator;
use crate::types::SquareType;

verus! {

/// A typed node that can be lowered to an expression of the IR.
pub trait Expr {
    /// The host type of the node's value.
    type Output;

    /// Whether `e` is what the node is lowered to.
    spec fn lowers_to(&self, e: ExpressionView) -> bool;

    fn expression_untyped(&self) -> (e: Expression)
        ensures
            self.lowers_to(e@),
    ;
}

/// A variable of host type `T`.
#[derive(Debug)]
pub struct Variable<T: SquareType> {
    pub name: &'static str,
    pub _type: PhantomData<T>,
}

impl<T: SquareType> Expr for Variable<T> {
    type Output = T;

    /// A variable is lowered to the variable of its name, with the IR type
    /// of `T`.
    open spec fn lowers_to(&self, e: ExpressionView) -> bool {
        e == ExpressionView::Variable { name: self.name@, ty: Some(T::spec_ir_type()) }
    }

    fn expression_untyped(&self) -> (e: Expression) {
        Expression::Variable { name: String::from_str(self.name), ty: Some(T::ir_type()) }
    }
}

/// A literal of host type `T`.
pub struct Literal<T: Display + SquareType> {
    pub value: T,
}

impl<T: Display + SquareType> Expr for Literal<T> {
    type Output = T;

    /// A literal is lowered to a literal with the IR type of `T`, whose text
    /// is one that the host type's way of displaying itself gives for the
    /// value.
    open spec fn lowers_to(&self, e: ExpressionView) -> bool {
        &&& e matches ExpressionView::Literal { value, ty }
        &&& ty == T::spec_ir_type()
        &&& exists|text: String| #[trigger]
            to_string_from_display_ensures::<T>(&self.value, text) && text@ == value
    }

    fn expression_untyped(&self) -> (e: Expression) {
        let text = self.value.to_string();
        assert(to_string_from_display_ensures::<T>(&self.value, text));
        Expression::Literal { value: text, ty: T::ir_type() }
    }
}

/// The operands of a binary operation whose value has host type `TOut`.
pub struct BinaryOp<TLeft: Expr, TRight: Expr, TOut> {
    pub left: Box<TLeft>,
    pub right: Box<TRight>,
    pub _out: PhantomData<TOut>,
}

/// The operand of a unary operation whose value has host type `TOut`.
pub struct UnaryOp<TIn: Expr, TOut> {
    pub input: Box<TIn>,
    pub _out: PhantomData<TOut>,
}

impl<TLeft: Expr, TRight: Expr, TOut: SquareType> BinaryOp<TLeft, TRight, TOut> {
    /// Whether `e` is the operation `operator` on what the operands are
    /// lowered to, with the IR type of `TOut`.
    pub open spec fn lowers_to(&self, operator: Operator, e: ExpressionView) -> bool {
        &&& e matches ExpressionView::Binary { left, operator: op, right, ty }
        &&& op == operator
        &&& ty == Some(TOut::spec_ir_type())
        &&& self.left.lowers_to(*left)
        &&& self.right.lowers_to(*right)
    }

    fn lower(&self, operator: Operator) -> (e: Expression)
        ensures
            self.lowers_to(operator, e@),
    {
        Expression::Binary {
            left: Box::new(self.left.expression_untyped()),
            operator,
            right: Box::new(self.right.expression_untyped()),
            ty: Some(TOut::ir_type()),
        }
    }
}

impl<TIn: Expr, TOut: SquareType> UnaryOp<TIn, TOut> {
    /// Whether `e` is the operation `operator` on what the operand is lowered
    /// to, with the IR type of `TOut`.
    pub open spec fn lowers_to(&self, operator: Operator, e: ExpressionView) -> bool {
        &&& e matches ExpressionView::Unary { input, operator: op, ty }
        &&& op == operator
        &&& ty == Some(TOut::spec_ir_type())
        &&& self.input.lowers_to(*input)
    }

    fn lower(&self, operator: Operator) -> (e: Expression)
        ensures
            self.lowers_to(operator, e@),
    {
        Expression::Unary {
            input: Box::new(self.input.expression_untyped()),
            operator,
            ty: Some(TOut::ir_type()),
        }
    }
}

/// An addition of operands whose host types can be added.
#[verifier::reject_recursive_types(TOut)]
pub struct AddExpr<TLeft: Expr, TRight: Expr, TOut: SquareType>(
    pub BinaryOp<TLeft, TRight, TOut>,
) where TLeft::Output: Add<TRight::Output, Output = TOut>;

impl<TLeft: Expr, TRight: Expr, TOut: SquareType> Expr for AddExpr<TLeft, TRight, TOut> where
    TLeft::Output: Add<TRight::Output, Output = TOut>,
 {
    type Output = TOut;

    open spec fn lowers_to(&self, e: ExpressionView) -> bool {
        self.0.lowers_to(Operator::Add, e)
    }

    fn expression_untyped(&self) -> (e: Expression) {
        self.0.lower(Operator::Add)
    }
}

/// A subtraction of operands whose host types can be subtracted.
#[verifier::reject_recursive_types(TOut)]
pub struct SubExpr<TLeft: Expr, TRight: Expr, TOut: SquareType>(
    pub BinaryOp<TLeft, TRight, TOut>,
) where TLeft::Output: Sub<TRight::Output, Output = TOut>;

impl<TLeft: Expr, TRight: Expr, TOut: SquareType> Expr for SubExpr<TLeft, TRight, TOut> where
    TLeft::Output: Sub<TRight::Output, Output = TOut>,
 {
    type Output = TOut;

    open spec fn lowers_to(&self, e: ExpressionView) -> bool {
        self.0.lowers_to(Operator::Sub, e)
    }

    fn expression_untyped(&self) -> (e: Expression) {
        self.0.lower(Operator::Sub)
    }
}

/// A multiplication of operands whose host types can be multiplied.
#[verifier::reject_recursive_types(TOut)]
pub struct MulExpr<TLeft: Expr, TRight: Expr, TOut: SquareType>(
    pub BinaryOp<TLeft, TRight, TOut>,
) where TLeft::Output: Mul<TRight::Output, Output = TOut>;

impl<TLeft: Expr, TRight: Expr, TOut: SquareType> Expr for MulExpr<TLeft, TRight, TOut> where
    TLeft::Output: Mul<TRight::Output, Output = TOut>,
 {
    type Output = TOut;

    open spec fn lowers_to(&self, e: ExpressionView) -> bool {
        self.0.lowers_to(Operator::Mul, e)
    }

    fn expression_untyped(&self) -> (e: Expression) {
        self.0.lower(Operator::Mul)
    }
}

/// A division of operands whose host types can be divided.
#[verifier::reject_recursive_types(TOut)]
pub struct DivExpr<TLeft: Expr, TRight: Expr, TOut: SquareType>(
    pub BinaryOp<TLeft, TRight, TOut>,
) where TLeft::Output: Div<TRight::Output, Output = TOut>;

impl<TLeft: Expr, TRight: Expr, TOut: SquareType> Expr for DivExpr<TLeft, TRight, TOut> where
    TLeft::Output: Div<TRight::Output, Output = TOut>,
 {
    type Output = TOut;

    open spec fn lowers_to(&self, e: ExpressionView) -> bool {
        self.0.lowers_to(Operator::Div, e)
    }

    fn expression_untyped(&self) -> (e: Expression) {
        self.0.lower(Operator::Div)
    }
}

/// A negation of an operand whose host type can be negated bit by bit.
#[verifier::reject_recursive_types(TOut)]
pub struct NotExpr<TIn: Expr, TOut: SquareType>(pub UnaryOp<TIn, TOut>) where
    TIn::Output: Not<Output = TOut>,
;

impl<TIn: Expr, TOut: SquareType> Expr for NotExpr<TIn, TOut> where
    TIn::Output: Not<Output = TOut>,
 {
    type Output = TOut;

    open spec fn lowers_to(&self, e: ExpressionView) -> bool {
        self.0.lowers_to(Operator::Not, e)
    }

    fn expression_untyped(&self) -> (e: Expression) {
        self.0.lower(Operator::Not)
    }
}

/// A sign change of an operand whose host type has a sign.
#[verifier::reject_recursive_types(TOut)]
pub struct NegExpr<TIn: Expr, TOut: SquareType>(pub UnaryOp<TIn, TOut>) where
    TIn::Output: Neg<Output = TOut>,
;

impl<TIn: Expr, TOut: SquareType> Expr for NegExpr<TIn, TOut> where
    TIn::Output: Neg<Output = TOut>,
 {
    type Output = TOut;

    open spec fn lowers_to(&self, e: ExpressionView) -> bool {
        self.0.lowers_to(Operator::Neg, e)
    }

    fn expression_untyped(&self) -> (e: Expression) {
        self.0.lower(Operator::Neg)
    }
}

/// A dereference of an operand whose host type points at a value.
#[verifier::reject_recursive_types(TOut)]
pub struct DerefExpr<TIn: Expr, TOut: SquareType>(pub UnaryOp<TIn, TOut>) where
    TIn::Output: Deref<Target = TOut>,
;

impl<TIn: Expr, TOut: SquareType> Expr for DerefExpr<TIn, TOut> where
    TIn::Output: Deref<Target = TOut>,
 {
    type Output = TOut;

    open spec fn lowers_to(&self, e: ExpressionView) -> bool {
        self.0.lowers_to(Operator::Deref, e)
    }

    fn expression_untyped(&self) -> (e: Expression) {
        self.0.lower(Operator::Deref)
    }
}

/// An assignment between two nodes of the same host type.
pub struct Assignment<TLeft: Expr, TRight: Expr<Output = TLeft::Output>> where
    TLeft::Output: SquareType,
 {
    pub left: Box<TLeft>,
    pub right: Box<TRight>,
}

impl<TLeft: Expr, TRight: Expr<Output = TLeft::Output>> Expr for Assignment<TLeft, TRight> where
    TLeft::Output: SquareType,
 {
    type Output = ();

    /// An assignment is lowered to the assignment between what its sides
    /// are lowered to, with the IR type of their host type.
    open spec fn lowers_to(&self, e: ExpressionView) -> bool {
        &&& e matches ExpressionView::Assignment { left, right, ty }
        &&& ty == Some(<TLeft::Output as SquareType>::spec_ir_type())
        &&& self.left.lowers_to(*left)
        &&& self.right.lowers_to(*right)
    }

    fn expression_untyped(&self) -> (e: Expression) {
        Expression::Assignment {
            left: Box::new(self.left.expression_untyped()),
            right: Box::new(self.right.expression_untyped()),
            ty: Some(<TLeft::Output as SquareType>::ir_type()),
        }
    }
}

/// The initializer of a local variable: the variable and its first value,
/// both of the same host type.
pub struct Initializer<TLeft: Expr, TRight: Expr<Output = TLeft::Output>> where
    TLeft::Output: SquareType,
 {
    pub left: Box<TLeft>,
    pub right: Box<TRight>,
}

impl<TLeft: Expr, TRight: Expr<Output = TLeft::Output>> Expr for Initializer<TLeft, TRight> where
    TLeft::Output: SquareType,
 {
    type Output = TLeft::Output;

    /// An initializer is lowered to the initializer of what its sides are
    /// lowered to, with the IR type of their host type.
    open spec fn lowers_to(&self, e: ExpressionView) -> bool {
        &&& e matches ExpressionView::Init { left, right, ty }
        &&& ty == Some(<TLeft::Output as SquareType>::spec_ir_type())
        &&& self.left.lowers_to(*left)
        &&& self.right.lowers_to(*right)
    }

    fn expression_untyped(&self) -> (e: Expression) {
        Expression::Init {
            left: Box::new(self.left.expression_untyped()),
            right: Box::new(self.right.expression_untyped()),
            ty: Some(<TLeft::Output as SquareType>::ir_type()),
        }
    }
}

} // verus!
