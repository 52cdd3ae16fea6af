//! The expression tree of the IR and the builder that makes it from a
//! surface expression, resolving names and types against the scopes.

use vstd::prelude::*;
use vstd::string::*;
use crate::error::{BuildError, BuildErrorKind, Position};
use crate::operator::{
    binop_of_token, parse_binop, parse_unop, unop_of_token, unsupported_operator, Operator,
};
use crate::scope::{Binding, Context, ContextView, Scope};
use crate::surface::{LitKind, SurfaceExpr, SurfaceExprView, SurfaceLit, SurfaceLitView};
use crate::types::{type_of_name, IRType};

verus! {

/// An expression of the IR. Every node but `Verbatim` carries the type that
/// was resolved for it; for all but `Literal` that type may be absent.
#[derive(Debug, PartialEq, Eq)]
#[allow(inconsistent_fields)]
pub enum Expression {
    Binary {
        left: Box<Expression>,
        operator: Operator,
        right: Box<Expression>,
        ty: Option<IRType>,
    },
    Unary { input: Box<Expression>, operator: Operator, ty: Option<IRType> },
    Variable { name: String, ty: Option<IRType> },
    /// A literal; `value` is the text that is written to the generated code.
    Literal { value: String, ty: IRType },
    Assignment { left: Box<Expression>, right: Box<Expression>, ty: Option<IRType> },
    /// The initializer of a local variable: the variable on the left, its
    /// first value on the right.
    Init { left: Box<Expression>, right: Box<Expression>, ty: Option<IRType> },
    /// A name that no scope binds, passed through as it was written.
    Verbatim { tokens: String },
}

/// The model of an expression of the IR: the same tree, with texts as
/// sequences of characters.
#[allow(inconsistent_fields)]
pub enum ExpressionView {
    Binary {
        left: Box<ExpressionView>,
        operator: Operator,
        right: Box<ExpressionView>,
        ty: Option<IRType>,
    },
    Unary { input: Box<ExpressionView>, operator: Operator, ty: Option<IRType> },
    Variable { name: Seq<char>, ty: Option<IRType> },
    Literal { value: Seq<char>, ty: IRType },
    Assignment { left: Box<ExpressionView>, right: Box<ExpressionView>, ty: Option<IRType> },
    Init { left: Box<ExpressionView>, right: Box<ExpressionView>, ty: Option<IRType> },
    Verbatim { tokens: Seq<char> },
}

impl View for Expression {
    type V = ExpressionView;

    open spec fn view(&self) -> ExpressionView
        decreases self,
    {
        match self {
            Expression::Binary { left, operator, right, ty } => ExpressionView::Binary {
                left: Box::new((**left).view()),
                operator: *operator,
                right: Box::new((**right).view()),
                ty: *ty,
            },
            Expression::Unary { input, operator, ty } => ExpressionView::Unary {
                input: Box::new((**input).view()),
                operator: *operator,
                ty: *ty,
            },
            Expression::Variable { name, ty } => ExpressionView::Variable { name: name@, ty: *ty },
            Expression::Literal { value, ty } => ExpressionView::Literal { value: value@, ty: *ty },
            Expression::Assignment { left, right, ty } => ExpressionView::Assignment {
                left: Box::new((**left).view()),
                right: Box::new((**right).view()),
                ty: *ty,
            },
            Expression::Init { left, right, ty } => ExpressionView::Init {
                left: Box::new((**left).view()),
                right: Box::new((**right).view()),
                ty: *ty,
            },
            Expression::Verbatim { tokens } => ExpressionView::Verbatim { tokens: tokens@ },
        }
    }
}

impl ExpressionView {
    /// The type resolved for the node, if there is one.
    pub open spec fn ty(self) -> Option<IRType> {
        match self {
            ExpressionView::Binary { ty, .. } => ty,
            ExpressionView::Unary { ty, .. } => ty,
            ExpressionView::Variable { ty, .. } => ty,
            ExpressionView::Literal { ty, .. } => Some(ty),
            ExpressionView::Assignment { ty, .. } => ty,
            ExpressionView::Init { ty, .. } => ty,
            ExpressionView::Verbatim { .. } => None,
        }
    }
}

impl ExpressionView {
    /// Every type in the tree that is derived is the one that the operands
    /// give: of a binary operation the first type present among left and
    /// right, of a unary operation the type of its input, of an assignment
    /// and of an initializer the type of the right side. Every operator
    /// stands at a node with the number of operands it takes.
    pub open spec fn consistent(self) -> bool
        decreases self,
    {
        match self {
            ExpressionView::Binary { left, operator, right, ty } => {
                &&& operator.is_binary()
                &&& ty == first_known(left.ty(), right.ty())
                &&& left.consistent()
                &&& right.consistent()
            },
            ExpressionView::Unary { input, operator, ty } => {
                &&& operator.is_unary()
                &&& ty == input.ty()
                &&& input.consistent()
            },
            ExpressionView::Assignment { left, right, ty } => {
                &&& ty == right.ty()
                &&& left.consistent()
                &&& right.consistent()
            },
            ExpressionView::Init { left, right, ty } => {
                &&& ty == right.ty()
                &&& left.consistent()
                &&& right.consistent()
            },
            _ => true,
        }
    }

    /// No initializer stands anywhere in the tree.
    pub open spec fn init_free(self) -> bool
        decreases self,
    {
        match self {
            ExpressionView::Binary { left, right, .. } => left.init_free() && right.init_free(),
            ExpressionView::Unary { input, .. } => input.init_free(),
            ExpressionView::Assignment { left, right, .. } => left.init_free() && right.init_free(),
            ExpressionView::Init { .. } => false,
            _ => true,
        }
    }
}

/// The first of two optional types that is present.
pub open spec fn first_known(left: Option<IRType>, right: Option<IRType>) -> Option<IRType> {
    match left {
        Some(ty) => Some(ty),
        None => right,
    }
}

/// The type of a literal: the type its suffix names where it has one, else
/// the 32-bit signed integer for an integer and the 32-bit float for a float.
/// `None` for any other kind of literal and for a suffix that names no type.
pub open spec fn literal_type(lit: SurfaceLitView) -> Option<IRType> {
    if lit.kind is Int || lit.kind is Float {
        match lit.suffix {
            Some(suffix) => type_of_name(suffix),
            None => if lit.kind is Int {
                Some(IRType::Int(32))
            } else {
                Some(IRType::Float(32))
            },
        }
    } else {
        None
    }
}

/// The error of the given kind at the given place.
pub open spec fn build_error(kind: BuildErrorKind, position: Position) -> BuildError {
    BuildError { kind, position }
}

/// The IR expression that a surface expression stands for under the scopes
/// `ctx`, or the first error met on the way. Operands are built before the
/// node they belong to: of an assignment the right side first, of a binary
/// operation the left side first, and an operator is looked at only after its
/// operands were built.
pub open spec fn build_expr(e: SurfaceExprView, ctx: ContextView) -> Result<
    ExpressionView,
    BuildError,
>
    decreases e,
{
    match e {
        SurfaceExprView::Assign { left, right, pos } => match build_expr(*right, ctx) {
            Err(err) => Err(err),
            Ok(r) => match build_expr(*left, ctx) {
                Err(err) => Err(err),
                Ok(l) => Ok(
                    ExpressionView::Assignment {
                        left: Box::new(l),
                        right: Box::new(r),
                        ty: r.ty(),
                    },
                ),
            },
        },
        SurfaceExprView::Binary { left, op, right, pos } => match build_expr(*left, ctx) {
            Err(err) => Err(err),
            Ok(l) => match build_expr(*right, ctx) {
                Err(err) => Err(err),
                Ok(r) => match binop_of_token(op) {
                    None => Err(unsupported_operator(pos)),
                    Some(operator) => Ok(
                        ExpressionView::Binary {
                            left: Box::new(l),
                            operator,
                            right: Box::new(r),
                            ty: first_known(l.ty(), r.ty()),
                        },
                    ),
                },
            },
        },
        SurfaceExprView::Unary { op, operand, pos } => match build_expr(*operand, ctx) {
            Err(err) => Err(err),
            Ok(input) => match unop_of_token(op) {
                None => Err(unsupported_operator(pos)),
                Some(operator) => Ok(
                    ExpressionView::Unary { input: Box::new(input), operator, ty: input.ty() },
                ),
            },
        },
        SurfaceExprView::Lit { lit, pos } => match literal_type(lit) {
            None => Err(build_error(BuildErrorKind::UnsupportedLiteral, pos)),
            Some(ty) => Ok(ExpressionView::Literal { value: lit.value, ty }),
        },
        SurfaceExprView::Ident { name, pos } => match ctx.lookup(name) {
            Some(ty) => Ok(ExpressionView::Variable { name, ty }),
            None => Ok(ExpressionView::Verbatim { tokens: name }),
        },
        SurfaceExprView::Unsupported { pos } => Err(
            build_error(BuildErrorKind::UnsupportedExpression, pos),
        ),
    }
}

/// The outcome of a build as a value of the model.
pub open spec fn built(result: Result<Expression, BuildError>) -> Result<
    ExpressionView,
    BuildError,
> {
    match result {
        Ok(e) => Ok(e@),
        Err(err) => Err(err),
    }
}

/// A suffix fixes the type of an integer or float literal: the type is the
/// one that the suffix names. Without a suffix an integer literal is a 32-bit
/// signed integer and a float literal a 32-bit float. No other literal has a
/// type.
pub proof fn lemma_literal_type(lit: SurfaceLitView)
    ensures
        (lit.kind is Int || lit.kind is Float) && lit.suffix is Some ==> literal_type(lit)
            == type_of_name(lit.suffix->0),
        lit.kind is Int && lit.suffix is None ==> literal_type(lit) == Some(IRType::Int(32)),
        lit.kind is Float && lit.suffix is None ==> literal_type(lit) == Some(IRType::Float(32)),
        lit.kind is Bool || lit.kind is Other ==> literal_type(lit) is None,
{
}

/// The type of a built operation comes from its operands. A binary operation
/// has the type of its left operand where that is present, else the type of
/// its right operand, else none. A unary operation has the type of its input.
/// An assignment has the type of its right side.
pub proof fn lemma_operation_type(e: SurfaceExprView, ctx: ContextView)
    ensures
        match e {
            SurfaceExprView::Binary { left, op, right, pos } => build_expr(e, ctx) matches Ok(b)
                ==> build_expr(*left, ctx) matches Ok(l) && build_expr(*right, ctx) matches Ok(r)
                && b.ty() == (if l.ty() is Some {
                l.ty()
            } else {
                r.ty()
            }),
            SurfaceExprView::Unary { op, operand, pos } => build_expr(e, ctx) matches Ok(u)
                ==> build_expr(*operand, ctx) matches Ok(i) && u.ty() == i.ty(),
            SurfaceExprView::Assign { left, right, pos } => build_expr(e, ctx) matches Ok(a)
                ==> build_expr(*right, ctx) matches Ok(r) && a.ty() == r.ty(),
            _ => true,
        },
{
}

/// Whatever the builder makes is consistent, and holds no initializer.
pub proof fn lemma_build_expr_consistent(e: SurfaceExprView, ctx: ContextView)
    ensures
        build_expr(e, ctx) matches Ok(built) ==> built.consistent() && built.init_free(),
    decreases e,
{
    match e {
        SurfaceExprView::Assign { left, right, pos } => {
            lemma_build_expr_consistent(*left, ctx);
            lemma_build_expr_consistent(*right, ctx);
        },
        SurfaceExprView::Binary { left, op, right, pos } => {
            lemma_build_expr_consistent(*left, ctx);
            lemma_build_expr_consistent(*right, ctx);
        },
        SurfaceExprView::Unary { op, operand, pos } => {
            lemma_build_expr_consistent(*operand, ctx);
        },
        _ => {},
    }
}

/// Resolves the type of a literal. A literal that is neither an integer nor
/// a float, or whose suffix names no type, is refused at `position`.
pub fn lit_ty(lit: &SurfaceLit, position: Position) -> (result: Result<IRType, BuildError>)
    ensures
        result == match literal_type(lit@) {
            Some(ty) => Ok::<IRType, BuildError>(ty),
            None => Err(build_error(BuildErrorKind::UnsupportedLiteral, position)),
        },
{
    let refused = BuildError { kind: BuildErrorKind::UnsupportedLiteral, position };
    let fallback = match lit.kind {
        LitKind::Int => IRType::Int(32),
        LitKind::Float => IRType::Float(32),
        _ => {
            return Err(refused);
        },
    };
    match &lit.suffix {
        Some(suffix) => match IRType::from_name(suffix.as_str()) {
            Some(ty) => Ok(ty),
            None => Err(refused),
        },
        None => Ok(fallback),
    }
}

/// The variable node that stands for a binding of a scope.
pub fn generate_var(name: &str, ty: &Option<IRType>) -> (variable: Expression)
    ensures
        variable@ == (ExpressionView::Variable { name: name@, ty: *ty }),
{
    Expression::Variable { name: String::from_str(name), ty: *ty }
}

impl Scope {
    /// The variable nodes of the bindings of the scope, in the order in which
    /// they were registered: what a preamble has to declare for them.
    pub fn generate_vars(&self) -> (variables: Vec<Expression>)
        ensures
            variables@.map_values(|e: Expression| e@) == self@.map_values(
                |b: Binding| ExpressionView::Variable { name: b.0, ty: b.1 },
            ),
    {
        let ghost wanted = self@.map_values(
            |b: Binding| ExpressionView::Variable { name: b.0, ty: b.1 },
        );
        let mut variables: Vec<Expression> = Vec::new();
        let mut i: usize = 0;
        while i < self.len()
            invariant
                i <= self@.len(),
                wanted == self@.map_values(
                    |b: Binding| ExpressionView::Variable { name: b.0, ty: b.1 },
                ),
                variables@.map_values(|e: Expression| e@) =~= wanted.take(i as int),
            decreases self@.len() - i,
        {
            let ty = self.ty(i);
            let ghost before = variables@.map_values(|e: Expression| e@);
            let variable = generate_var(self.name(i), &ty);
            variables.push(variable);
            proof {
                assert(variables@.map_values(|e: Expression| e@) =~= before.push(variable@));
                assert(wanted.take(i + 1) =~= wanted.take(i as int).push(wanted[i as int]));
            }
            i = i + 1;
        }
        assert(wanted.take(i as int) =~= wanted);
        variables
    }
}

impl Expression {
    /// The type of a node whose type is resolved.
    pub fn ir_type(&self) -> (ty: IRType)
        requires
            self@.ty() is Some,
        ensures
            Some(ty) == self@.ty(),
    {
        match self.ty() {
            Some(ty) => ty,
            None => IRType::Unit,
        }
    }

    /// The type resolved for the node, if there is one.
    pub fn ty(&self) -> (ty: Option<IRType>)
        ensures
            ty == self@.ty(),
    {
        match self {
            Expression::Binary { ty, .. } => *ty,
            Expression::Unary { ty, .. } => *ty,
            Expression::Variable { ty, .. } => *ty,
            Expression::Literal { ty, .. } => Some(*ty),
            Expression::Assignment { ty, .. } => *ty,
            Expression::Init { ty, .. } => *ty,
            Expression::Verbatim { .. } => None,
        }
    }

    /// Builds the IR of a surface expression under the scopes of `context`,
    /// which it reads and leaves as they are.
    pub fn from_expr(expr: SurfaceExpr, context: &mut Context) -> (result: Result<
        Expression,
        BuildError,
    >)
        ensures
            built(result) == build_expr(expr@, old(context)@),
            final(context)@ == old(context)@,
        decreases expr,
    {
        match expr {
            SurfaceExpr::Assign { left, right, pos } => {
                let right = Self::from_expr(*right, context)?;
                let left = Self::from_expr(*left, context)?;
                let ty = right.ty();
                Ok(Expression::Assignment { left: Box::new(left), right: Box::new(right), ty })
            },
            SurfaceExpr::Binary { left, op, right, pos } => {
                let left = Self::from_expr(*left, context)?;
                let right = Self::from_expr(*right, context)?;
                let ty = match left.ty() {
                    Some(ty) => Some(ty),
                    None => right.ty(),
                };
                let operator = parse_binop(op.as_str(), pos)?;
                Ok(
                    Expression::Binary {
                        left: Box::new(left),
                        operator,
                        right: Box::new(right),
                        ty,
                    },
                )
            },
            SurfaceExpr::Unary { op, operand, pos } => {
                let input = Self::from_expr(*operand, context)?;
                let ty = input.ty();
                let operator = parse_unop(op.as_str(), pos)?;
                Ok(Expression::Unary { input: Box::new(input), operator, ty })
            },
            SurfaceExpr::Lit { lit, pos } => {
                let ty = lit_ty(&lit, pos)?;
                Ok(Expression::Literal { value: lit.value, ty })
            },
            SurfaceExpr::Ident { name, pos } => {
                match context.variable_type(name.as_str()) {
                    Some(ty) => Ok(Expression::Variable { name, ty }),
                    None => Ok(Expression::Verbatim { tokens: name }),
                }
            },
            SurfaceExpr::Unsupported { pos } => Err(
                BuildError { kind: BuildErrorKind::UnsupportedExpression, position: pos },
            ),
        }
    }
}

} // verus!
