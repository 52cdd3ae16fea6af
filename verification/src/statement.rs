//! The statements of the IR and the builder that makes them from surface
//! statements, registering each declared name in the scopes.

use vstd::prelude::*;
use crate::error::{BuildError, BuildErrorKind, Position};
use crate::expression::{
    build_error, build_expr, first_known, lemma_build_expr_consistent, Expression, ExpressionView,
};
use crate::scope::{lemma_push_variable_lookup, Context, ContextView};
use crate::surface::{SurfaceExprView, SurfacePat, SurfacePatView, SurfaceStmt, SurfaceStmtView};
use crate::types::{type_of_name, IRType};

verus! {

/// A statement of the IR.
#[derive(Debug, PartialEq, Eq)]
pub enum Statement {
    /// A local declaration. `variable` is the declared variable, or an
    /// initializer with the declared variable on its left; `ty` is the type
    /// that was written in the declaration, if one was.
    Local { variable: Box<Expression>, mutable: bool, ty: Option<IRType> },
    /// An expression whose value is dropped.
    Expression { expression: Box<Expression> },
    /// The closing expression of a body, whose value the kernel returns.
    ImplicitReturn { expression: Box<Expression> },
}

/// The model of a statement of the IR.
pub enum StatementView {
    Local { variable: ExpressionView, mutable: bool, ty: Option<IRType> },
    Expression { expression: ExpressionView },
    ImplicitReturn { expression: ExpressionView },
}

impl View for Statement {
    type V = StatementView;

    open spec fn view(&self) -> StatementView {
        match self {
            Statement::Local { variable, mutable, ty } => StatementView::Local {
                variable: (**variable).view(),
                mutable: *mutable,
                ty: *ty,
            },
            Statement::Expression { expression } => StatementView::Expression {
                expression: (**expression).view(),
            },
            Statement::ImplicitReturn { expression } => StatementView::ImplicitReturn {
                expression: (**expression).view(),
            },
        }
    }
}

/// What a binding pattern declares: a name, the type written for it if any,
/// and whether it is mutable.
#[derive(Debug, PartialEq, Eq)]
pub struct Declared {
    pub name: String,
    pub ty: Option<IRType>,
    pub mutable: bool,
}

/// The model of what a binding pattern declares.
pub struct DeclaredView {
    pub name: Seq<char>,
    pub ty: Option<IRType>,
    pub mutable: bool,
}

impl View for Declared {
    type V = DeclaredView;

    open spec fn view(&self) -> DeclaredView {
        DeclaredView { name: self.name@, ty: self.ty, mutable: self.mutable }
    }
}

/// What a binding pattern declares. A typed pattern declares what the
/// pattern inside it declares, with the type of the annotation in place of
/// any type found further in; an annotation that names no type of the
/// catalog is refused once the pattern inside was accepted.
pub open spec fn decompose_pat(pat: SurfacePatView) -> Result<DeclaredView, BuildError>
    decreases pat,
{
    match pat {
        SurfacePatView::Ident { name, mutable, pos } => Ok(
            DeclaredView { name, ty: None, mutable },
        ),
        SurfacePatView::Typed { pat, ty, pos } => match decompose_pat(*pat) {
            Err(err) => Err(err),
            Ok(inner) => match type_of_name(ty) {
                None => Err(build_error(BuildErrorKind::UnsupportedType, pos)),
                Some(ty) => Ok(
                    DeclaredView { name: inner.name, ty: Some(ty), mutable: inner.mutable },
                ),
            },
        },
        SurfacePatView::Unsupported { pos } => Err(
            build_error(BuildErrorKind::UnsupportedPattern, pos),
        ),
    }
}

/// The IR statement that a surface statement stands for under the scopes
/// `ctx`, together with the scopes as the statement leaves them.
///
/// The initializer of a local binding is built under `ctx` itself, so a use
/// of the declared name inside it refers to the binding that was there
/// before. The name is registered afterwards, with the written type or, where
/// none was written, with the type of the initializer.
pub open spec fn build_stmt(s: SurfaceStmtView, ctx: ContextView) -> Result<
    (StatementView, ContextView),
    BuildError,
> {
    match s {
        SurfaceStmtView::Local { pat, init, pos } => match decompose_pat(pat) {
            Err(err) => Err(err),
            Ok(declared) => match init {
                None => Ok(
                    (
                        StatementView::Local {
                            variable: ExpressionView::Variable {
                                name: declared.name,
                                ty: declared.ty,
                            },
                            mutable: declared.mutable,
                            ty: declared.ty,
                        },
                        ctx.push_variable(declared.name, declared.ty),
                    ),
                ),
                Some(init) => match build_expr(init, ctx) {
                    Err(err) => Err(err),
                    Ok(value) => {
                        let ty = first_known(declared.ty, value.ty());
                        Ok(
                            (
                                StatementView::Local {
                                    variable: ExpressionView::Init {
                                        left: Box::new(
                                            ExpressionView::Variable { name: declared.name, ty },
                                        ),
                                        right: Box::new(value),
                                        ty: value.ty(),
                                    },
                                    mutable: declared.mutable,
                                    ty: declared.ty,
                                },
                                ctx.push_variable(declared.name, ty),
                            ),
                        )
                    },
                },
            },
        },
        SurfaceStmtView::Expr { expr, terminated, pos } => match build_expr(expr, ctx) {
            Err(err) => Err(err),
            Ok(expression) => Ok(
                (
                    if terminated {
                        StatementView::Expression { expression }
                    } else {
                        StatementView::ImplicitReturn { expression }
                    },
                    ctx,
                ),
            ),
        },
        SurfaceStmtView::Unsupported { pos } => Err(
            build_error(BuildErrorKind::UnsupportedStatement, pos),
        ),
    }
}

impl StatementView {
    /// A local declaration declares a variable, alone or on the left of an
    /// initializer, no initializer stands anywhere else, and every derived
    /// type is the one that the operands give.
    pub open spec fn well_shaped(self) -> bool {
        match self {
            StatementView::Local { variable, mutable, ty } => match variable {
                ExpressionView::Variable { .. } => true,
                ExpressionView::Init { left, right, ty: init_ty } => {
                    &&& *left is Variable
                    &&& init_ty == right.ty()
                    &&& right.init_free()
                    &&& right.consistent()
                },
                _ => false,
            },
            StatementView::Expression { expression } => expression.init_free()
                && expression.consistent(),
            StatementView::ImplicitReturn { expression } => expression.init_free()
                && expression.consistent(),
        }
    }
}

/// Whatever the builder makes is well shaped, and the builder opens and
/// leaves no scope.
pub proof fn lemma_build_stmt_well_shaped(s: SurfaceStmtView, ctx: ContextView)
    requires
        ctx.wf(),
    ensures
        build_stmt(s, ctx) matches Ok((statement, after)) ==> statement.well_shaped()
            && after.scopes.len() == ctx.scopes.len() && after.history == ctx.history,
{
    match s {
        SurfaceStmtView::Local { pat, init, pos } => {
            if let Some(init) = init {
                lemma_build_expr_consistent(init, ctx);
            }
        },
        SurfaceStmtView::Expr { expr, terminated, pos } => {
            lemma_build_expr_consistent(expr, ctx);
        },
        _ => {},
    }
}

/// Shadowing. The initializer of a local binding is built under the scopes
/// as they were before the binding: the statement carries exactly what the
/// initializer gives there, and an error of the initializer is the error of
/// the statement. Only afterwards is the name registered, and from then on a
/// lookup of the name finds the new binding.
pub proof fn lemma_initializer_sees_prior_scopes(
    pat: SurfacePatView,
    init: SurfaceExprView,
    pos: Position,
    ctx: ContextView,
)
    requires
        ctx.wf(),
        decompose_pat(pat) is Ok,
    ensures
        ({
            let declared = decompose_pat(pat)->Ok_0;
            let statement = SurfaceStmtView::Local { pat, init: Some(init), pos };
            match build_expr(init, ctx) {
                Err(err) => build_stmt(statement, ctx) == Err::<
                    (StatementView, ContextView),
                    BuildError,
                >(err),
                Ok(value) => {
                    let ty = first_known(declared.ty, value.ty());
                    &&& build_stmt(statement, ctx) matches Ok((built, after))
                    &&& built matches StatementView::Local { variable, .. }
                    &&& variable matches ExpressionView::Init { left, right, .. }
                    &&& *right == value
                    &&& *left == ExpressionView::Variable { name: declared.name, ty }
                    &&& after == ctx.push_variable(declared.name, ty)
                    &&& after.lookup(declared.name) == Some(ty)
                },
            }
        }),
{
    let declared = decompose_pat(pat)->Ok_0;
    if let Ok(value) = build_expr(init, ctx) {
        lemma_push_variable_lookup(
            ctx,
            declared.name,
            first_known(declared.ty, value.ty()),
            declared.name,
        );
    }
}

/// Shadowing, on the smallest case: in `let x = x`, the `x` on the right is
/// the `x` that was bound before, with the type it was bound with; where no
/// `x` was bound it is passed through as written.
pub proof fn lemma_self_reference_is_prior_binding(
    name: Seq<char>,
    mutable: bool,
    pos: Position,
    ctx: ContextView,
)
    requires
        ctx.wf(),
    ensures
        ({
            let statement = SurfaceStmtView::Local {
                pat: SurfacePatView::Ident { name, mutable, pos },
                init: Some(SurfaceExprView::Ident { name, pos }),
                pos,
            };
            &&& build_stmt(statement, ctx) matches Ok((built, after))
            &&& built matches StatementView::Local { variable, .. }
            &&& variable matches ExpressionView::Init { left, right, .. }
            &&& *right == match ctx.lookup(name) {
                Some(ty) => ExpressionView::Variable { name, ty },
                None => ExpressionView::Verbatim { tokens: name },
            }
        }),
{
}

/// Decomposes a binding pattern into the name it declares, the type written
/// for it and its mutability.
pub fn local_pat(pat: SurfacePat) -> (result: Result<Declared, BuildError>)
    ensures
        match result {
            Ok(declared) => decompose_pat(pat@) == Ok::<DeclaredView, BuildError>(declared@),
            Err(err) => decompose_pat(pat@) == Err::<DeclaredView, BuildError>(err),
        },
    decreases pat,
{
    match pat {
        SurfacePat::Ident { name, mutable, pos } => Ok(Declared { name, ty: None, mutable }),
        SurfacePat::Typed { pat, ty, pos } => {
            let inner = local_pat(*pat)?;
            match IRType::from_name(ty.as_str()) {
                Some(ty) => Ok(Declared { name: inner.name, ty: Some(ty), mutable: inner.mutable }),
                None => Err(BuildError { kind: BuildErrorKind::UnsupportedType, position: pos }),
            }
        },
        SurfacePat::Unsupported { pos } => Err(
            BuildError { kind: BuildErrorKind::UnsupportedPattern, position: pos },
        ),
    }
}

impl Statement {
    /// Builds the IR of a surface statement and registers what it declares
    /// in the innermost scope of `context`. On an error the scopes are left
    /// as they were.
    pub fn from_stmt(stmt: SurfaceStmt, context: &mut Context) -> (result: Result<
        Statement,
        BuildError,
    >)
        requires
            old(context)@.wf(),
        ensures
            match result {
                Ok(statement) => build_stmt(stmt@, old(context)@) == Ok::<
                    (StatementView, ContextView),
                    BuildError,
                >((statement@, final(context)@)),
                Err(err) => build_stmt(stmt@, old(context)@) == Err::<
                    (StatementView, ContextView),
                    BuildError,
                >(err) && final(context)@ == old(context)@,
            },
    {
        match stmt {
            SurfaceStmt::Local { pat, init, pos } => {
                let declared = local_pat(pat)?;
                match init {
                    None => {
                        let variable = Expression::Variable {
                            name: declared.name.clone(),
                            ty: declared.ty,
                        };
                        context.push_variable(declared.name, declared.ty);
                        Ok(
                            Statement::Local {
                                variable: Box::new(variable),
                                mutable: declared.mutable,
                                ty: declared.ty,
                            },
                        )
                    },
                    Some(init) => {
                        let value = Expression::from_expr(init, context)?;
                        let value_ty = value.ty();
                        let ty = match declared.ty {
                            Some(ty) => Some(ty),
                            None => value_ty,
                        };
                        let variable = Expression::Variable { name: declared.name.clone(), ty };
                        assert(variable@ == ExpressionView::Variable { name: declared.name@, ty });
                        context.push_variable(declared.name, ty);
                        let paired = Expression::Init {
                            left: Box::new(variable),
                            right: Box::new(value),
                            ty: value_ty,
                        };
                        assert(paired@ == ExpressionView::Init {
                            left: Box::new(variable@),
                            right: Box::new(value@),
                            ty: value_ty,
                        });
                        Ok(
                            Statement::Local {
                                variable: Box::new(paired),
                                mutable: declared.mutable,
                                ty: declared.ty,
                            },
                        )
                    },
                }
            },
            SurfaceStmt::Expr { expr, terminated, pos } => {
                let expression = Box::new(Expression::from_expr(expr, context)?);
                if terminated {
                    Ok(Statement::Expression { expression })
                } else {
                    Ok(Statement::ImplicitReturn { expression })
                }
            },
            SurfaceStmt::Unsupported { pos } => Err(
                BuildError { kind: BuildErrorKind::UnsupportedStatement, position: pos },
            ),
        }
    }
}

} // verus!
