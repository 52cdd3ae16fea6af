//! How many lines the infix renderer writes for a statement.

use vstd::prelude::*;
use crate::codegen::{
    declaration, initialized, literal_suffix, needed_shader_type, qualifier, render_expr,
    render_stmt, shader_type,
};
use crate::expression::ExpressionView;
use crate::operator::Operator;
use crate::statement::StatementView;
use crate::text::{count_lines, lemma_count_lines_concat, lemma_count_lines_none};
use crate::types::IRType;

verus! {

impl ExpressionView {
    /// No name, literal value or passed-through text in the tree holds a
    /// line end.
    pub open spec fn on_one_line(self) -> bool
        decreases self,
    {
        match self {
            ExpressionView::Binary { left, right, .. } => left.on_one_line() && right.on_one_line(),
            ExpressionView::Unary { input, .. } => input.on_one_line(),
            ExpressionView::Variable { name, .. } => count_lines(name) == 0,
            ExpressionView::Literal { value, .. } => count_lines(value) == 0,
            ExpressionView::Assignment { left, right, .. } => left.on_one_line()
                && right.on_one_line(),
            ExpressionView::Init { left, right, .. } => left.on_one_line() && right.on_one_line(),
            ExpressionView::Verbatim { tokens } => count_lines(tokens) == 0,
        }
    }
}

impl StatementView {
    /// No name, literal value or passed-through text in the statement holds
    /// a line end.
    pub open spec fn on_one_line(self) -> bool {
        match self {
            StatementView::Local { variable, .. } => variable.on_one_line(),
            StatementView::Expression { expression } => expression.on_one_line(),
            StatementView::ImplicitReturn { expression } => expression.on_one_line(),
        }
    }
}

/// The fixed pieces of the renderer's output hold no line end, but for the
/// end of a statement, which holds one.
pub proof fn lemma_fixed_pieces()
    ensures
        count_lines(" "@) == 0,
        count_lines(": "@) == 0,
        count_lines(" = "@) == 0,
        count_lines("return "@) == 0,
        count_lines(";\n"@) == 1,
        forall|mutable: bool| count_lines(#[trigger] qualifier(mutable)) == 0,
        forall|op: Operator| count_lines(#[trigger] op.spec_symbol()) == 0,
        forall|ty: IRType|
            (#[trigger] shader_type(ty)) matches Some(name) ==> count_lines(name) == 0,
        forall|ty: IRType|
            (#[trigger] literal_suffix(ty)) matches Some(suffix) ==> count_lines(suffix) == 0,
{
    reveal_strlit(" ");
    reveal_strlit(": ");
    reveal_strlit(" = ");
    reveal_strlit("return ");
    reveal_strlit(";\n");
    reveal_strlit(";");
    reveal_strlit("\n");
    reveal_strlit("var");
    reveal_strlit("let");
    reveal_strlit("+");
    reveal_strlit("-");
    reveal_strlit("*");
    reveal_strlit("/");
    reveal_strlit("!");
    reveal_strlit("i32");
    reveal_strlit("u32");
    reveal_strlit("f32");
    reveal_strlit("i");
    reveal_strlit("u");
    reveal_strlit("f");
    lemma_count_lines_none(" "@);
    lemma_count_lines_none(": "@);
    lemma_count_lines_none(" = "@);
    lemma_count_lines_none("return "@);
    lemma_count_lines_none("var"@);
    lemma_count_lines_none("let"@);
    lemma_count_lines_none("+"@);
    lemma_count_lines_none("-"@);
    lemma_count_lines_none("*"@);
    lemma_count_lines_none("/"@);
    lemma_count_lines_none("!"@);
    lemma_count_lines_none("i32"@);
    lemma_count_lines_none("u32"@);
    lemma_count_lines_none("f32"@);
    lemma_count_lines_none("i"@);
    lemma_count_lines_none("u"@);
    lemma_count_lines_none("f"@);
    lemma_count_lines_none(";"@);
    assert(";\n"@ =~= ";"@ + "\n"@);
    lemma_count_lines_concat(";"@, "\n"@);
    assert(count_lines("\n"@) == 1) by {
        assert("\n"@.drop_last().len() == 0);
        assert(count_lines("\n"@.drop_last()) == 0);
        assert("\n"@.last() == '\n');
    }
}

/// An expression whose names and values hold no line end is rendered
/// without a line end.
pub proof fn lemma_render_expr_one_line(e: ExpressionView)
    requires
        e.on_one_line(),
    ensures
        render_expr(e) matches Ok(text) ==> count_lines(text) == 0,
    decreases e,
{
    broadcast use lemma_count_lines_concat;

    lemma_fixed_pieces();
    match e {
        ExpressionView::Binary { left, operator, right, ty } => {
            lemma_render_expr_one_line(*left);
            lemma_render_expr_one_line(*right);
        },
        ExpressionView::Unary { input, operator, ty } => {
            lemma_render_expr_one_line(*input);
        },
        ExpressionView::Assignment { left, right, ty } => {
            lemma_render_expr_one_line(*left);
            lemma_render_expr_one_line(*right);
        },
        _ => {},
    }
}

/// The shape of a declaration decides its lines. A local declaration without
/// an initializer is rendered as exactly one line. With an initializer and a
/// written type it is rendered as exactly one line, which declares and
/// assigns. With an initializer and no written type it is rendered as exactly
/// two lines. This holds of every declaration that can be rendered and in
/// which no name or value holds a line end.
pub proof fn lemma_declaration_lines(s: StatementView)
    requires
        s is Local,
        s.on_one_line(),
        render_stmt(s) is Ok,
    ensures
        match s {
            StatementView::Local { variable, mutable, ty } => count_lines(render_stmt(s)->Ok_0) == (
            if variable is Init && ty is None {
                2nat
            } else {
                1nat
            }),
            _ => true,
        },
{
    broadcast use lemma_count_lines_concat;

    lemma_fixed_pieces();
    match s {
        StatementView::Local { variable, mutable, ty } => match variable {
            ExpressionView::Init { left, right, ty: _ } => {
                assert(left.on_one_line() && right.on_one_line());
                lemma_render_expr_one_line(*right);
                match *left {
                    ExpressionView::Variable { name, ty: variable_ty } => {
                        let ty_name = needed_shader_type(
                            if ty is Some {
                                ty
                            } else {
                                variable_ty
                            },
                        )->Ok_0;
                        let value = render_expr(*right)->Ok_0;
                        assert(count_lines(declaration(mutable, name, ty_name)) == 0);
                        assert(count_lines(declaration(true, name, ty_name)) == 0);
                        assert(render_stmt(s)->Ok_0 == initialized(
                            mutable,
                            name,
                            ty_name,
                            ty is Some,
                            value,
                        ));
                    },
                    _ => {},
                }
            },
            ExpressionView::Variable { name, ty: variable_ty } => {
                let ty_name = needed_shader_type(variable_ty)->Ok_0;
                assert(count_lines(declaration(mutable, name, ty_name)) == 0);
            },
            _ => {},
        },
        _ => {},
    }
}

/// An expression statement and an implicit return are rendered as exactly
/// one line each, where no name or value holds a line end.
pub proof fn lemma_expression_statement_lines(s: StatementView)
    requires
        !(s is Local),
        s.on_one_line(),
        render_stmt(s) is Ok,
    ensures
        count_lines(render_stmt(s)->Ok_0) == 1,
{
    broadcast use lemma_count_lines_concat;

    lemma_fixed_pieces();
    match s {
        StatementView::Expression { expression } => {
            lemma_render_expr_one_line(expression);
        },
        StatementView::ImplicitReturn { expression } => {
            lemma_render_expr_one_line(expression);
        },
        _ => {},
    }
}

} // verus!
