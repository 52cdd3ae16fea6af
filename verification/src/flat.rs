//! The call-form renderer: every operation is written on a line of its own
//! and stores its result in a fresh temporary, so that no expression is
//! nested.

use vstd::prelude::*;
use vstd::string::*;
use crate::codegen::{
    declaration, format_declaration, format_initialized, format_lit, format_needed_type,
    initialized, literal_suffix, needed_shader_type, render_expr, render_parameters,
    render_params, render_stmt, render_stmts, WgpuKernel, WgpuKernelView,
};
use crate::error::RenderError;
use crate::expression::{Expression, ExpressionView};
use crate::statement::{Statement, StatementView};
use crate::text::{decimal, decimal_text, lemma_decimal_injective};

verus! {

/// The name of the temporary with the given number.
pub open spec fn temp_name(n: u32) -> Seq<char> {
    "local_"@ + decimal(n as nat)
}

/// The counter after one name was drawn: one more, and zero after the
/// largest number.
pub open spec fn next_counter(n: u32) -> u32 {
    if n == u32::MAX {
        0
    } else {
        (n + 1) as u32
    }
}

/// Temporaries with different numbers have different names.
pub proof fn lemma_temp_names_differ(a: u32, b: u32)
    requires
        a != b,
    ensures
        temp_name(a) != temp_name(b),
{
    if temp_name(a) == temp_name(b) {
        let prefix = "local_"@;
        assert(decimal(a as nat) =~= temp_name(a).subrange(
            prefix.len() as int,
            temp_name(a).len() as int,
        ));
        assert(decimal(b as nat) =~= temp_name(b).subrange(
            prefix.len() as int,
            temp_name(b).len() as int,
        ));
        lemma_decimal_injective(a as nat, b as nat);
    }
}

/// Draws the name of a fresh temporary from the counter and advances the
/// counter.
pub fn new_local_var(counter: &mut u32) -> (name: String)
    ensures
        name@ == temp_name(*old(counter)),
        *final(counter) == next_counter(*old(counter)),
{
    let number = *counter;
    *counter = if number == u32::MAX {
        0
    } else {
        number + 1
    };
    let mut name = String::from_str("local_");
    let digits = decimal_text(number);
    name.append(digits.as_str());
    name
}

/// An expression after flattening: the lines of its operations, the text
/// that stands for its value, and the counter after the names it drew.
pub struct FlatView {
    pub lines: Seq<char>,
    pub value: Seq<char>,
    pub counter: u32,
}

/// An expression written in call form.
///
/// An operation draws the name of its temporary before its operands are
/// written, the operands of a binary operation from left to right. Its line,
/// `temporary = operator(operands);`, follows the lines of its operands, and
/// its value is the temporary. The other expressions have no lines of their
/// own and the value that the infix form gives them.
pub open spec fn flatten_expr(e: ExpressionView, counter: u32) -> Result<FlatView, RenderError>
    decreases e,
{
    match e {
        ExpressionView::Binary { left, operator, right, ty } => match flatten_expr(
            *left,
            next_counter(counter),
        ) {
            Err(err) => Err(err),
            Ok(l) => match flatten_expr(*right, l.counter) {
                Err(err) => Err(err),
                Ok(r) => Ok(
                    FlatView {
                        lines: l.lines + r.lines + temp_name(counter) + " = "@
                            + operator.spec_call_name() + "("@ + l.value + ", "@ + r.value
                            + ");\n"@,
                        value: temp_name(counter),
                        counter: r.counter,
                    },
                ),
            },
        },
        ExpressionView::Unary { input, operator, ty } => match flatten_expr(
            *input,
            next_counter(counter),
        ) {
            Err(err) => Err(err),
            Ok(i) => Ok(
                FlatView {
                    lines: i.lines + temp_name(counter) + " = "@ + operator.spec_call_name() + "("@
                        + i.value + ");\n"@,
                    value: temp_name(counter),
                    counter: i.counter,
                },
            ),
        },
        ExpressionView::Variable { name, ty } => Ok(
            FlatView { lines: Seq::empty(), value: name, counter },
        ),
        ExpressionView::Literal { value, ty } => match literal_suffix(ty) {
            None => Err(RenderError::UnsupportedType(ty)),
            Some(suffix) => Ok(FlatView { lines: Seq::empty(), value: value + suffix, counter }),
        },
        ExpressionView::Assignment { left, right, ty } => match flatten_expr(*left, counter) {
            Err(err) => Err(err),
            Ok(l) => match flatten_expr(*right, l.counter) {
                Err(err) => Err(err),
                Ok(r) => Ok(
                    FlatView {
                        lines: l.lines + r.lines,
                        value: l.value + " = "@ + r.value,
                        counter: r.counter,
                    },
                ),
            },
        },
        ExpressionView::Init { left, right, ty } => Err(RenderError::StrayInitializer),
        ExpressionView::Verbatim { tokens } => Ok(
            FlatView { lines: Seq::empty(), value: tokens, counter },
        ),
    }
}

/// A statement written in call form: the lines of the operations of its
/// expression, then the statement as the infix renderer writes it, with the
/// value of the expression in the expression's place. With it comes the
/// counter after the names that were drawn.
pub open spec fn flatten_stmt(s: StatementView, counter: u32) -> Result<
    (Seq<char>, u32),
    RenderError,
> {
    match s {
        StatementView::Local { variable, mutable, ty } => match variable {
            ExpressionView::Variable { name, ty: variable_ty } => match needed_shader_type(
                variable_ty,
            ) {
                Err(err) => Err(err),
                Ok(ty_name) => Ok((declaration(mutable, name, ty_name) + ";\n"@, counter)),
            },
            ExpressionView::Init { left, right, ty: _ } => match *left {
                ExpressionView::Variable { name, ty: variable_ty } => match needed_shader_type(
                    if ty is Some {
                        ty
                    } else {
                        variable_ty
                    },
                ) {
                    Err(err) => Err(err),
                    Ok(ty_name) => match flatten_expr(*right, counter) {
                        Err(err) => Err(err),
                        Ok(flat) => Ok(
                            (
                                flat.lines + initialized(
                                    mutable,
                                    name,
                                    ty_name,
                                    ty is Some,
                                    flat.value,
                                ),
                                flat.counter,
                            ),
                        ),
                    },
                },
                _ => Err(RenderError::MalformedLocal),
            },
            _ => Err(RenderError::MalformedLocal),
        },
        StatementView::Expression { expression } => match flatten_expr(expression, counter) {
            Err(err) => Err(err),
            Ok(flat) => Ok((flat.lines + flat.value + ";\n"@, flat.counter)),
        },
        StatementView::ImplicitReturn { expression } => match flatten_expr(expression, counter) {
            Err(err) => Err(err),
            Ok(flat) => Ok((flat.lines + "return "@ + flat.value + ";\n"@, flat.counter)),
        },
    }
}

/// A sequence of statements written in call form, each starting with the
/// counter that the one before it left.
pub open spec fn flatten_stmts(stmts: Seq<StatementView>, counter: u32) -> Result<
    (Seq<char>, u32),
    RenderError,
>
    decreases stmts.len(),
{
    if stmts.len() == 0 {
        Ok((Seq::empty(), counter))
    } else {
        match flatten_stmts(stmts.drop_last(), counter) {
            Err(err) => Err(err),
            Ok((text, reached)) => match flatten_stmt(stmts.last(), reached) {
                Err(err) => Err(err),
                Ok((lines, left)) => Ok((text + lines, left)),
            },
        }
    }
}

/// The text of a kernel in call form, with the counter after it.
pub open spec fn flatten_kernel(kernel: WgpuKernelView, counter: u32) -> Result<
    (Seq<char>, u32),
    RenderError,
> {
    match render_params(kernel.parameters) {
        Err(err) => Err(err),
        Ok(params) => match flatten_stmts(kernel.statements, counter) {
            Err(err) => Err(err),
            Ok((body, left)) => Ok(("fn main("@ + params + ") {\n"@ + body + "}\n"@, left)),
        },
    }
}

impl ExpressionView {
    /// No binary or unary operation stands anywhere in the tree.
    pub open spec fn operation_free(self) -> bool
        decreases self,
    {
        match self {
            ExpressionView::Binary { .. } => false,
            ExpressionView::Unary { .. } => false,
            ExpressionView::Assignment { left, right, .. } => left.operation_free()
                && right.operation_free(),
            ExpressionView::Init { left, right, .. } => left.operation_free()
                && right.operation_free(),
            _ => true,
        }
    }
}

/// The two renderers accept the same expressions, and refuse the others with
/// the same error, whatever the counter.
pub proof fn lemma_flatten_expr_fails_like_render(e: ExpressionView, counter: u32)
    ensures
        match render_expr(e) {
            Ok(_) => flatten_expr(e, counter) is Ok,
            Err(err) => flatten_expr(e, counter) == Err::<FlatView, RenderError>(err),
        },
    decreases e,
{
    match e {
        ExpressionView::Binary { left, operator, right, ty } => {
            lemma_flatten_expr_fails_like_render(*left, next_counter(counter));
            if let Ok(l) = flatten_expr(*left, next_counter(counter)) {
                lemma_flatten_expr_fails_like_render(*right, l.counter);
            }
        },
        ExpressionView::Unary { input, operator, ty } => {
            lemma_flatten_expr_fails_like_render(*input, next_counter(counter));
        },
        ExpressionView::Assignment { left, right, ty } => {
            lemma_flatten_expr_fails_like_render(*left, counter);
            if let Ok(l) = flatten_expr(*left, counter) {
                lemma_flatten_expr_fails_like_render(*right, l.counter);
            }
        },
        _ => {},
    }
}

/// The two renderers accept the same statements, and refuse the others with
/// the same error, whatever the counter.
pub proof fn lemma_flatten_stmt_fails_like_render(s: StatementView, counter: u32)
    ensures
        match render_stmt(s) {
            Ok(_) => flatten_stmt(s, counter) is Ok,
            Err(err) => flatten_stmt(s, counter) == Err::<(Seq<char>, u32), RenderError>(err),
        },
{
    match s {
        StatementView::Local { variable, mutable, ty } => match variable {
            ExpressionView::Init { left, right, ty: _ } => {
                lemma_flatten_expr_fails_like_render(*right, counter);
            },
            _ => {},
        },
        StatementView::Expression { expression } => {
            lemma_flatten_expr_fails_like_render(expression, counter);
        },
        StatementView::ImplicitReturn { expression } => {
            lemma_flatten_expr_fails_like_render(expression, counter);
        },
    }
}

/// The two renderers accept the same kernels, and refuse the others with the
/// same error, whatever the counter.
pub proof fn lemma_flatten_stmts_fails_like_render(stmts: Seq<StatementView>, counter: u32)
    ensures
        match render_stmts(stmts) {
            Ok(_) => flatten_stmts(stmts, counter) is Ok,
            Err(err) => flatten_stmts(stmts, counter) == Err::<(Seq<char>, u32), RenderError>(err),
        },
    decreases stmts.len(),
{
    if stmts.len() > 0 {
        lemma_flatten_stmts_fails_like_render(stmts.drop_last(), counter);
        if let Ok((text, reached)) = flatten_stmts(stmts.drop_last(), counter) {
            lemma_flatten_stmt_fails_like_render(stmts.last(), reached);
        }
    }
}

/// Where an expression holds no operation, the call form has nothing to
/// flatten: it draws no name, writes no line, and the value is the text of
/// the infix form.
pub proof fn lemma_flatten_without_operations(e: ExpressionView, counter: u32)
    requires
        e.operation_free(),
    ensures
        render_expr(e) matches Ok(text) ==> flatten_expr(e, counter) == Ok::<
            FlatView,
            RenderError,
        >(FlatView { lines: Seq::empty(), value: text, counter }),
    decreases e,
{
    match e {
        ExpressionView::Assignment { left, right, ty } => {
            lemma_flatten_without_operations(*left, counter);
            lemma_flatten_without_operations(*right, counter);
            assert(Seq::<char>::empty() + Seq::<char>::empty() =~= Seq::<char>::empty());
        },
        _ => {},
    }
}

/// The number of binary and unary operations in an expression.
pub open spec fn operations(e: ExpressionView) -> nat
    decreases e,
{
    match e {
        ExpressionView::Binary { left, right, .. } => 1 + operations(*left) + operations(*right),
        ExpressionView::Unary { input, .. } => 1 + operations(*input),
        ExpressionView::Assignment { left, right, .. } => operations(*left) + operations(*right),
        ExpressionView::Init { left, right, .. } => operations(*left) + operations(*right),
        _ => 0,
    }
}

/// The counter after `steps` names were drawn.
pub open spec fn advance(counter: u32, steps: nat) -> u32
    decreases steps,
{
    if steps == 0 {
        counter
    } else {
        advance(next_counter(counter), (steps - 1) as nat)
    }
}

/// Drawing names in two runs is drawing them in one.
pub proof fn lemma_advance_sum(counter: u32, first: nat, second: nat)
    ensures
        advance(advance(counter, first), second) == advance(counter, first + second),
    decreases first,
{
    if first > 0 {
        lemma_advance_sum(next_counter(counter), (first - 1) as nat, second);
    }
}

/// The call form draws exactly one name for each operation: after an
/// expression that it accepts, the counter has advanced once for each binary
/// and unary operation in the expression.
pub proof fn lemma_flatten_expr_counter(e: ExpressionView, counter: u32)
    ensures
        flatten_expr(e, counter) matches Ok(flat) ==> flat.counter == advance(
            counter,
            operations(e),
        ),
    decreases e,
{
    match e {
        ExpressionView::Binary { left, operator, right, ty } => {
            lemma_flatten_expr_counter(*left, next_counter(counter));
            if let Ok(l) = flatten_expr(*left, next_counter(counter)) {
                lemma_flatten_expr_counter(*right, l.counter);
                lemma_advance_sum(next_counter(counter), operations(*left), operations(*right));
            }
        },
        ExpressionView::Unary { input, operator, ty } => {
            lemma_flatten_expr_counter(*input, next_counter(counter));
        },
        ExpressionView::Assignment { left, right, ty } => {
            lemma_flatten_expr_counter(*left, counter);
            if let Ok(l) = flatten_expr(*left, counter) {
                lemma_flatten_expr_counter(*right, l.counter);
                lemma_advance_sum(counter, operations(*left), operations(*right));
            }
        },
        _ => {},
    }
}

/// An expression after flattening.
#[derive(Debug, PartialEq, Eq)]
pub struct Flat {
    /// The lines of the operations, each closed by a line end.
    pub lines: String,
    /// The text that stands for the value of the expression.
    pub value: String,
    /// The counter after the names that were drawn.
    pub counter: u32,
}

impl View for Flat {
    type V = FlatView;

    open spec fn view(&self) -> FlatView {
        FlatView { lines: self.lines@, value: self.value@, counter: self.counter }
    }
}

/// The outcome of a flattening as a value of the model.
pub open spec fn flattened(result: Result<Flat, RenderError>) -> Result<FlatView, RenderError> {
    match result {
        Ok(flat) => Ok(flat@),
        Err(err) => Err(err),
    }
}

/// The outcome of the flattening of statements as a value of the model.
pub open spec fn flattened_lines(result: Result<(String, u32), RenderError>) -> Result<
    (Seq<char>, u32),
    RenderError,
> {
    match result {
        Ok((text, counter)) => Ok((text@, counter)),
        Err(err) => Err(err),
    }
}

/// Writes an expression in call form, drawing the names of its temporaries
/// from `counter` on.
pub fn flatten_expression(e: &Expression, counter: u32) -> (result: Result<Flat, RenderError>)
    ensures
        flattened(result) == flatten_expr(e@, counter),
    decreases e,
{
    match e {
        Expression::Binary { left, operator, right, ty } => {
            let mut drawn = counter;
            let out = new_local_var(&mut drawn);
            let l = flatten_expression(&**left, drawn)?;
            let r = flatten_expression(&**right, l.counter)?;
            let mut lines = l.lines;
            lines.append(r.lines.as_str());
            lines.append(out.as_str());
            lines.append(" = ");
            lines.append(operator.call_name());
            lines.append("(");
            lines.append(l.value.as_str());
            lines.append(", ");
            lines.append(r.value.as_str());
            lines.append(");\n");
            Ok(Flat { lines, value: out, counter: r.counter })
        },
        Expression::Unary { input, operator, ty } => {
            let mut drawn = counter;
            let out = new_local_var(&mut drawn);
            let i = flatten_expression(&**input, drawn)?;
            let mut lines = i.lines;
            lines.append(out.as_str());
            lines.append(" = ");
            lines.append(operator.call_name());
            lines.append("(");
            lines.append(i.value.as_str());
            lines.append(");\n");
            Ok(Flat { lines, value: out, counter: i.counter })
        },
        Expression::Variable { name, ty } => Ok(
            Flat { lines: String::new(), value: name.clone(), counter },
        ),
        Expression::Literal { value, ty } => {
            let text = format_lit(value.as_str(), ty)?;
            Ok(Flat { lines: String::new(), value: text, counter })
        },
        Expression::Assignment { left, right, ty } => {
            let l = flatten_expression(&**left, counter)?;
            let r = flatten_expression(&**right, l.counter)?;
            let mut lines = l.lines;
            lines.append(r.lines.as_str());
            let mut value = l.value;
            value.append(" = ");
            value.append(r.value.as_str());
            Ok(Flat { lines, value, counter: r.counter })
        },
        Expression::Init { left, right, ty } => Err(RenderError::StrayInitializer),
        Expression::Verbatim { tokens } => Ok(
            Flat { lines: String::new(), value: tokens.clone(), counter },
        ),
    }
}

/// Writes one statement in call form.
pub fn flatten_statement(s: &Statement, counter: u32) -> (result: Result<
    (String, u32),
    RenderError,
>)
    ensures
        flattened_lines(result) == flatten_stmt(s@, counter),
{
    match s {
        Statement::Local { variable, mutable, ty } => match &**variable {
            Expression::Variable { name, ty: variable_ty } => {
                let ty_name = format_needed_type(*variable_ty)?;
                let mut text = format_declaration(*mutable, name.as_str(), ty_name);
                text.append(";\n");
                Ok((text, counter))
            },
            Expression::Init { left, right, ty: init_ty } => match &**left {
                Expression::Variable { name, ty: variable_ty } => {
                    assert((**variable)@ == ExpressionView::Init {
                        left: Box::new((**left)@),
                        right: Box::new((**right)@),
                        ty: *init_ty,
                    });
                    let ty_name = format_needed_type(
                        if ty.is_some() {
                            *ty
                        } else {
                            *variable_ty
                        },
                    )?;
                    let flat = flatten_expression(&**right, counter)?;
                    let statement = format_initialized(
                        *mutable,
                        name.as_str(),
                        ty_name,
                        ty.is_some(),
                        flat.value.as_str(),
                    );
                    let mut text = flat.lines;
                    text.append(statement.as_str());
                    Ok((text, flat.counter))
                },
                _ => {
                    assert((**variable)@ == ExpressionView::Init {
                        left: Box::new((**left)@),
                        right: Box::new((**right)@),
                        ty: *init_ty,
                    });
                    assert(!((**left)@ is Variable));
                    Err(RenderError::MalformedLocal)
                },
            },
            _ => Err(RenderError::MalformedLocal),
        },
        Statement::Expression { expression } => {
            let flat = flatten_expression(&**expression, counter)?;
            let mut text = flat.lines;
            text.append(flat.value.as_str());
            text.append(";\n");
            Ok((text, flat.counter))
        },
        Statement::ImplicitReturn { expression } => {
            let flat = flatten_expression(&**expression, counter)?;
            let mut text = flat.lines;
            text.append("return ");
            text.append(flat.value.as_str());
            text.append(";\n");
            Ok((text, flat.counter))
        },
    }
}

/// Once a statement cannot be written, the error stays, whatever follows.
pub proof fn lemma_flatten_stmts_error_stays(stmts: Seq<StatementView>, counter: u32, i: int)
    requires
        0 <= i <= stmts.len(),
        flatten_stmts(stmts.take(i), counter) is Err,
    ensures
        flatten_stmts(stmts, counter) == flatten_stmts(stmts.take(i), counter),
    decreases stmts.len() - i,
{
    if i < stmts.len() {
        assert(stmts.take(i + 1).drop_last() =~= stmts.take(i));
        lemma_flatten_stmts_error_stays(stmts, counter, i + 1);
    } else {
        assert(stmts.take(i) =~= stmts);
    }
}

/// Writes a sequence of statements in call form, one after the other.
pub fn flatten_statements(statements: &Vec<Statement>, counter: u32) -> (result: Result<
    (String, u32),
    RenderError,
>)
    ensures
        flattened_lines(result) == flatten_stmts(
            statements@.map_values(|s: Statement| s@),
            counter,
        ),
{
    let ghost stmts = statements@.map_values(|s: Statement| s@);
    let mut text = String::new();
    let mut reached = counter;
    let mut i: usize = 0;
    assert(stmts.take(0) =~= Seq::empty());
    while i < statements.len()
        invariant
            i <= statements.len(),
            stmts == statements@.map_values(|s: Statement| s@),
            flatten_stmts(stmts.take(i as int), counter) == Ok::<(Seq<char>, u32), RenderError>(
                (text@, reached),
            ),
        decreases statements.len() - i,
    {
        proof {
            assert(stmts.take(i + 1).drop_last() =~= stmts.take(i as int));
            assert(stmts.take(i + 1).last() == statements[i as int]@);
        }
        match flatten_statement(&statements[i], reached) {
            Ok((lines, left)) => {
                text.append(lines.as_str());
                reached = left;
            },
            Err(err) => {
                proof {
                    lemma_flatten_stmts_error_stays(stmts, counter, i + 1);
                }
                return Err(err);
            },
        }
        i = i + 1;
    }
    assert(stmts.take(i as int) =~= stmts);
    Ok((text, reached))
}

impl WgpuKernel {
    /// Writes the kernel as shader source text in call form. The names of
    /// the temporaries are drawn from `counter`, which is advanced past them;
    /// on an error no text is produced and the counter stays as it was.
    pub fn render_flat(&self, counter: &mut u32) -> (result: Result<String, RenderError>)
        ensures
            match result {
                Ok(text) => flatten_kernel(self@, *old(counter)) == Ok::<
                    (Seq<char>, u32),
                    RenderError,
                >((text@, *final(counter))),
                Err(err) => flatten_kernel(self@, *old(counter)) == Err::<
                    (Seq<char>, u32),
                    RenderError,
                >(err) && *final(counter) == *old(counter),
            },
    {
        let params = render_parameters(&self.parameters)?;
        let (body, left) = flatten_statements(&self.statements, *counter)?;
        let mut text = String::from_str("fn main(");
        text.append(params.as_str());
        text.append(") {\n");
        text.append(body.as_str());
        text.append("}\n");
        *counter = left;
        Ok(text)
    }
}

} // verus!
