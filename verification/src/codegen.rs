//! The renderer: writes IR statements as shader source text, with nested
//! expressions in infix form.

use vstd::prelude::*;
use vstd::string::*;
use crate::error::RenderError;
use crate::expression::{Expression, ExpressionView};
use crate::statement::{Statement, StatementView};
use crate::types::IRType;

verus! {

/// The name under which the shader language knows a type, for the types that
/// it can hold.
pub open spec fn shader_type(ty: IRType) -> Option<Seq<char>> {
    if ty == IRType::Int(32) {
        Some("i32"@)
    } else if ty == IRType::UInt(32) {
        Some("u32"@)
    } else if ty == IRType::Float(32) {
        Some("f32"@)
    } else {
        None
    }
}

/// The suffix that marks a literal of a type, for the types that the shader
/// language can hold.
pub open spec fn literal_suffix(ty: IRType) -> Option<Seq<char>> {
    if ty == IRType::Int(32) {
        Some("i"@)
    } else if ty == IRType::UInt(32) {
        Some("u"@)
    } else if ty == IRType::Float(32) {
        Some("f"@)
    } else {
        None
    }
}

/// The renderer's table has three rows: the 32-bit signed integer, the
/// 32-bit unsigned integer and the 32-bit float. A type has a name exactly if
/// it has a literal suffix, and a literal of any other type is refused with
/// that type in the error, whatever its value.
pub proof fn lemma_type_table(ty: IRType, value: Seq<char>)
    ensures
        shader_type(ty) is Some <==> ty == IRType::Int(32) || ty == IRType::UInt(32) || ty
            == IRType::Float(32),
        shader_type(ty) is Some <==> literal_suffix(ty) is Some,
        shader_type(ty) is None ==> render_expr(ExpressionView::Literal { value, ty }) == Err::<
            Seq<char>,
            RenderError,
        >(RenderError::UnsupportedType(ty)),
        shader_type(ty) is None ==> needed_shader_type(Some(ty)) == Err::<
            Seq<char>,
            RenderError,
        >(RenderError::UnsupportedType(ty)),
{
}

/// The word that opens a declaration: one for storage that can be written
/// again, one for a binding that cannot.
pub open spec fn qualifier(mutable: bool) -> Seq<char> {
    if mutable {
        "var"@
    } else {
        "let"@
    }
}

/// A declaration without its end: qualifier, name and type.
pub open spec fn declaration(mutable: bool, name: Seq<char>, ty: Seq<char>) -> Seq<char> {
    qualifier(mutable) + " "@ + name + ": "@ + ty
}

/// A declaration with a first value. Where the type was written in the
/// source it is one line that declares and assigns; where the type was
/// inferred it is two lines, the declaration and then the assignment. The
/// declaration of the two-line form is always storage that can be written
/// again, whatever the mutability of the binding: the assignment that
/// follows writes to it.
pub open spec fn initialized(
    mutable: bool,
    name: Seq<char>,
    ty: Seq<char>,
    written: bool,
    value: Seq<char>,
) -> Seq<char> {
    if written {
        declaration(mutable, name, ty) + " = "@ + value + ";\n"@
    } else {
        declaration(true, name, ty) + ";\n"@ + name + " = "@ + value + ";\n"@
    }
}

/// The name of a type that a declaration needs, or the reason why there is
/// none.
pub open spec fn needed_shader_type(ty: Option<IRType>) -> Result<Seq<char>, RenderError> {
    match ty {
        None => Err(RenderError::MissingType),
        Some(ty) => match shader_type(ty) {
            None => Err(RenderError::UnsupportedType(ty)),
            Some(name) => Ok(name),
        },
    }
}

/// The text of an expression in infix form, or the first error met when the
/// tree is walked from left to right.
pub open spec fn render_expr(e: ExpressionView) -> Result<Seq<char>, RenderError>
    decreases e,
{
    match e {
        ExpressionView::Binary { left, operator, right, ty } => match render_expr(*left) {
            Err(err) => Err(err),
            Ok(l) => match render_expr(*right) {
                Err(err) => Err(err),
                Ok(r) => Ok(l + " "@ + operator.spec_symbol() + " "@ + r),
            },
        },
        ExpressionView::Unary { input, operator, ty } => match render_expr(*input) {
            Err(err) => Err(err),
            Ok(i) => Ok(operator.spec_symbol() + i),
        },
        ExpressionView::Variable { name, ty } => Ok(name),
        ExpressionView::Literal { value, ty } => match literal_suffix(ty) {
            None => Err(RenderError::UnsupportedType(ty)),
            Some(suffix) => Ok(value + suffix),
        },
        ExpressionView::Assignment { left, right, ty } => match render_expr(*left) {
            Err(err) => Err(err),
            Ok(l) => match render_expr(*right) {
                Err(err) => Err(err),
                Ok(r) => Ok(l + " = "@ + r),
            },
        },
        ExpressionView::Init { left, right, ty } => Err(RenderError::StrayInitializer),
        ExpressionView::Verbatim { tokens } => Ok(tokens),
    }
}

/// The lines of a statement.
///
/// A local declaration without an initializer is one line, typed by its
/// variable. With an initializer and a written type it is one line that
/// declares and assigns. With an initializer and no written type it is two
/// lines: the declaration, typed by the variable and spelled as storage that
/// can be written again, then the assignment.
pub open spec fn render_stmt(s: StatementView) -> Result<Seq<char>, RenderError> {
    match s {
        StatementView::Local { variable, mutable, ty } => match variable {
            ExpressionView::Variable { name, ty: variable_ty } => match needed_shader_type(
                variable_ty,
            ) {
                Err(err) => Err(err),
                Ok(ty_name) => Ok(declaration(mutable, name, ty_name) + ";\n"@),
            },
            ExpressionView::Init { left, right, ty: _ } => match *left {
                ExpressionView::Variable { name, ty: variable_ty } => match needed_shader_type(
                    if ty is Some {
                        ty
                    } else {
                        variable_ty
                    },
                ) {
                    Err(err) => Err(err),
                    Ok(ty_name) => match render_expr(*right) {
                        Err(err) => Err(err),
                        Ok(value) => Ok(initialized(mutable, name, ty_name, ty is Some, value)),
                    },
                },
                _ => Err(RenderError::MalformedLocal),
            },
            _ => Err(RenderError::MalformedLocal),
        },
        StatementView::Expression { expression } => match render_expr(expression) {
            Err(err) => Err(err),
            Ok(text) => Ok(text + ";\n"@),
        },
        StatementView::ImplicitReturn { expression } => match render_expr(expression) {
            Err(err) => Err(err),
            Ok(text) => Ok("return "@ + text + ";\n"@),
        },
    }
}

/// The lines of a sequence of statements, in order, or the error of the
/// first statement that cannot be rendered.
pub open spec fn render_stmts(stmts: Seq<StatementView>) -> Result<Seq<char>, RenderError>
    decreases stmts.len(),
{
    if stmts.len() == 0 {
        Ok(Seq::empty())
    } else {
        match render_stmts(stmts.drop_last()) {
            Err(err) => Err(err),
            Ok(text) => match render_stmt(stmts.last()) {
                Err(err) => Err(err),
                Ok(line) => Ok(text + line),
            },
        }
    }
}

/// The parameter list of the kernel's function: `name: type`, separated by a
/// comma and a space.
pub open spec fn render_params(params: Seq<(Seq<char>, IRType)>) -> Result<Seq<char>, RenderError>
    decreases params.len(),
{
    if params.len() == 0 {
        Ok(Seq::empty())
    } else {
        match render_params(params.drop_last()) {
            Err(err) => Err(err),
            Ok(text) => match shader_type(params.last().1) {
                None => Err(RenderError::UnsupportedType(params.last().1)),
                Some(ty_name) => if params.len() == 1 {
                    Ok(params.last().0 + ": "@ + ty_name)
                } else {
                    Ok(text + ", "@ + params.last().0 + ": "@ + ty_name)
                },
            },
        }
    }
}

/// The outcome of a rendering as a value of the model.
pub open spec fn rendered(result: Result<String, RenderError>) -> Result<Seq<char>, RenderError> {
    match result {
        Ok(text) => Ok(text@),
        Err(err) => Err(err),
    }
}

/// The shader's name of a type; a type outside the table is refused.
pub fn format_type(ty: IRType) -> (result: Result<&'static str, RenderError>)
    ensures
        match result {
            Ok(name) => shader_type(ty) == Some(name@),
            Err(err) => shader_type(ty) is None && err == RenderError::UnsupportedType(ty),
        },
{
    match ty {
        IRType::Int(width) => if width == 32 {
            Ok("i32")
        } else {
            Err(RenderError::UnsupportedType(ty))
        },
        IRType::UInt(width) => if width == 32 {
            Ok("u32")
        } else {
            Err(RenderError::UnsupportedType(ty))
        },
        IRType::Float(width) => if width == 32 {
            Ok("f32")
        } else {
            Err(RenderError::UnsupportedType(ty))
        },
        IRType::Unit => Err(RenderError::UnsupportedType(ty)),
    }
}

/// A literal as the shader language writes it: the value followed by the
/// suffix of its type; a type outside the table is refused.
pub fn format_lit(value: &str, ty: &IRType) -> (result: Result<String, RenderError>)
    ensures
        rendered(result) == match literal_suffix(*ty) {
            None => Err::<Seq<char>, RenderError>(RenderError::UnsupportedType(*ty)),
            Some(suffix) => Ok(value@ + suffix),
        },
{
    let suffix = match *ty {
        IRType::Int(width) => if width == 32 {
            "i"
        } else {
            return Err(RenderError::UnsupportedType(*ty));
        },
        IRType::UInt(width) => if width == 32 {
            "u"
        } else {
            return Err(RenderError::UnsupportedType(*ty));
        },
        IRType::Float(width) => if width == 32 {
            "f"
        } else {
            return Err(RenderError::UnsupportedType(*ty));
        },
        IRType::Unit => {
            return Err(RenderError::UnsupportedType(*ty));
        },
    };
    let mut text = String::from_str(value);
    text.append(suffix);
    Ok(text)
}

/// The name of the type of a declaration; an absent type and a type outside
/// the table are refused.
pub(crate) fn format_needed_type(ty: Option<IRType>) -> (result: Result<&'static str, RenderError>)
    ensures
        match result {
            Ok(name) => needed_shader_type(ty) == Ok::<Seq<char>, RenderError>(name@),
            Err(err) => needed_shader_type(ty) == Err::<Seq<char>, RenderError>(err),
        },
{
    match ty {
        None => Err(RenderError::MissingType),
        Some(ty) => format_type(ty),
    }
}

/// Starts a declaration: qualifier, name and type, without the end.
pub(crate) fn format_declaration(mutable: bool, name: &str, ty_name: &str) -> (text: String)
    ensures
        text@ == declaration(mutable, name@, ty_name@),
{
    let mut text = String::from_str(
        if mutable {
            "var"
        } else {
            "let"
        },
    );
    text.append(" ");
    text.append(name);
    text.append(": ");
    text.append(ty_name);
    text
}

/// Writes a declaration with a first value, in one line or in two.
pub(crate) fn format_initialized(
    mutable: bool,
    name: &str,
    ty_name: &str,
    written: bool,
    value: &str,
) -> (text: String)
    ensures
        text@ == initialized(mutable, name@, ty_name@, written, value@),
{
    let mut text = format_declaration(mutable || !written, name, ty_name);
    if written {
        text.append(" = ");
    } else {
        text.append(";\n");
        text.append(name);
        text.append(" = ");
    }
    text.append(value);
    text.append(";\n");
    text
}

/// Renders an expression in infix form.
pub fn render_expression(e: &Expression) -> (result: Result<String, RenderError>)
    ensures
        rendered(result) == render_expr(e@),
    decreases e,
{
    match e {
        Expression::Binary { left, operator, right, ty } => {
            let mut text = render_expression(&**left)?;
            let r = render_expression(&**right)?;
            text.append(" ");
            text.append(operator.symbol());
            text.append(" ");
            text.append(r.as_str());
            Ok(text)
        },
        Expression::Unary { input, operator, ty } => {
            let i = render_expression(&**input)?;
            let mut text = String::from_str(operator.symbol());
            text.append(i.as_str());
            Ok(text)
        },
        Expression::Variable { name, ty } => Ok(name.clone()),
        Expression::Literal { value, ty } => format_lit(value.as_str(), ty),
        Expression::Assignment { left, right, ty } => {
            let mut text = render_expression(&**left)?;
            let r = render_expression(&**right)?;
            text.append(" = ");
            text.append(r.as_str());
            Ok(text)
        },
        Expression::Init { left, right, ty } => Err(RenderError::StrayInitializer),
        Expression::Verbatim { tokens } => Ok(tokens.clone()),
    }
}

/// Renders one statement: one or two lines, each closed by a line end.
pub fn render_statement(s: &Statement) -> (result: Result<String, RenderError>)
    ensures
        rendered(result) == render_stmt(s@),
{
    match s {
        Statement::Local { variable, mutable, ty } => match &**variable {
            Expression::Variable { name, ty: variable_ty } => {
                let ty_name = format_needed_type(*variable_ty)?;
                let mut text = format_declaration(*mutable, name.as_str(), ty_name);
                text.append(";\n");
                Ok(text)
            },
            Expression::Init { left, right, ty: init_ty } => match &**left {
                Expression::Variable { name, ty: variable_ty } => {
                    assert((**variable)@ == ExpressionView::Init {
                        left: Box::new((**left)@),
                        right: Box::new((**right)@),
                        ty: *init_ty,
                    });
                    let ty_name = format_needed_type(
                        if ty.is_some() {
                            *ty
                        } else {
                            *variable_ty
                        },
                    )?;
                    let value = render_expression(&**right)?;
                    Ok(
                        format_initialized(
                            *mutable,
                            name.as_str(),
                            ty_name,
                            ty.is_some(),
                            value.as_str(),
                        ),
                    )
                },
                _ => {
                    assert((**variable)@ == ExpressionView::Init {
                        left: Box::new((**left)@),
                        right: Box::new((**right)@),
                        ty: *init_ty,
                    });
                    assert(!((**left)@ is Variable));
                    Err(RenderError::MalformedLocal)
                },
            },
            _ => Err(RenderError::MalformedLocal),
        },
        Statement::Expression { expression } => {
            let mut text = render_expression(&**expression)?;
            text.append(";\n");
            Ok(text)
        },
        Statement::ImplicitReturn { expression } => {
            let value = render_expression(&**expression)?;
            let mut text = String::from_str("return ");
            text.append(value.as_str());
            text.append(";\n");
            Ok(text)
        },
    }
}

/// Once a statement cannot be rendered, the error stays, whatever follows.
pub proof fn lemma_render_stmts_error_stays(stmts: Seq<StatementView>, i: int)
    requires
        0 <= i <= stmts.len(),
        render_stmts(stmts.take(i)) is Err,
    ensures
        render_stmts(stmts) == render_stmts(stmts.take(i)),
    decreases stmts.len() - i,
{
    if i < stmts.len() {
        assert(stmts.take(i + 1).drop_last() =~= stmts.take(i));
        lemma_render_stmts_error_stays(stmts, i + 1);
    } else {
        assert(stmts.take(i) =~= stmts);
    }
}

/// Once a parameter cannot be rendered, the error stays, whatever follows.
pub proof fn lemma_render_params_error_stays(params: Seq<(Seq<char>, IRType)>, i: int)
    requires
        0 <= i <= params.len(),
        render_params(params.take(i)) is Err,
    ensures
        render_params(params) == render_params(params.take(i)),
    decreases params.len() - i,
{
    if i < params.len() {
        assert(params.take(i + 1).drop_last() =~= params.take(i));
        lemma_render_params_error_stays(params, i + 1);
    } else {
        assert(params.take(i) =~= params);
    }
}

/// Renders a sequence of statements, one after the other.
pub fn render_statements(statements: &Vec<Statement>) -> (result: Result<String, RenderError>)
    ensures
        rendered(result) == render_stmts(statements@.map_values(|s: Statement| s@)),
{
    let ghost stmts = statements@.map_values(|s: Statement| s@);
    let mut text = String::new();
    let mut i: usize = 0;
    assert(stmts.take(0) =~= Seq::empty());
    while i < statements.len()
        invariant
            i <= statements.len(),
            stmts == statements@.map_values(|s: Statement| s@),
            render_stmts(stmts.take(i as int)) == Ok::<Seq<char>, RenderError>(text@),
        decreases statements.len() - i,
    {
        proof {
            assert(stmts.take(i + 1).drop_last() =~= stmts.take(i as int));
            assert(stmts.take(i + 1).last() == statements[i as int]@);
        }
        match render_statement(&statements[i]) {
            Ok(line) => {
                text.append(line.as_str());
            },
            Err(err) => {
                proof {
                    lemma_render_stmts_error_stays(stmts, i + 1);
                }
                return Err(err);
            },
        }
        i = i + 1;
    }
    assert(stmts.take(i as int) =~= stmts);
    Ok(text)
}

/// Renders the parameter list of the kernel's function.
pub fn render_parameters(parameters: &Vec<(String, IRType)>) -> (result: Result<
    String,
    RenderError,
>)
    ensures
        rendered(result) == render_params(
            parameters@.map_values(|p: (String, IRType)| (p.0@, p.1)),
        ),
{
    let ghost params = parameters@.map_values(|p: (String, IRType)| (p.0@, p.1));
    let mut text = String::new();
    let mut i: usize = 0;
    assert(params.take(0) =~= Seq::empty());
    while i < parameters.len()
        invariant
            i <= parameters.len(),
            params == parameters@.map_values(|p: (String, IRType)| (p.0@, p.1)),
            render_params(params.take(i as int)) == Ok::<Seq<char>, RenderError>(text@),
        decreases parameters.len() - i,
    {
        proof {
            assert(params.take(i + 1).drop_last() =~= params.take(i as int));
            assert(params.take(i + 1).last() == (parameters[i as int].0@, parameters[i as int].1));
        }
        match format_type(parameters[i].1) {
            Ok(ty_name) => {
                if i > 0 {
                    text.append(", ");
                } else {
                    assert(text@ =~= Seq::empty()) by {
                        assert(params.take(0) =~= Seq::empty());
                    }
                    assert(Seq::<char>::empty() + parameters[i as int].0@
                        =~= parameters[i as int].0@);
                }
                text.append(parameters[i].0.as_str());
                text.append(": ");
                text.append(ty_name);
            },
            Err(err) => {
                proof {
                    lemma_render_params_error_stays(params, i + 1);
                }
                return Err(err);
            },
        }
        i = i + 1;
    }
    assert(params.take(i as int) =~= params);
    Ok(text)
}

/// A kernel that is ready to be written out: the parameters of its function
/// and the statements of its body.
#[derive(Debug, PartialEq, Eq)]
pub struct WgpuKernel {
    pub parameters: Vec<(String, IRType)>,
    pub statements: Vec<Statement>,
}

/// The model of a kernel that is ready to be written out.
pub struct WgpuKernelView {
    pub parameters: Seq<(Seq<char>, IRType)>,
    pub statements: Seq<StatementView>,
}

impl View for WgpuKernel {
    type V = WgpuKernelView;

    open spec fn view(&self) -> WgpuKernelView {
        WgpuKernelView {
            parameters: self.parameters@.map_values(|p: (String, IRType)| (p.0@, p.1)),
            statements: self.statements@.map_values(|s: Statement| s@),
        }
    }
}

/// The text of a kernel: the head of its function with the parameter list,
/// the lines of its statements, and the closing brace.
pub open spec fn render_kernel(kernel: WgpuKernelView) -> Result<Seq<char>, RenderError> {
    match render_params(kernel.parameters) {
        Err(err) => Err(err),
        Ok(params) => match render_stmts(kernel.statements) {
            Err(err) => Err(err),
            Ok(body) => Ok("fn main("@ + params + ") {\n"@ + body + "}\n"@),
        },
    }
}

impl WgpuKernel {
    /// Writes the kernel as shader source text, with expressions in infix
    /// form. Either the whole text is produced or an error and no text.
    pub fn render(&self) -> (result: Result<String, RenderError>)
        ensures
            rendered(result) == render_kernel(self@),
    {
        let params = render_parameters(&self.parameters)?;
        let body = render_statements(&self.statements)?;
        let mut text = String::from_str("fn main(");
        text.append(params.as_str());
        text.append(") {\n");
        text.append(body.as_str());
        text.append("}\n");
        Ok(text)
    }
}

} // verus!
