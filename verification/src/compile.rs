//! The whole way from a surface kernel to shader source text: build, then
//! render.

use vstd::prelude::*;
use crate::codegen::{
    render_expr, render_kernel, render_params, render_stmt, render_stmts, WgpuKernel,
    WgpuKernelView,
};
use crate::error::{BuildError, RenderError};
use crate::expression::ExpressionView;
use crate::flat::flatten_kernel;
use crate::kernel::{
    build_kernel, lemma_build_stmts_well_shaped, param_bindings, Kernel, KernelView,
};
use crate::scope::ContextView;
use crate::statement::StatementView;
use crate::surface::{SurfaceKernel, SurfaceKernelView};
use crate::types::IRType;

verus! {

/// Why a kernel could not be compiled.
#[derive(Debug, Clone, Copy, PartialEq, Eq, Structural)]
pub enum CompileError {
    /// The surface tree was refused.
    Build(BuildError),
    /// The IR could not be written out.
    Render(RenderError),
}

/// What of a built kernel is written out.
pub open spec fn wgpu_of(kernel: KernelView) -> WgpuKernelView {
    WgpuKernelView { parameters: kernel.parameters, statements: kernel.statements }
}

/// The shader source text of a surface kernel, with expressions in infix
/// form, or the first error: that of the build, or else that of the
/// rendering.
pub open spec fn compile_text(kernel: SurfaceKernelView) -> Result<Seq<char>, CompileError> {
    match build_kernel(kernel) {
        Err(err) => Err(CompileError::Build(err)),
        Ok(built) => match render_kernel(wgpu_of(built)) {
            Err(err) => Err(CompileError::Render(err)),
            Ok(text) => Ok(text),
        },
    }
}

/// The shader source text of a surface kernel in call form, with the counter
/// after the names that were drawn.
pub open spec fn compile_flat_text(kernel: SurfaceKernelView, counter: u32) -> Result<
    (Seq<char>, u32),
    CompileError,
> {
    match build_kernel(kernel) {
        Err(err) => Err(CompileError::Build(err)),
        Ok(built) => match flatten_kernel(wgpu_of(built), counter) {
            Err(err) => Err(CompileError::Render(err)),
            Ok(done) => Ok(done),
        },
    }
}

/// The outcome of a compilation as a value of the model.
pub open spec fn compiled(result: Result<String, CompileError>) -> Result<Seq<char>, CompileError> {
    match result {
        Ok(text) => Ok(text@),
        Err(err) => Err(err),
    }
}

impl Kernel {
    /// Hands the parameters and the statements over to the renderer.
    pub fn into_wgpu(self) -> (wgpu: WgpuKernel)
        ensures
            wgpu@ == wgpu_of(self@),
    {
        WgpuKernel { parameters: self.parameters, statements: self.statements }
    }
}

/// Compiles a surface kernel to shader source text with expressions in infix
/// form. Either the whole text is produced or an error and no text.
pub fn compile(kernel: SurfaceKernel) -> (result: Result<String, CompileError>)
    ensures
        compiled(result) == compile_text(kernel@),
{
    let built = match Kernel::parse(kernel) {
        Ok(built) => built,
        Err(err) => {
            return Err(CompileError::Build(err));
        },
    };
    match built.into_wgpu().render() {
        Ok(text) => Ok(text),
        Err(err) => Err(CompileError::Render(err)),
    }
}

/// Compiles a surface kernel to shader source text in call form. The names
/// of the temporaries are drawn from `counter`, which is advanced past them;
/// on an error the counter stays as it was.
pub fn compile_flat(kernel: SurfaceKernel, counter: &mut u32) -> (result: Result<
    String,
    CompileError,
>)
    ensures
        match result {
            Ok(text) => compile_flat_text(kernel@, *old(counter)) == Ok::<
                (Seq<char>, u32),
                CompileError,
            >((text@, *final(counter))),
            Err(err) => compile_flat_text(kernel@, *old(counter)) == Err::<
                (Seq<char>, u32),
                CompileError,
            >(err) && *final(counter) == *old(counter),
        },
{
    let built = match Kernel::parse(kernel) {
        Ok(built) => built,
        Err(err) => {
            return Err(CompileError::Build(err));
        },
    };
    match built.into_wgpu().render_flat(counter) {
        Ok(text) => Ok(text),
        Err(err) => Err(CompileError::Render(err)),
    }
}

/// Determinism. Two compilations of kernels with the same content end the
/// same way: with the same text, character for character, or with the same
/// error. Nothing but the surface kernel goes into the outcome.
pub proof fn lemma_compile_deterministic(
    first: SurfaceKernel,
    second: SurfaceKernel,
    first_outcome: Result<String, CompileError>,
    second_outcome: Result<String, CompileError>,
)
    requires
        first@ == second@,
        compiled(first_outcome) == compile_text(first@),
        compiled(second_outcome) == compile_text(second@),
    ensures
        compiled(first_outcome) == compiled(second_outcome),
        first_outcome matches Ok(text) ==> second_outcome matches Ok(other) && text@ == other@,
        first_outcome matches Err(err) ==> second_outcome == Err::<String, CompileError>(err),
{
}

/// Determinism in call form. Two compilations of kernels with the same
/// content that start from the same counter end with the same text and the
/// same counter, or with the same error.
pub proof fn lemma_compile_flat_deterministic(
    first: SurfaceKernel,
    second: SurfaceKernel,
    counter: u32,
    first_outcome: Result<(Seq<char>, u32), CompileError>,
    second_outcome: Result<(Seq<char>, u32), CompileError>,
)
    requires
        first@ == second@,
        first_outcome == compile_flat_text(first@, counter),
        second_outcome == compile_flat_text(second@, counter),
    ensures
        first_outcome == second_outcome,
{
}

/// An expression without an initializer fails to render only on a literal
/// whose type is outside the renderer's table.
pub proof fn lemma_render_expr_errors(e: ExpressionView)
    requires
        e.init_free(),
    ensures
        render_expr(e) matches Err(err) ==> err is UnsupportedType,
    decreases e,
{
    match e {
        ExpressionView::Binary { left, operator, right, ty } => {
            lemma_render_expr_errors(*left);
            lemma_render_expr_errors(*right);
        },
        ExpressionView::Unary { input, operator, ty } => {
            lemma_render_expr_errors(*input);
        },
        ExpressionView::Assignment { left, right, ty } => {
            lemma_render_expr_errors(*left);
            lemma_render_expr_errors(*right);
        },
        _ => {},
    }
}

/// A well-shaped statement fails to render only for want of a type: on a
/// type outside the renderer's table, or on a declaration without any type.
pub proof fn lemma_render_stmt_errors(s: StatementView)
    requires
        s.well_shaped(),
    ensures
        render_stmt(s) matches Err(err) ==> err is UnsupportedType || err is MissingType,
{
    match s {
        StatementView::Local { variable, mutable, ty } => match variable {
            ExpressionView::Init { left, right, ty: _ } => {
                lemma_render_expr_errors(*right);
            },
            _ => {},
        },
        StatementView::Expression { expression } => {
            lemma_render_expr_errors(expression);
        },
        StatementView::ImplicitReturn { expression } => {
            lemma_render_expr_errors(expression);
        },
    }
}

/// Well-shaped statements fail to render only for want of a type.
pub proof fn lemma_render_stmts_errors(stmts: Seq<StatementView>)
    requires
        forall|i: int| 0 <= i < stmts.len() ==> (#[trigger] stmts[i]).well_shaped(),
    ensures
        render_stmts(stmts) matches Err(err) ==> err is UnsupportedType || err is MissingType,
    decreases stmts.len(),
{
    if stmts.len() > 0 {
        assert forall|i: int| 0 <= i < stmts.drop_last().len() implies (
        #[trigger] stmts.drop_last()[i]).well_shaped() by {
            assert(stmts.drop_last()[i] == stmts[i]);
        }
        lemma_render_stmts_errors(stmts.drop_last());
        assert(stmts.last() == stmts[stmts.len() - 1]);
        lemma_render_stmt_errors(stmts.last());
    }
}

/// A parameter list fails to render only on a type outside the renderer's
/// table.
pub proof fn lemma_render_params_errors(params: Seq<(Seq<char>, IRType)>)
    ensures
        render_params(params) matches Err(err) ==> err is UnsupportedType,
    decreases params.len(),
{
    if params.len() > 0 {
        lemma_render_params_errors(params.drop_last());
    }
}

/// What the builder accepts never trips the renderer's checks on the shape
/// of the tree: a compilation fails in the build, or in the rendering for
/// want of a type, and in no other way.
pub proof fn lemma_compile_errors(kernel: SurfaceKernelView)
    ensures
        compile_text(kernel) matches Err(CompileError::Render(err)) ==> err is UnsupportedType
            || err is MissingType,
{
    if let Ok(built) = build_kernel(kernel) {
        let parameters = built.parameters;
        let entered = ContextView::initial().extend(
            param_bindings(parameters),
        ).push_scope();
        lemma_build_stmts_well_shaped(kernel.body, entered);
        lemma_render_stmts_errors(built.statements);
        lemma_render_params_errors(parameters);
    }
}

} // verus!
