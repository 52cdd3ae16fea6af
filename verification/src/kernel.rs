//! A whole kernel: its parameters are registered in the root scope, its body
//! is built statement by statement in a scope of its own.

use vstd::prelude::*;
use crate::error::{BuildError, BuildErrorKind};
use crate::expression::{build_error, Expression, ExpressionView};
use crate::scope::{Binding, Context, ContextView, ScopeView};
use crate::statement::{build_stmt, lemma_build_stmt_well_shaped, Statement, StatementView};
use crate::surface::{
    SurfaceKernel, SurfaceKernelView, SurfaceParam, SurfaceParamView, SurfaceStmt, SurfaceStmtView,
};
use crate::types::{type_of_name, IRType};

verus! {

/// A kernel after the build: its name, its parameters with their types, the
/// statements of its body and the scopes as the build left them.
#[derive(Debug)]
pub struct Kernel {
    pub name: String,
    pub parameters: Vec<(String, IRType)>,
    pub statements: Vec<Statement>,
    pub context: Context,
}

/// The model of a built kernel.
pub struct KernelView {
    pub name: Seq<char>,
    pub parameters: Seq<(Seq<char>, IRType)>,
    pub statements: Seq<StatementView>,
    pub context: ContextView,
}

impl View for Kernel {
    type V = KernelView;

    open spec fn view(&self) -> KernelView {
        KernelView {
            name: self.name@,
            parameters: self.parameters@.map_values(|p: (String, IRType)| (p.0@, p.1)),
            statements: self.statements@.map_values(|s: Statement| s@),
            context: self.context@,
        }
    }
}

/// The parameters with their types resolved through the catalog, or the
/// error of the first parameter whose type the catalog does not have.
pub open spec fn resolve_params(params: Seq<SurfaceParamView>) -> Result<
    Seq<(Seq<char>, IRType)>,
    BuildError,
>
    decreases params.len(),
{
    if params.len() == 0 {
        Ok(Seq::empty())
    } else {
        match resolve_params(params.drop_last()) {
            Err(err) => Err(err),
            Ok(resolved) => match type_of_name(params.last().ty) {
                None => Err(build_error(BuildErrorKind::UnsupportedType, params.last().pos)),
                Some(ty) => Ok(resolved.push((params.last().name, ty))),
            },
        }
    }
}

/// The bindings that the parameters make in the root scope.
pub open spec fn param_bindings(params: Seq<(Seq<char>, IRType)>) -> ScopeView {
    params.map_values(|p: (Seq<char>, IRType)| (p.0, Some(p.1)))
}

/// The statements built in order, each under the scopes that the one before
/// it left, or the error of the first statement that cannot be built.
pub open spec fn build_stmts(stmts: Seq<SurfaceStmtView>, ctx: ContextView) -> Result<
    (Seq<StatementView>, ContextView),
    BuildError,
>
    decreases stmts.len(),
{
    if stmts.len() == 0 {
        Ok((Seq::empty(), ctx))
    } else {
        match build_stmts(stmts.drop_last(), ctx) {
            Err(err) => Err(err),
            Ok((built, reached)) => match build_stmt(stmts.last(), reached) {
                Err(err) => Err(err),
                Ok((statement, left)) => Ok((built.push(statement), left)),
            },
        }
    }
}

/// The kernel that a surface kernel stands for.
pub open spec fn build_kernel(kernel: SurfaceKernelView) -> Result<KernelView, BuildError> {
    match resolve_params(kernel.parameters) {
        Err(err) => Err(err),
        Ok(parameters) => match build_stmts(
            kernel.body,
            ContextView::initial().extend(param_bindings(parameters)).push_scope(),
        ) {
            Err(err) => Err(err),
            Ok((statements, context)) => Ok(
                KernelView {
                    name: kernel.name,
                    parameters,
                    statements,
                    context: context.pop_scope(),
                },
            ),
        },
    }
}

/// Once a parameter is refused, the error stays, whatever follows.
pub proof fn lemma_resolve_params_error_stays(params: Seq<SurfaceParamView>, i: int)
    requires
        0 <= i <= params.len(),
        resolve_params(params.take(i)) is Err,
    ensures
        resolve_params(params) == resolve_params(params.take(i)),
    decreases params.len() - i,
{
    if i < params.len() {
        assert(params.take(i + 1).drop_last() =~= params.take(i));
        lemma_resolve_params_error_stays(params, i + 1);
    } else {
        assert(params.take(i) =~= params);
    }
}

/// Once a statement is refused, the error stays, whatever follows.
pub proof fn lemma_build_stmts_error_stays(stmts: Seq<SurfaceStmtView>, ctx: ContextView, i: int)
    requires
        0 <= i <= stmts.len(),
        build_stmts(stmts.take(i), ctx) is Err,
    ensures
        build_stmts(stmts, ctx) == build_stmts(stmts.take(i), ctx),
    decreases stmts.len() - i,
{
    if i < stmts.len() {
        assert(stmts.take(i + 1).drop_last() =~= stmts.take(i));
        lemma_build_stmts_error_stays(stmts, ctx, i + 1);
    } else {
        assert(stmts.take(i) =~= stmts);
    }
}

/// Building statements opens and leaves no scope, and every statement built
/// is well shaped.
pub proof fn lemma_build_stmts_well_shaped(stmts: Seq<SurfaceStmtView>, ctx: ContextView)
    requires
        ctx.wf(),
    ensures
        build_stmts(stmts, ctx) matches Ok((built, left)) ==> {
            &&& left.scopes.len() == ctx.scopes.len()
            &&& left.history == ctx.history
            &&& built.len() == stmts.len()
            &&& forall|i: int| 0 <= i < built.len() ==> (#[trigger] built[i]).well_shaped()
        },
    decreases stmts.len(),
{
    if stmts.len() > 0 {
        lemma_build_stmts_well_shaped(stmts.drop_last(), ctx);
        if let Ok((built, reached)) = build_stmts(stmts.drop_last(), ctx) {
            lemma_build_stmt_well_shaped(stmts.last(), reached);
        }
    }
}

/// Resolves the written type of every parameter through the catalog.
pub fn resolve_parameters(parameters: Vec<SurfaceParam>) -> (result: Result<
    Vec<(String, IRType)>,
    BuildError,
>)
    ensures
        match result {
            Ok(resolved) => resolve_params(parameters@.map_values(|p: SurfaceParam| p@)) == Ok::<
                Seq<(Seq<char>, IRType)>,
                BuildError,
            >(resolved@.map_values(|p: (String, IRType)| (p.0@, p.1))),
            Err(err) => resolve_params(parameters@.map_values(|p: SurfaceParam| p@)) == Err::<
                Seq<(Seq<char>, IRType)>,
                BuildError,
            >(err),
        },
{
    let ghost given = parameters@;
    let ghost params = parameters@.map_values(|p: SurfaceParam| p@);
    let mut resolved: Vec<(String, IRType)> = Vec::new();
    proof {
        assert(params.take(0) =~= Seq::empty());
        assert(resolved@.map_values(|p: (String, IRType)| (p.0@, p.1)) =~= Seq::empty());
    }
    for param in it: parameters
        invariant
            it.seq() == given,
            params == given.map_values(|p: SurfaceParam| p@),
            resolve_params(params.take(it.index() as int)) == Ok::<
                Seq<(Seq<char>, IRType)>,
                BuildError,
            >(resolved@.map_values(|p: (String, IRType)| (p.0@, p.1))),
    {
        let ghost i = it.index() as int;
        let ghost before = resolved@.map_values(|p: (String, IRType)| (p.0@, p.1));
        proof {
            assert(params.take(i + 1).drop_last() =~= params.take(i));
            assert(params.take(i + 1).last() == param@);
        }
        match IRType::from_name(param.ty.as_str()) {
            Some(ty) => {
                resolved.push((param.name, ty));
                proof {
                    assert(resolved@.map_values(|p: (String, IRType)| (p.0@, p.1))
                        =~= before.push((param.name@, ty)));
                }
            },
            None => {
                proof {
                    lemma_resolve_params_error_stays(params, i + 1);
                }
                return Err(
                    BuildError { kind: BuildErrorKind::UnsupportedType, position: param.pos },
                );
            },
        }
    }
    proof {
        assert(params.take(params.len() as int) =~= params);
    }
    Ok(resolved)
}

/// Builds the statements of a body in order. Each statement is built under
/// the scopes that the one before it left; the first error ends the build.
pub fn build_body(body: Vec<SurfaceStmt>, context: &mut Context) -> (result: Result<
    Vec<Statement>,
    BuildError,
>)
    requires
        old(context)@.wf(),
    ensures
        match result {
            Ok(statements) => build_stmts(body@.map_values(|s: SurfaceStmt| s@), old(context)@)
                == Ok::<(Seq<StatementView>, ContextView), BuildError>(
                (statements@.map_values(|s: Statement| s@), final(context)@),
            ),
            Err(err) => build_stmts(body@.map_values(|s: SurfaceStmt| s@), old(context)@) == Err::<
                (Seq<StatementView>, ContextView),
                BuildError,
            >(err),
        },
{
    let ghost given = body@;
    let ghost stmts = body@.map_values(|s: SurfaceStmt| s@);
    let ghost entered = context@;
    let mut statements: Vec<Statement> = Vec::new();
    proof {
        assert(stmts.take(0) =~= Seq::empty());
        assert(statements@.map_values(|s: Statement| s@) =~= Seq::empty());
    }
    for stmt in it: body
        invariant
            it.seq() == given,
            stmts == given.map_values(|s: SurfaceStmt| s@),
            entered == old(context)@,
            build_stmts(stmts.take(it.index() as int), entered) == Ok::<
                (Seq<StatementView>, ContextView),
                BuildError,
            >((statements@.map_values(|s: Statement| s@), context@)),
            context@.wf(),
    {
        let ghost i = it.index() as int;
        let ghost before = statements@.map_values(|s: Statement| s@);
        proof {
            assert(stmts.take(i + 1).drop_last() =~= stmts.take(i));
            assert(stmts.take(i + 1).last() == stmt@);
        }
        match Statement::from_stmt(stmt, context) {
            Ok(statement) => {
                statements.push(statement);
                proof {
                    assert(statements@.map_values(|s: Statement| s@) =~= before.push(statement@));
                }
            },
            Err(err) => {
                proof {
                    lemma_build_stmts_error_stays(stmts, entered, i + 1);
                }
                return Err(err);
            },
        }
    }
    proof {
        assert(stmts.take(stmts.len() as int) =~= stmts);
    }
    Ok(statements)
}

/// The parameters as bindings of the root scope.
fn bind_parameters(parameters: &Vec<(String, IRType)>) -> (bindings: Vec<(String, Option<IRType>)>)
    ensures
        bindings@.map_values(|b: (String, Option<IRType>)| (b.0@, b.1)) == param_bindings(
            parameters@.map_values(|p: (String, IRType)| (p.0@, p.1)),
        ),
{
    let ghost typed = parameters@.map_values(|p: (String, IRType)| (p.0@, p.1));
    let mut bindings: Vec<(String, Option<IRType>)> = Vec::new();
    let mut i: usize = 0;
    while i < parameters.len()
        invariant
            i <= parameters.len(),
            typed == parameters@.map_values(|p: (String, IRType)| (p.0@, p.1)),
            bindings@.map_values(|b: (String, Option<IRType>)| (b.0@, b.1)) =~= param_bindings(
                typed,
            ).take(i as int),
        decreases parameters.len() - i,
    {
        let ghost before = bindings@.map_values(|b: (String, Option<IRType>)| (b.0@, b.1));
        bindings.push((parameters[i].0.clone(), Some(parameters[i].1)));
        proof {
            assert(bindings@.map_values(|b: (String, Option<IRType>)| (b.0@, b.1)) =~= before.push(
                (parameters[i as int].0@, Some(parameters[i as int].1)),
            ));
            assert(param_bindings(typed).take(i + 1) =~= param_bindings(typed).take(i as int).push(
                param_bindings(typed)[i as int],
            ));
        }
        i = i + 1;
    }
    assert(param_bindings(typed).take(i as int) =~= param_bindings(typed));
    bindings
}

/// A built kernel has one open scope, the root scope, which holds the
/// parameters and nothing else; the scope of the body is the one entry of
/// the history. It has one statement for each statement of the surface
/// body, each of them well shaped.
pub proof fn lemma_built_kernel(kernel: SurfaceKernelView)
    ensures
        build_kernel(kernel) matches Ok(built) ==> {
            &&& built.name == kernel.name
            &&& built.context.scopes == seq![param_bindings(built.parameters)]
            &&& built.context.history.len() == 1
            &&& built.parameters.len() == kernel.parameters.len()
            &&& built.statements.len() == kernel.body.len()
            &&& forall|i: int|
                0 <= i < built.statements.len() ==> (#[trigger] built.statements[i]).well_shaped()
        },
{
    if let Ok(parameters) = resolve_params(kernel.parameters) {
        lemma_resolve_params_names(kernel.parameters);
        let root = ContextView::initial().extend(param_bindings(parameters));
        let entered = root.push_scope();
        assert(root.scopes =~= seq![param_bindings(parameters)]) by {
            assert(Seq::<Binding>::empty() + param_bindings(parameters) =~= param_bindings(
                parameters,
            ));
        }
        lemma_build_stmts_well_shaped(kernel.body, entered);
        lemma_build_stmts_scopes(kernel.body, entered);
        if let Ok((statements, left)) = build_stmts(kernel.body, entered) {
            assert(left.scopes.drop_last() =~= entered.scopes.drop_last());
            assert(entered.scopes.drop_last() =~= root.scopes);
        }
    }
}

/// The resolved parameters are the written ones, name for name.
pub proof fn lemma_resolve_params_names(params: Seq<SurfaceParamView>)
    ensures
        resolve_params(params) matches Ok(resolved) ==> {
            &&& resolved.len() == params.len()
            &&& forall|i: int|
                0 <= i < params.len() ==> (#[trigger] resolved[i]).0 == params[i].name
                    && type_of_name(params[i].ty) == Some(resolved[i].1)
        },
    decreases params.len(),
{
    if params.len() > 0 {
        lemma_resolve_params_names(params.drop_last());
    }
}

/// Building statements touches the innermost scope only.
pub proof fn lemma_build_stmts_scopes(stmts: Seq<SurfaceStmtView>, ctx: ContextView)
    requires
        ctx.wf(),
    ensures
        build_stmts(stmts, ctx) matches Ok((built, left)) ==> left.scopes.drop_last()
            == ctx.scopes.drop_last(),
    decreases stmts.len(),
{
    if stmts.len() > 0 {
        lemma_build_stmts_scopes(stmts.drop_last(), ctx);
        lemma_build_stmts_well_shaped(stmts.drop_last(), ctx);
        if let Ok((built, reached)) = build_stmts(stmts.drop_last(), ctx) {
            if let Ok((statement, left)) = build_stmt(stmts.last(), reached) {
                assert(left.scopes.drop_last() =~= reached.scopes.drop_last());
            }
        }
    }
}

impl Kernel {
    /// The variable nodes of the innermost open scope. For a kernel that was
    /// built these are the parameters, which a preamble has to declare.
    pub fn global_vars(&self) -> (variables: Vec<Expression>)
        requires
            self@.context.wf(),
        ensures
            variables@.map_values(|e: Expression| e@) == self@.context.scopes.last().map_values(
                |b: Binding| ExpressionView::Variable { name: b.0, ty: b.1 },
            ),
    {
        self.context.current_scope().generate_vars()
    }

    /// Builds a kernel. The parameters are registered in the root scope, the
    /// body is built in a scope of its own, which is left at the end and
    /// stays in the history of the scopes.
    pub fn parse(kernel: SurfaceKernel) -> (result: Result<Kernel, BuildError>)
        ensures
            match result {
                Ok(built) => build_kernel(kernel@) == Ok::<KernelView, BuildError>(built@)
                    && built@.context.wf(),
                Err(err) => build_kernel(kernel@) == Err::<KernelView, BuildError>(err),
            },
    {
        proof {
            lemma_built_kernel(kernel@);
        }
        let parameters = resolve_parameters(kernel.parameters)?;
        let mut context = Context::default();
        context.extend(bind_parameters(&parameters));
        context.push_scope();
        let statements = build_body(kernel.body, &mut context)?;
        proof {
            lemma_build_stmts_well_shaped(
                kernel@.body,
                ContextView::initial().extend(
                    param_bindings(parameters@.map_values(|p: (String, IRType)| (p.0@, p.1))),
                ).push_scope(),
            );
        }
        context.pop_scope();
        Ok(Kernel { name: kernel.name, parameters, statements, context })
    }
}

} // verus!
