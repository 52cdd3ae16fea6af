use squarecl::error::{BuildError, BuildErrorKind, Position};
use squarecl::expression::Expression;
use squarecl::kernel::{build_body, resolve_parameters, Kernel};
use squarecl::operator::Operator;
use squarecl::scope::Context;
use squarecl::statement::{local_pat, Declared, Statement};
use squarecl::surface::{
    LitKind, SurfaceExpr, SurfaceKernel, SurfaceLit, SurfaceParam, SurfacePat, SurfaceStmt,
};
use squarecl::types::IRType;

fn at(line: usize, column: usize) -> Position {
    Position { line, column }
}

fn ident(name: &str) -> SurfaceExpr {
    SurfaceExpr::Ident { name: name.to_string(), pos: at(1, 1) }
}

fn number(value: &str, suffix: Option<&str>) -> SurfaceExpr {
    SurfaceExpr::Lit {
        lit: SurfaceLit {
            kind: LitKind::Int,
            value: value.to_string(),
            suffix: suffix.map(|s| s.to_string()),
        },
        pos: at(1, 1),
    }
}

fn plus(left: SurfaceExpr, right: SurfaceExpr) -> SurfaceExpr {
    SurfaceExpr::Binary {
        left: Box::new(left),
        op: "+".to_string(),
        right: Box::new(right),
        pos: at(1, 1),
    }
}

fn name_pat(name: &str, mutable: bool) -> SurfacePat {
    SurfacePat::Ident { name: name.to_string(), mutable, pos: at(1, 4) }
}

fn typed_pat(pat: SurfacePat, ty: &str, pos: Position) -> SurfacePat {
    SurfacePat::Typed { pat: Box::new(pat), ty: ty.to_string(), pos }
}

fn local(pat: SurfacePat, init: Option<SurfaceExpr>) -> SurfaceStmt {
    SurfaceStmt::Local { pat, init, pos: at(1, 0) }
}

fn variable(name: &str, ty: Option<IRType>) -> Expression {
    Expression::Variable { name: name.to_string(), ty }
}

fn literal(value: &str, ty: IRType) -> Expression {
    Expression::Literal { value: value.to_string(), ty }
}

fn refused(kind: BuildErrorKind, position: Position) -> BuildError {
    BuildError { kind, position }
}

#[test]
fn a_plain_pattern_declares_a_name() {
    assert_eq!(
        local_pat(name_pat("x", false)),
        Ok(Declared { name: "x".to_string(), ty: None, mutable: false })
    );
    assert_eq!(
        local_pat(name_pat("y", true)),
        Ok(Declared { name: "y".to_string(), ty: None, mutable: true })
    );
}

#[test]
fn a_typed_pattern_declares_a_name_with_its_type() {
    assert_eq!(
        local_pat(typed_pat(name_pat("x", true), "u32", at(1, 4))),
        Ok(Declared { name: "x".to_string(), ty: Some(IRType::UInt(32)), mutable: true })
    );
    assert_eq!(
        local_pat(typed_pat(name_pat("x", false), "f64", at(1, 4))),
        Ok(Declared { name: "x".to_string(), ty: Some(IRType::Float(64)), mutable: false })
    );
}

#[test]
fn the_outermost_annotation_of_a_pattern_wins() {
    let nested = typed_pat(typed_pat(name_pat("x", false), "u32", at(1, 4)), "i64", at(1, 3));
    assert_eq!(
        local_pat(nested),
        Ok(Declared { name: "x".to_string(), ty: Some(IRType::Int(64)), mutable: false })
    );
}

#[test]
fn a_malformed_pattern_is_refused() {
    assert_eq!(
        local_pat(SurfacePat::Unsupported { pos: at(6, 6) }),
        Err(refused(BuildErrorKind::UnsupportedPattern, at(6, 6)))
    );
    assert_eq!(
        local_pat(typed_pat(SurfacePat::Unsupported { pos: at(6, 7) }, "u32", at(6, 6))),
        Err(refused(BuildErrorKind::UnsupportedPattern, at(6, 7)))
    );
    assert_eq!(
        local_pat(typed_pat(SurfacePat::Unsupported { pos: at(6, 7) }, "nothing", at(6, 6))),
        Err(refused(BuildErrorKind::UnsupportedPattern, at(6, 7)))
    );
}

#[test]
fn an_annotation_outside_the_catalog_is_refused() {
    assert_eq!(
        local_pat(typed_pat(name_pat("x", false), "usize", at(8, 1))),
        Err(refused(BuildErrorKind::UnsupportedType, at(8, 1)))
    );
    assert_eq!(
        local_pat(typed_pat(typed_pat(name_pat("x", false), "bool", at(8, 2)), "u32", at(8, 1))),
        Err(refused(BuildErrorKind::UnsupportedType, at(8, 2)))
    );
}

#[test]
fn a_local_without_initializer_is_a_bare_declaration() {
    let mut context = Context::default();
    let built =
        Statement::from_stmt(local(typed_pat(name_pat("x", true), "i32", at(1, 4)), None), &mut context);
    assert_eq!(
        built,
        Ok(Statement::Local {
            variable: Box::new(variable("x", Some(IRType::Int(32)))),
            mutable: true,
            ty: Some(IRType::Int(32)),
        })
    );
    assert_eq!(context.variable_type("x"), Some(Some(IRType::Int(32))));
}

#[test]
fn a_local_without_initializer_and_type_is_registered_untyped() {
    let mut context = Context::default();
    let built = Statement::from_stmt(local(name_pat("x", false), None), &mut context);
    assert_eq!(
        built,
        Ok(Statement::Local { variable: Box::new(variable("x", None)), mutable: false, ty: None })
    );
    assert_eq!(context.variable_type("x"), Some(None));
}

#[test]
fn a_local_with_initializer_carries_an_initializer_expression() {
    let mut context = Context::default();
    let built = Statement::from_stmt(
        local(typed_pat(name_pat("d", true), "u32", at(1, 4)), Some(number("0", None))),
        &mut context,
    );
    assert_eq!(
        built,
        Ok(Statement::Local {
            variable: Box::new(Expression::Init {
                left: Box::new(variable("d", Some(IRType::UInt(32)))),
                right: Box::new(literal("0", IRType::Int(32))),
                ty: Some(IRType::Int(32)),
            }),
            mutable: true,
            ty: Some(IRType::UInt(32)),
        })
    );
    assert_eq!(context.variable_type("d"), Some(Some(IRType::UInt(32))));
}

#[test]
fn a_local_without_written_type_takes_the_type_of_its_initializer() {
    let mut context = Context::default();
    let built =
        Statement::from_stmt(local(name_pat("x", false), Some(number("7", Some("u16")))), &mut context);
    assert_eq!(
        built,
        Ok(Statement::Local {
            variable: Box::new(Expression::Init {
                left: Box::new(variable("x", Some(IRType::UInt(16)))),
                right: Box::new(literal("7", IRType::UInt(16))),
                ty: Some(IRType::UInt(16)),
            }),
            mutable: false,
            ty: None,
        })
    );
    assert_eq!(context.variable_type("x"), Some(Some(IRType::UInt(16))));
}

#[test]
fn a_local_with_untyped_initializer_stays_untyped() {
    let mut context = Context::default();
    let built = Statement::from_stmt(local(name_pat("x", false), Some(ident("ALPHA"))), &mut context);
    assert_eq!(
        built,
        Ok(Statement::Local {
            variable: Box::new(Expression::Init {
                left: Box::new(variable("x", None)),
                right: Box::new(Expression::Verbatim { tokens: "ALPHA".to_string() }),
                ty: None,
            }),
            mutable: false,
            ty: None,
        })
    );
    assert_eq!(context.variable_type("x"), Some(None));
}

#[test]
fn a_shadowing_initializer_refers_to_the_first_binding() {
    let mut context = Context::default();
    let first =
        Statement::from_stmt(local(name_pat("x", false), Some(number("1", None))), &mut context);
    assert!(first.is_ok());
    let second = Statement::from_stmt(
        local(name_pat("x", false), Some(plus(ident("x"), number("1", None)))),
        &mut context,
    );
    assert_eq!(
        second,
        Ok(Statement::Local {
            variable: Box::new(Expression::Init {
                left: Box::new(variable("x", Some(IRType::Int(32)))),
                right: Box::new(Expression::Binary {
                    left: Box::new(variable("x", Some(IRType::Int(32)))),
                    operator: Operator::Add,
                    right: Box::new(literal("1", IRType::Int(32))),
                    ty: Some(IRType::Int(32)),
                }),
                ty: Some(IRType::Int(32)),
            }),
            mutable: false,
            ty: None,
        })
    );
    assert_eq!(context.current_scope().len(), 2);
}

#[test]
fn a_shadowing_initializer_sees_the_type_of_the_binding_before() {
    let mut context = Context::default();
    context.push_variable("x".to_string(), Some(IRType::UInt(64)));
    let built = Statement::from_stmt(
        local(typed_pat(name_pat("x", false), "i16", at(1, 4)), Some(ident("x"))),
        &mut context,
    )
    .unwrap();
    match built {
        Statement::Local { variable, ty, .. } => {
            assert_eq!(ty, Some(IRType::Int(16)));
            match *variable {
                Expression::Init { left, right, ty } => {
                    assert_eq!(*left, variable_of("x", Some(IRType::Int(16))));
                    assert_eq!(*right, variable_of("x", Some(IRType::UInt(64))));
                    assert_eq!(ty, Some(IRType::UInt(64)));
                }
                _ => panic!("an initializer was built"),
            }
        }
        _ => panic!("a local declaration was built"),
    }
    assert_eq!(context.variable_type("x"), Some(Some(IRType::Int(16))));
}

fn variable_of(name: &str, ty: Option<IRType>) -> Expression {
    variable(name, ty)
}

#[test]
fn a_name_declared_in_its_own_initializer_is_unbound_there() {
    let mut context = Context::default();
    let built =
        Statement::from_stmt(local(name_pat("fresh", false), Some(ident("fresh"))), &mut context)
            .unwrap();
    match built {
        Statement::Local { variable, .. } => match *variable {
            Expression::Init { right, .. } => {
                assert_eq!(*right, Expression::Verbatim { tokens: "fresh".to_string() });
            }
            _ => panic!("an initializer was built"),
        },
        _ => panic!("a local declaration was built"),
    }
    assert_eq!(context.variable_type("fresh"), Some(None));
}

#[test]
fn a_terminated_expression_is_dropped_and_an_open_one_returned() {
    let mut context = Context::default();
    context.push_variable("a".to_string(), Some(IRType::UInt(32)));
    let dropped = Statement::from_stmt(
        SurfaceStmt::Expr { expr: ident("a"), terminated: true, pos: at(1, 0) },
        &mut context,
    );
    assert_eq!(
        dropped,
        Ok(Statement::Expression { expression: Box::new(variable("a", Some(IRType::UInt(32)))) })
    );
    let returned = Statement::from_stmt(
        SurfaceStmt::Expr { expr: ident("a"), terminated: false, pos: at(1, 0) },
        &mut context,
    );
    assert_eq!(
        returned,
        Ok(Statement::ImplicitReturn {
            expression: Box::new(variable("a", Some(IRType::UInt(32)))),
        })
    );
    assert_eq!(context.current_scope().len(), 1);
}

#[test]
fn an_unsupported_statement_is_refused_where_it_stands() {
    let mut context = Context::default();
    assert_eq!(
        Statement::from_stmt(SurfaceStmt::Unsupported { pos: at(3, 3) }, &mut context),
        Err(refused(BuildErrorKind::UnsupportedStatement, at(3, 3)))
    );
}

#[test]
fn a_refused_statement_registers_nothing() {
    let mut context = Context::default();
    let bad_init = Statement::from_stmt(
        local(name_pat("x", false), Some(SurfaceExpr::Unsupported { pos: at(2, 2) })),
        &mut context,
    );
    assert_eq!(bad_init, Err(refused(BuildErrorKind::UnsupportedExpression, at(2, 2))));
    let bad_pat = Statement::from_stmt(
        local(SurfacePat::Unsupported { pos: at(2, 3) }, Some(number("1", None))),
        &mut context,
    );
    assert_eq!(bad_pat, Err(refused(BuildErrorKind::UnsupportedPattern, at(2, 3))));
    let bad_type = Statement::from_stmt(
        local(typed_pat(name_pat("x", false), "nothing", at(2, 4)), None),
        &mut context,
    );
    assert_eq!(bad_type, Err(refused(BuildErrorKind::UnsupportedType, at(2, 4))));
    assert_eq!(context.current_scope().len(), 0);
    assert_eq!(context.variable_type("x"), None);
}

#[test]
fn the_pattern_fails_before_the_initializer() {
    let mut context = Context::default();
    let built = Statement::from_stmt(
        local(
            SurfacePat::Unsupported { pos: at(1, 1) },
            Some(SurfaceExpr::Unsupported { pos: at(2, 2) }),
        ),
        &mut context,
    );
    assert_eq!(built, Err(refused(BuildErrorKind::UnsupportedPattern, at(1, 1))));
}

#[test]
fn parameters_are_resolved_in_order() {
    let resolved = resolve_parameters(vec![
        SurfaceParam { name: "a".to_string(), ty: "u32".to_string(), pos: at(1, 1) },
        SurfaceParam { name: "b".to_string(), ty: "f64".to_string(), pos: at(1, 2) },
    ]);
    assert_eq!(
        resolved,
        Ok(vec![("a".to_string(), IRType::UInt(32)), ("b".to_string(), IRType::Float(64))])
    );
    assert_eq!(resolve_parameters(Vec::new()), Ok(Vec::new()));
}

#[test]
fn the_first_parameter_with_an_unknown_type_is_refused() {
    let resolved = resolve_parameters(vec![
        SurfaceParam { name: "a".to_string(), ty: "u32".to_string(), pos: at(1, 1) },
        SurfaceParam { name: "b".to_string(), ty: "char".to_string(), pos: at(1, 2) },
        SurfaceParam { name: "c".to_string(), ty: "str".to_string(), pos: at(1, 3) },
    ]);
    assert_eq!(resolved, Err(refused(BuildErrorKind::UnsupportedType, at(1, 2))));
}

#[test]
fn a_body_is_built_statement_by_statement() {
    let mut context = Context::default();
    let built = build_body(
        vec![
            local(name_pat("x", false), Some(number("1", Some("u64")))),
            local(name_pat("y", false), Some(ident("x"))),
            SurfaceStmt::Expr { expr: ident("y"), terminated: false, pos: at(3, 0) },
        ],
        &mut context,
    )
    .unwrap();
    assert_eq!(built.len(), 3);
    assert_eq!(
        built[2],
        Statement::ImplicitReturn { expression: Box::new(variable("y", Some(IRType::UInt(64)))) }
    );
    assert_eq!(context.variable_type("y"), Some(Some(IRType::UInt(64))));
    assert_eq!(build_body(Vec::new(), &mut context), Ok(Vec::new()));
}

#[test]
fn the_first_refused_statement_ends_the_build() {
    let mut context = Context::default();
    let built = build_body(
        vec![
            local(name_pat("x", false), None),
            SurfaceStmt::Unsupported { pos: at(2, 0) },
            SurfaceStmt::Unsupported { pos: at(3, 0) },
        ],
        &mut context,
    );
    assert_eq!(built, Err(refused(BuildErrorKind::UnsupportedStatement, at(2, 0))));
}

#[test]
fn a_kernel_keeps_parameters_in_the_root_scope_and_locals_in_the_history() {
    let mut kernel = Kernel::parse(SurfaceKernel {
        name: "k".to_string(),
        parameters: vec![
            SurfaceParam { name: "a".to_string(), ty: "u32".to_string(), pos: at(1, 1) },
            SurfaceParam { name: "b".to_string(), ty: "i32".to_string(), pos: at(1, 2) },
        ],
        body: vec![local(name_pat("c", false), Some(ident("a")))],
    })
    .unwrap();
    assert_eq!(kernel.name, "k");
    assert_eq!(
        kernel.parameters,
        vec![("a".to_string(), IRType::UInt(32)), ("b".to_string(), IRType::Int(32))]
    );
    assert_eq!(kernel.statements.len(), 1);
    assert_eq!(kernel.context.depth(), 1);
    assert_eq!(kernel.context.variable_type("a"), Some(Some(IRType::UInt(32))));
    assert_eq!(kernel.context.variable_type("c"), None);
    assert_eq!(
        kernel.global_vars(),
        vec![variable("a", Some(IRType::UInt(32))), variable("b", Some(IRType::Int(32)))]
    );
    kernel.context.restore_scope();
    assert_eq!(kernel.context.depth(), 2);
    assert_eq!(kernel.context.variable_type("c"), Some(Some(IRType::UInt(32))));
    assert_eq!(kernel.global_vars(), vec![variable("c", Some(IRType::UInt(32)))]);
}

#[test]
fn a_local_may_shadow_a_parameter() {
    let kernel = Kernel::parse(SurfaceKernel {
        name: "k".to_string(),
        parameters: vec![SurfaceParam {
            name: "a".to_string(),
            ty: "u32".to_string(),
            pos: at(1, 1),
        }],
        body: vec![
            local(typed_pat(name_pat("a", false), "i64", at(2, 4)), Some(ident("a"))),
            SurfaceStmt::Expr { expr: ident("a"), terminated: false, pos: at(3, 0) },
        ],
    })
    .unwrap();
    assert_eq!(
        kernel.statements[1],
        Statement::ImplicitReturn { expression: Box::new(variable("a", Some(IRType::Int(64)))) }
    );
    assert_eq!(kernel.context.variable_type("a"), Some(Some(IRType::UInt(32))));
}

#[test]
fn a_kernel_with_a_bad_parameter_is_refused_before_its_body() {
    let built = Kernel::parse(SurfaceKernel {
        name: "k".to_string(),
        parameters: vec![SurfaceParam {
            name: "a".to_string(),
            ty: "usize".to_string(),
            pos: at(1, 9),
        }],
        body: vec![SurfaceStmt::Unsupported { pos: at(2, 0) }],
    });
    assert_eq!(built.unwrap_err(), refused(BuildErrorKind::UnsupportedType, at(1, 9)));
}
