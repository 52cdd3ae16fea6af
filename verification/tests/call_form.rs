use squarecl::codegen::WgpuKernel;
use squarecl::error::RenderError;
use squarecl::expression::Expression;
use squarecl::flat::{flatten_expression, flatten_statement, flatten_statements, new_local_var, Flat};
use squarecl::operator::Operator;
use squarecl::statement::Statement;
use squarecl::types::IRType;

fn variable(name: &str) -> Expression {
    Expression::Variable { name: name.to_string(), ty: None }
}

fn literal(value: &str, ty: IRType) -> Expression {
    Expression::Literal { value: value.to_string(), ty }
}

fn binary(left: Expression, operator: Operator, right: Expression) -> Expression {
    Expression::Binary { left: Box::new(left), operator, right: Box::new(right), ty: None }
}

fn unary(operator: Operator, input: Expression) -> Expression {
    Expression::Unary { input: Box::new(input), operator, ty: None }
}

fn assignment(left: Expression, right: Expression) -> Expression {
    Expression::Assignment { left: Box::new(left), right: Box::new(right), ty: None }
}

fn init(left: Expression, right: Expression) -> Expression {
    Expression::Init { left: Box::new(left), right: Box::new(right), ty: None }
}

fn typed_variable(name: &str, ty: IRType) -> Expression {
    Expression::Variable { name: name.to_string(), ty: Some(ty) }
}

fn flat(lines: &str, value: &str, counter: u32) -> Flat {
    Flat { lines: lines.to_string(), value: value.to_string(), counter }
}

#[test]
fn names_of_temporaries_count_up() {
    let mut counter = 0u32;
    assert_eq!(new_local_var(&mut counter), "local_0");
    assert_eq!(counter, 1);
    assert_eq!(new_local_var(&mut counter), "local_1");
    assert_eq!(new_local_var(&mut counter), "local_2");
    assert_eq!(counter, 3);
    let mut counter = 41u32;
    assert_eq!(new_local_var(&mut counter), "local_41");
    assert_eq!(counter, 42);
}

#[test]
fn the_counter_starts_over_after_the_largest_number() {
    let mut counter = u32::MAX;
    assert_eq!(new_local_var(&mut counter), "local_4294967295");
    assert_eq!(counter, 0);
    assert_eq!(new_local_var(&mut counter), "local_0");
}

#[test]
fn leaves_have_no_lines() {
    assert_eq!(flatten_expression(&variable("a"), 5), Ok(flat("", "a", 5)));
    assert_eq!(flatten_expression(&literal("3", IRType::UInt(32)), 5), Ok(flat("", "3u", 5)));
    assert_eq!(
        flatten_expression(&Expression::Verbatim { tokens: "ALPHA".to_string() }, 5),
        Ok(flat("", "ALPHA", 5))
    );
}

#[test]
fn an_operation_is_stored_in_a_temporary() {
    assert_eq!(
        flatten_expression(&binary(variable("a"), Operator::Add, variable("b")), 0),
        Ok(flat("local_0 = add(a, b);\n", "local_0", 1))
    );
    assert_eq!(
        flatten_expression(&binary(variable("a"), Operator::Sub, variable("b")), 3),
        Ok(flat("local_3 = sub(a, b);\n", "local_3", 4))
    );
    assert_eq!(
        flatten_expression(&binary(variable("a"), Operator::Mul, variable("b")), 0),
        Ok(flat("local_0 = mul(a, b);\n", "local_0", 1))
    );
    assert_eq!(
        flatten_expression(&binary(variable("a"), Operator::Div, variable("b")), 0),
        Ok(flat("local_0 = div(a, b);\n", "local_0", 1))
    );
    assert_eq!(
        flatten_expression(&unary(Operator::Neg, variable("a")), 9),
        Ok(flat("local_9 = neg(a);\n", "local_9", 10))
    );
    assert_eq!(
        flatten_expression(&unary(Operator::Not, variable("a")), 0),
        Ok(flat("local_0 = not(a);\n", "local_0", 1))
    );
    assert_eq!(
        flatten_expression(&unary(Operator::Deref, variable("a")), 0),
        Ok(flat("local_0 = deref(a);\n", "local_0", 1))
    );
}

#[test]
fn operands_are_written_before_the_operation_that_uses_them() {
    let tree = binary(
        binary(variable("a"), Operator::Div, variable("c")),
        Operator::Add,
        literal("2", IRType::UInt(32)),
    );
    assert_eq!(
        flatten_expression(&tree, 0),
        Ok(flat("local_1 = div(a, c);\nlocal_0 = add(local_1, 2u);\n", "local_0", 2))
    );
    let tree = binary(
        unary(Operator::Neg, variable("a")),
        Operator::Mul,
        binary(variable("b"), Operator::Sub, variable("c")),
    );
    assert_eq!(
        flatten_expression(&tree, 10),
        Ok(flat(
            "local_11 = neg(a);\nlocal_12 = sub(b, c);\nlocal_10 = mul(local_11, local_12);\n",
            "local_10",
            13
        ))
    );
}

#[test]
fn an_assignment_keeps_its_form_around_the_values() {
    let tree = assignment(variable("d"), binary(variable("a"), Operator::Add, variable("b")));
    assert_eq!(
        flatten_expression(&tree, 0),
        Ok(flat("local_0 = add(a, b);\n", "d = local_0", 1))
    );
    assert_eq!(
        flatten_expression(&assignment(variable("d"), variable("a")), 7),
        Ok(flat("", "d = a", 7))
    );
}

#[test]
fn the_call_form_refuses_what_the_infix_form_refuses() {
    assert_eq!(
        flatten_expression(&literal("1", IRType::Float(64)), 0),
        Err(RenderError::UnsupportedType(IRType::Float(64)))
    );
    assert_eq!(
        flatten_expression(&init(variable("x"), variable("y")), 0),
        Err(RenderError::StrayInitializer)
    );
    let tree = binary(
        literal("1", IRType::Int(16)),
        Operator::Add,
        init(variable("x"), variable("y")),
    );
    assert_eq!(flatten_expression(&tree, 0), Err(RenderError::UnsupportedType(IRType::Int(16))));
    let bare = Statement::Local { variable: Box::new(variable("x")), mutable: true, ty: None };
    assert_eq!(flatten_statement(&bare, 0), Err(RenderError::MissingType));
    let odd = Statement::Local {
        variable: Box::new(literal("1", IRType::Int(32))),
        mutable: true,
        ty: None,
    };
    assert_eq!(flatten_statement(&odd, 0), Err(RenderError::MalformedLocal));
    let odd_left = Statement::Local {
        variable: Box::new(init(literal("1", IRType::Int(32)), variable("y"))),
        mutable: true,
        ty: Some(IRType::Int(32)),
    };
    assert_eq!(flatten_statement(&odd_left, 0), Err(RenderError::MalformedLocal));
}

#[test]
fn a_bare_declaration_draws_no_name() {
    let bare = Statement::Local {
        variable: Box::new(typed_variable("x", IRType::Int(32))),
        mutable: false,
        ty: None,
    };
    assert_eq!(flatten_statement(&bare, 4), Ok(("let x: i32;\n".to_string(), 4)));
}

#[test]
fn the_lines_of_a_value_come_before_its_declaration() {
    let written = Statement::Local {
        variable: Box::new(init(
            typed_variable("d", IRType::UInt(32)),
            binary(variable("a"), Operator::Mul, variable("b")),
        )),
        mutable: true,
        ty: Some(IRType::UInt(32)),
    };
    assert_eq!(
        flatten_statement(&written, 0),
        Ok(("local_0 = mul(a, b);\nvar d: u32 = local_0;\n".to_string(), 1))
    );
    let inferred = Statement::Local {
        variable: Box::new(init(
            typed_variable("d", IRType::UInt(32)),
            binary(variable("a"), Operator::Mul, variable("b")),
        )),
        mutable: false,
        ty: None,
    };
    assert_eq!(
        flatten_statement(&inferred, 2),
        Ok(("local_2 = mul(a, b);\nvar d: u32;\nd = local_2;\n".to_string(), 3))
    );
}

#[test]
fn expression_statements_and_returns_use_the_value() {
    let dropped = Statement::Expression {
        expression: Box::new(assignment(
            variable("d"),
            binary(variable("a"), Operator::Add, variable("b")),
        )),
    };
    assert_eq!(
        flatten_statement(&dropped, 0),
        Ok(("local_0 = add(a, b);\nd = local_0;\n".to_string(), 1))
    );
    let returned = Statement::ImplicitReturn {
        expression: Box::new(unary(Operator::Neg, variable("a"))),
    };
    assert_eq!(
        flatten_statement(&returned, 0),
        Ok(("local_0 = neg(a);\nreturn local_0;\n".to_string(), 1))
    );
    let plain = Statement::ImplicitReturn { expression: Box::new(variable("a")) };
    assert_eq!(flatten_statement(&plain, 6), Ok(("return a;\n".to_string(), 6)));
}

#[test]
fn statements_share_one_counter() {
    let statements = vec![
        Statement::Expression {
            expression: Box::new(binary(variable("a"), Operator::Add, variable("b"))),
        },
        Statement::ImplicitReturn {
            expression: Box::new(binary(variable("a"), Operator::Sub, variable("b"))),
        },
    ];
    assert_eq!(
        flatten_statements(&statements, 0),
        Ok((
            "local_0 = add(a, b);\nlocal_0;\nlocal_1 = sub(a, b);\nreturn local_1;\n".to_string(),
            2
        ))
    );
    assert_eq!(flatten_statements(&Vec::new(), 8), Ok((String::new(), 8)));
}

#[test]
fn a_kernel_in_call_form_advances_the_counter() {
    let kernel = WgpuKernel {
        parameters: vec![("a".to_string(), IRType::UInt(32))],
        statements: vec![Statement::ImplicitReturn {
            expression: Box::new(binary(variable("a"), Operator::Mul, variable("a"))),
        }],
    };
    let mut counter = 0u32;
    assert_eq!(
        kernel.render_flat(&mut counter),
        Ok("fn main(a: u32) {\nlocal_0 = mul(a, a);\nreturn local_0;\n}\n".to_string())
    );
    assert_eq!(counter, 1);
    assert_eq!(
        kernel.render_flat(&mut counter),
        Ok("fn main(a: u32) {\nlocal_1 = mul(a, a);\nreturn local_1;\n}\n".to_string())
    );
    assert_eq!(counter, 2);
}

#[test]
fn a_kernel_that_fails_in_call_form_leaves_the_counter() {
    let kernel = WgpuKernel {
        parameters: Vec::new(),
        statements: vec![
            Statement::Expression {
                expression: Box::new(binary(variable("a"), Operator::Mul, variable("a"))),
            },
            Statement::Expression { expression: Box::new(literal("1", IRType::Unit)) },
        ],
    };
    let mut counter = 5u32;
    assert_eq!(kernel.render_flat(&mut counter), Err(RenderError::UnsupportedType(IRType::Unit)));
    assert_eq!(counter, 5);
}

#[test]
fn a_fresh_counter_gives_the_same_text_again() {
    let kernel = WgpuKernel {
        parameters: vec![("a".to_string(), IRType::UInt(32))],
        statements: vec![Statement::ImplicitReturn {
            expression: Box::new(binary(
                binary(variable("a"), Operator::Mul, variable("a")),
                Operator::Add,
                variable("a"),
            )),
        }],
    };
    let mut first = 0u32;
    let mut second = 0u32;
    assert_eq!(kernel.render_flat(&mut first), kernel.render_flat(&mut second));
    assert_eq!(first, 2);
    assert_eq!(second, 2);
}
