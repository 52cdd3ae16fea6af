use squarecl::codegen::WgpuKernel;
use squarecl::error::Position;
use squarecl::kernel::Kernel;
use squarecl::sample::test_kernel;
use squarecl::surface::{
    LitKind, SurfaceExpr, SurfaceKernel, SurfaceLit, SurfaceParam, SurfacePat, SurfaceStmt,
};

fn at(line: usize, column: usize) -> Position {
    Position { line, column }
}

fn ident(name: &str) -> SurfaceExpr {
    SurfaceExpr::Ident { name: name.to_string(), pos: at(1, 0) }
}

fn int_lit(value: &str, suffix: Option<&str>) -> SurfaceExpr {
    SurfaceExpr::Lit {
        lit: SurfaceLit {
            kind: LitKind::Int,
            value: value.to_string(),
            suffix: suffix.map(|s| s.to_string()),
        },
        pos: at(1, 0),
    }
}

fn binary(left: SurfaceExpr, op: &str, right: SurfaceExpr) -> SurfaceExpr {
    SurfaceExpr::Binary {
        left: Box::new(left),
        op: op.to_string(),
        right: Box::new(right),
        pos: at(1, 0),
    }
}

fn assign(left: SurfaceExpr, right: SurfaceExpr) -> SurfaceExpr {
    SurfaceExpr::Assign { left: Box::new(left), right: Box::new(right), pos: at(1, 0) }
}

fn name_pat(name: &str, mutable: bool) -> SurfacePat {
    SurfacePat::Ident { name: name.to_string(), mutable, pos: at(1, 0) }
}

fn typed_pat(name: &str, mutable: bool, ty: &str) -> SurfacePat {
    SurfacePat::Typed { pat: Box::new(name_pat(name, mutable)), ty: ty.to_string(), pos: at(1, 0) }
}

fn local(pat: SurfacePat, init: Option<SurfaceExpr>) -> SurfaceStmt {
    SurfaceStmt::Local { pat, init, pos: at(1, 0) }
}

fn param(name: &str, ty: &str) -> SurfaceParam {
    SurfaceParam { name: name.to_string(), ty: ty.to_string(), pos: at(1, 0) }
}

fn sample_body(zero: SurfaceExpr, ten: SurfaceExpr, two: SurfaceExpr) -> Vec<SurfaceStmt> {
    vec![
        local(typed_pat("d", true, "u32"), Some(zero)),
        local(name_pat("a", false), Some(binary(ident("a"), "*", ident("b")))),
        local(name_pat("c", false), Some(binary(binary(ident("a"), "+", ident("b")), "+", ten))),
        SurfaceStmt::Expr {
            expr: assign(ident("d"), binary(binary(ident("a"), "/", ident("c")), "+", two)),
            terminated: true,
            pos: at(1, 0),
        },
    ]
}

fn compile(params: Vec<SurfaceParam>, body: Vec<SurfaceStmt>) -> String {
    let surface = SurfaceKernel { name: "main".to_string(), parameters: params, body };
    let kernel = Kernel::parse(surface).unwrap();
    let wgpu = WgpuKernel { parameters: kernel.parameters, statements: kernel.statements };
    wgpu.render().unwrap()
}

#[test]
fn end_to_end_kernel_with_unsuffixed_literals() {
    let text = compile(
        vec![param("a", "u32"), param("b", "u32")],
        sample_body(int_lit("0", None), int_lit("10", None), int_lit("2", None)),
    );
    assert_eq!(
        text,
        "fn main(a: u32, b: u32) {\n\
         var d: u32 = 0i;\n\
         var a: u32;\n\
         a = a * b;\n\
         var c: u32;\n\
         c = a + b + 10i;\n\
         d = a / c + 2i;\n\
         }\n"
    );
}

#[test]
fn end_to_end_kernel_with_unsigned_literals() {
    let text = compile(
        vec![param("a", "u32"), param("b", "u32")],
        sample_body(
            int_lit("0", Some("u32")),
            int_lit("10", Some("u32")),
            int_lit("2", Some("u32")),
        ),
    );
    assert_eq!(
        text,
        "fn main(a: u32, b: u32) {\n\
         var d: u32 = 0u;\n\
         var a: u32;\n\
         a = a * b;\n\
         var c: u32;\n\
         c = a + b + 10u;\n\
         d = a / c + 2u;\n\
         }\n"
    );
}

#[test]
fn sample_kernel_renders_like_the_same_tree_written_by_hand() {
    let kernel = Kernel::parse(test_kernel()).unwrap();
    assert_eq!(kernel.name, "test_kernel");
    let wgpu = WgpuKernel { parameters: kernel.parameters, statements: kernel.statements };
    let by_hand = compile(
        vec![param("a", "u32"), param("b", "u32")],
        sample_body(int_lit("0", None), int_lit("10", None), int_lit("2", None)),
    );
    assert_eq!(wgpu.render().unwrap(), by_hand);
}

#[test]
fn compiling_twice_gives_the_same_text() {
    let first = squarecl::compile::compile(test_kernel());
    let second = squarecl::compile::compile(test_kernel());
    assert!(first.is_ok());
    assert_eq!(first, second);
    let by_hand = squarecl::compile::compile(SurfaceKernel {
        name: "test_kernel".to_string(),
        parameters: vec![param("a", "u32"), param("b", "u32")],
        body: sample_body(int_lit("0", None), int_lit("10", None), int_lit("2", None)),
    });
    assert_eq!(first, by_hand);
}

#[test]
fn compiling_twice_in_call_form_with_fresh_counters_gives_the_same_text() {
    let mut first_counter = 0u32;
    let mut second_counter = 0u32;
    let first = squarecl::compile::compile_flat(test_kernel(), &mut first_counter);
    let second = squarecl::compile::compile_flat(test_kernel(), &mut second_counter);
    assert_eq!(first, second);
    assert_eq!(first_counter, second_counter);
    assert_eq!(
        first.unwrap(),
        "fn main(a: u32, b: u32) {\n\
         var d: u32 = 0i;\n\
         local_0 = mul(a, b);\n\
         var a: u32;\n\
         a = local_0;\n\
         local_2 = add(a, b);\n\
         local_1 = add(local_2, 10i);\n\
         var c: u32;\n\
         c = local_1;\n\
         local_4 = div(a, c);\n\
         local_3 = add(local_4, 2i);\n\
         d = local_3;\n\
         }\n"
    );
    assert_eq!(first_counter, 5);
}

#[test]
fn a_counter_that_was_used_gives_other_names() {
    let mut counter = 0u32;
    let first = squarecl::compile::compile_flat(test_kernel(), &mut counter).unwrap();
    let second = squarecl::compile::compile_flat(test_kernel(), &mut counter).unwrap();
    assert_ne!(first, second);
    assert_eq!(counter, 10);
    assert!(second.contains("local_5 = mul(a, b);\n"));
}

#[test]
fn a_build_error_ends_the_compilation() {
    let kernel = SurfaceKernel {
        name: "k".to_string(),
        parameters: vec![param("a", "u32")],
        body: vec![SurfaceStmt::Expr {
            expr: SurfaceExpr::Lit {
                lit: SurfaceLit { kind: LitKind::Bool, value: "true".to_string(), suffix: None },
                pos: at(2, 4),
            },
            terminated: false,
            pos: at(2, 4),
        }],
    };
    assert_eq!(
        squarecl::compile::compile(kernel),
        Err(squarecl::compile::CompileError::Build(squarecl::error::BuildError {
            kind: squarecl::error::BuildErrorKind::UnsupportedLiteral,
            position: at(2, 4),
        }))
    );
}

#[test]
fn a_render_error_ends_the_compilation() {
    let body = || {
        vec![SurfaceStmt::Expr {
            expr: binary(ident("a"), "+", {
                SurfaceExpr::Lit {
                    lit: SurfaceLit {
                        kind: LitKind::Float,
                        value: "1.0".to_string(),
                        suffix: Some("f64".to_string()),
                    },
                    pos: at(2, 4),
                }
            }),
            terminated: false,
            pos: at(2, 4),
        }]
    };
    let wide = squarecl::types::IRType::Float(64);
    let expected = Err(squarecl::compile::CompileError::Render(
        squarecl::error::RenderError::UnsupportedType(wide),
    ));
    let kernel =
        SurfaceKernel { name: "k".to_string(), parameters: vec![param("a", "u32")], body: body() };
    assert_eq!(squarecl::compile::compile(kernel), expected);
    let kernel =
        SurfaceKernel { name: "k".to_string(), parameters: vec![param("a", "u32")], body: body() };
    let mut counter = 3u32;
    assert_eq!(squarecl::compile::compile_flat(kernel, &mut counter), expected);
    assert_eq!(counter, 3);
}

#[test]
fn a_parameter_of_a_type_without_shader_name_is_refused_at_rendering() {
    let kernel = SurfaceKernel {
        name: "k".to_string(),
        parameters: vec![param("a", "u64")],
        body: Vec::new(),
    };
    assert_eq!(
        squarecl::compile::compile(kernel),
        Err(squarecl::compile::CompileError::Render(
            squarecl::error::RenderError::UnsupportedType(squarecl::types::IRType::UInt(64)),
        ))
    );
}

#[test]
fn a_declaration_whose_type_cannot_be_inferred_is_refused_at_rendering() {
    let kernel = SurfaceKernel {
        name: "k".to_string(),
        parameters: Vec::new(),
        body: vec![local(name_pat("x", false), Some(ident("ALPHA")))],
    };
    assert_eq!(
        squarecl::compile::compile(kernel),
        Err(squarecl::compile::CompileError::Render(squarecl::error::RenderError::MissingType))
    );
}

#[test]
fn an_unbound_name_is_written_as_it_is() {
    let kernel = SurfaceKernel {
        name: "k".to_string(),
        parameters: vec![param("a", "i32")],
        body: vec![
            local(name_pat("c", true), Some(binary(ident("a"), "+", ident("ALPHA")))),
            SurfaceStmt::Expr { expr: ident("c"), terminated: false, pos: at(3, 0) },
        ],
    };
    assert_eq!(
        squarecl::compile::compile(kernel),
        Ok("fn main(a: i32) {\nvar c: i32;\nc = a + ALPHA;\nreturn c;\n}\n".to_string())
    );
}

#[test]
fn an_empty_kernel_compiles_to_an_empty_function() {
    let kernel =
        SurfaceKernel { name: "nothing".to_string(), parameters: Vec::new(), body: Vec::new() };
    assert_eq!(squarecl::compile::compile(kernel), Ok("fn main() {\n}\n".to_string()));
}
