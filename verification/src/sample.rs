//! A sample kernel, as a front end would hand it over.

use vstd::prelude::*;
use vstd::string::*;
use crate::error::Position;
use crate::surface::{
    LitKind, SurfaceExpr, SurfaceExprView, SurfaceKernel, SurfaceKernelView, SurfaceLit,
    SurfaceLitView, SurfaceParam, SurfaceParamView, SurfacePat, SurfacePatView, SurfaceStmt,
    SurfaceStmtView,
};

verus! {

/// A place in the text of the sample kernel.
pub open spec fn sample_at(line: usize, column: usize) -> Position {
    Position { line, column }
}

/// A use of a name in the sample kernel.
pub open spec fn sample_name(name: Seq<char>, line: usize, column: usize) -> SurfaceExprView {
    SurfaceExprView::Ident { name, pos: sample_at(line, column) }
}

/// An integer literal without suffix in the sample kernel.
pub open spec fn sample_int(value: Seq<char>, line: usize, column: usize) -> SurfaceExprView {
    SurfaceExprView::Lit {
        lit: SurfaceLitView { kind: LitKind::Int, value, suffix: None },
        pos: sample_at(line, column),
    }
}

/// A binary operation in the sample kernel.
pub open spec fn sample_binary(
    left: SurfaceExprView,
    op: Seq<char>,
    right: SurfaceExprView,
    line: usize,
    column: usize,
) -> SurfaceExprView {
    SurfaceExprView::Binary {
        left: Box::new(left),
        op,
        right: Box::new(right),
        pos: sample_at(line, column),
    }
}

/// The sample kernel:
///
/// ```text
/// fn test_kernel(a: u32, b: u32) {
///     let mut d: u32 = 0;
///     let a = a * b;
///     let c = a + b + 10;
///     d = a / c + 2;
/// }
/// ```
pub open spec fn sample_kernel() -> SurfaceKernelView {
    SurfaceKernelView {
        name: "test_kernel"@,
        parameters: seq![
            SurfaceParamView { name: "a"@, ty: "u32"@, pos: sample_at(1, 15) },
            SurfaceParamView { name: "b"@, ty: "u32"@, pos: sample_at(1, 23) },
        ],
        body: seq![
            SurfaceStmtView::Local {
                pat: SurfacePatView::Typed {
                    pat: Box::new(
                        SurfacePatView::Ident { name: "d"@, mutable: true, pos: sample_at(2, 8) },
                    ),
                    ty: "u32"@,
                    pos: sample_at(2, 8),
                },
                init: Some(sample_int("0"@, 2, 21)),
                pos: sample_at(2, 4),
            },
            SurfaceStmtView::Local {
                pat: SurfacePatView::Ident { name: "a"@, mutable: false, pos: sample_at(3, 8) },
                init: Some(
                    sample_binary(sample_name("a"@, 3, 12), "*"@, sample_name("b"@, 3, 16), 3, 12),
                ),
                pos: sample_at(3, 4),
            },
            SurfaceStmtView::Local {
                pat: SurfacePatView::Ident { name: "c"@, mutable: false, pos: sample_at(4, 8) },
                init: Some(
                    sample_binary(
                        sample_binary(
                            sample_name("a"@, 4, 12),
                            "+"@,
                            sample_name("b"@, 4, 16),
                            4,
                            12,
                        ),
                        "+"@,
                        sample_int("10"@, 4, 20),
                        4,
                        12,
                    ),
                ),
                pos: sample_at(4, 4),
            },
            SurfaceStmtView::Expr {
                expr: SurfaceExprView::Assign {
                    left: Box::new(sample_name("d"@, 5, 4)),
                    right: Box::new(
                        sample_binary(
                            sample_binary(
                                sample_name("a"@, 5, 8),
                                "/"@,
                                sample_name("c"@, 5, 12),
                                5,
                                8,
                            ),
                            "+"@,
                            sample_int("2"@, 5, 16),
                            5,
                            8,
                        ),
                    ),
                    pos: sample_at(5, 4),
                },
                terminated: true,
                pos: sample_at(5, 4),
            },
        ],
    }
}

fn at(line: usize, column: usize) -> (pos: Position)
    ensures
        pos == sample_at(line, column),
{
    Position { line, column }
}

fn name(text: &str, line: usize, column: usize) -> (e: SurfaceExpr)
    ensures
        e@ == sample_name(text@, line, column),
{
    SurfaceExpr::Ident { name: String::from_str(text), pos: at(line, column) }
}

fn int_literal(value: &str, line: usize, column: usize) -> (e: SurfaceExpr)
    ensures
        e@ == sample_int(value@, line, column),
{
    SurfaceExpr::Lit {
        lit: SurfaceLit { kind: LitKind::Int, value: String::from_str(value), suffix: None },
        pos: at(line, column),
    }
}

fn binary(left: SurfaceExpr, op: &str, right: SurfaceExpr, line: usize, column: usize) -> (e:
    SurfaceExpr)
    ensures
        e@ == sample_binary(left@, op@, right@, line, column),
{
    SurfaceExpr::Binary {
        left: Box::new(left),
        op: String::from_str(op),
        right: Box::new(right),
        pos: at(line, column),
    }
}

/// Builds the surface tree of the sample kernel.
pub fn test_kernel() -> (kernel: SurfaceKernel)
    ensures
        kernel@ == sample_kernel(),
{
    let mut parameters: Vec<SurfaceParam> = Vec::new();
    parameters.push(
        SurfaceParam { name: String::from_str("a"), ty: String::from_str("u32"), pos: at(1, 15) },
    );
    parameters.push(
        SurfaceParam { name: String::from_str("b"), ty: String::from_str("u32"), pos: at(1, 23) },
    );
    let mut body: Vec<SurfaceStmt> = Vec::new();
    let d = SurfacePat::Ident { name: String::from_str("d"), mutable: true, pos: at(2, 8) };
    assert(d@ == SurfacePatView::Ident { name: "d"@, mutable: true, pos: sample_at(2, 8) });
    let typed_d = SurfacePat::Typed {
        pat: Box::new(d),
        ty: String::from_str("u32"),
        pos: at(2, 8),
    };
    assert(typed_d@ == SurfacePatView::Typed {
        pat: Box::new(d@),
        ty: "u32"@,
        pos: sample_at(2, 8),
    });
    let declare_d = SurfaceStmt::Local {
        pat: typed_d,
        init: Some(int_literal("0", 2, 21)),
        pos: at(2, 4),
    };
    let declare_a = SurfaceStmt::Local {
        pat: SurfacePat::Ident { name: String::from_str("a"), mutable: false, pos: at(3, 8) },
        init: Some(binary(name("a", 3, 12), "*", name("b", 3, 16), 3, 12)),
        pos: at(3, 4),
    };
    let declare_c = SurfaceStmt::Local {
        pat: SurfacePat::Ident { name: String::from_str("c"), mutable: false, pos: at(4, 8) },
        init: Some(
            binary(
                binary(name("a", 4, 12), "+", name("b", 4, 16), 4, 12),
                "+",
                int_literal("10", 4, 20),
                4,
                12,
            ),
        ),
        pos: at(4, 4),
    };
    let assign_d = SurfaceStmt::Expr {
        expr: SurfaceExpr::Assign {
            left: Box::new(name("d", 5, 4)),
            right: Box::new(
                binary(
                    binary(name("a", 5, 8), "/", name("c", 5, 12), 5, 8),
                    "+",
                    int_literal("2", 5, 16),
                    5,
                    8,
                ),
            ),
            pos: at(5, 4),
        },
        terminated: true,
        pos: at(5, 4),
    };
    proof {
        assert(declare_d@ == sample_kernel().body[0]);
        assert(declare_a@ == sample_kernel().body[1]);
        assert(declare_c@ == sample_kernel().body[2]);
        assert(assign_d@ == sample_kernel().body[3]);
    }
    body.push(declare_d);
    body.push(declare_a);
    body.push(declare_c);
    body.push(assign_d);
    let kernel = SurfaceKernel { name: String::from_str("test_kernel"), parameters, body };
    proof {
        assert(kernel@.parameters =~= sample_kernel().parameters);
        assert(kernel@.body =~= sample_kernel().body);
    }
    kernel
}

} // verus!
