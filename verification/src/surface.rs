//! The surface tree: what a front end hands over after it has decomposed a
//! kernel's function body. Every node carries the place it came from.

use vstd::prelude::*;
use crate::error::Position;

verus! {

/// The kind of a literal token.
#[derive(Debug, Clone, Copy, PartialEq, Eq, Structural)]
pub enum LitKind {
    Int,
    Float,
    Bool,
    /// Any other literal: a string, a character, a byte string.
    Other,
}

/// A literal token: its kind, its value as written without the suffix, and
/// the suffix if one was written.
#[derive(Debug, PartialEq, Eq)]
pub struct SurfaceLit {
    pub kind: LitKind,
    pub value: String,
    pub suffix: Option<String>,
}

/// The model of a literal token.
pub struct SurfaceLitView {
    pub kind: LitKind,
    pub value: Seq<char>,
    pub suffix: Option<Seq<char>>,
}

impl View for SurfaceLit {
    type V = SurfaceLitView;

    open spec fn view(&self) -> SurfaceLitView {
        SurfaceLitView {
            kind: self.kind,
            value: self.value@,
            suffix: match self.suffix {
                Some(s) => Some(s@),
                None => None,
            },
        }
    }
}

/// An expression of the surface tree.
#[derive(Debug, PartialEq, Eq)]
pub enum SurfaceExpr {
    Assign { left: Box<SurfaceExpr>, right: Box<SurfaceExpr>, pos: Position },
    /// A binary operation; `op` is the operator's token.
    Binary { left: Box<SurfaceExpr>, op: String, right: Box<SurfaceExpr>, pos: Position },
    /// A prefix operation; `op` is the operator's token.
    Unary { op: String, operand: Box<SurfaceExpr>, pos: Position },
    Lit { lit: SurfaceLit, pos: Position },
    /// A name, or a path written out as text.
    Ident { name: String, pos: Position },
    /// Any expression form that the front end could not decompose.
    Unsupported { pos: Position },
}

/// The model of a surface expression.
pub enum SurfaceExprView {
    Assign { left: Box<SurfaceExprView>, right: Box<SurfaceExprView>, pos: Position },
    Binary {
        left: Box<SurfaceExprView>,
        op: Seq<char>,
        right: Box<SurfaceExprView>,
        pos: Position,
    },
    Unary { op: Seq<char>, operand: Box<SurfaceExprView>, pos: Position },
    Lit { lit: SurfaceLitView, pos: Position },
    Ident { name: Seq<char>, pos: Position },
    Unsupported { pos: Position },
}

impl View for SurfaceExpr {
    type V = SurfaceExprView;

    open spec fn view(&self) -> SurfaceExprView
        decreases self,
    {
        match self {
            SurfaceExpr::Assign { left, right, pos } => SurfaceExprView::Assign {
                left: Box::new((**left).view()),
                right: Box::new((**right).view()),
                pos: *pos,
            },
            SurfaceExpr::Binary { left, op, right, pos } => SurfaceExprView::Binary {
                left: Box::new((**left).view()),
                op: op@,
                right: Box::new((**right).view()),
                pos: *pos,
            },
            SurfaceExpr::Unary { op, operand, pos } => SurfaceExprView::Unary {
                op: op@,
                operand: Box::new((**operand).view()),
                pos: *pos,
            },
            SurfaceExpr::Lit { lit, pos } => SurfaceExprView::Lit { lit: lit@, pos: *pos },
            SurfaceExpr::Ident { name, pos } => SurfaceExprView::Ident { name: name@, pos: *pos },
            SurfaceExpr::Unsupported { pos } => SurfaceExprView::Unsupported { pos: *pos },
        }
    }
}

/// The pattern on the left of a local binding.
#[derive(Debug, PartialEq, Eq)]
pub enum SurfacePat {
    /// A plain name, with or without the mutability marker.
    Ident { name: String, mutable: bool, pos: Position },
    /// A pattern with a type annotation; `ty` is the type as written.
    Typed { pat: Box<SurfacePat>, ty: String, pos: Position },
    /// Any other pattern.
    Unsupported { pos: Position },
}

/// The model of a binding pattern.
pub enum SurfacePatView {
    Ident { name: Seq<char>, mutable: bool, pos: Position },
    Typed { pat: Box<SurfacePatView>, ty: Seq<char>, pos: Position },
    Unsupported { pos: Position },
}

impl View for SurfacePat {
    type V = SurfacePatView;

    open spec fn view(&self) -> SurfacePatView
        decreases self,
    {
        match self {
            SurfacePat::Ident { name, mutable, pos } => SurfacePatView::Ident {
                name: name@,
                mutable: *mutable,
                pos: *pos,
            },
            SurfacePat::Typed { pat, ty, pos } => SurfacePatView::Typed {
                pat: Box::new((**pat).view()),
                ty: ty@,
                pos: *pos,
            },
            SurfacePat::Unsupported { pos } => SurfacePatView::Unsupported { pos: *pos },
        }
    }
}

/// A statement of the surface tree.
#[derive(Debug, PartialEq, Eq)]
pub enum SurfaceStmt {
    /// A local binding with an optional initializer.
    Local { pat: SurfacePat, init: Option<SurfaceExpr>, pos: Position },
    /// An expression in statement position; `terminated` says whether it was
    /// closed by a statement end.
    Expr { expr: SurfaceExpr, terminated: bool, pos: Position },
    /// Any other statement form.
    Unsupported { pos: Position },
}

/// The model of a surface statement.
pub enum SurfaceStmtView {
    Local { pat: SurfacePatView, init: Option<SurfaceExprView>, pos: Position },
    Expr { expr: SurfaceExprView, terminated: bool, pos: Position },
    Unsupported { pos: Position },
}

impl View for SurfaceStmt {
    type V = SurfaceStmtView;

    open spec fn view(&self) -> SurfaceStmtView {
        match self {
            SurfaceStmt::Local { pat, init, pos } => SurfaceStmtView::Local {
                pat: pat@,
                init: match init {
                    Some(e) => Some(e@),
                    None => None,
                },
                pos: *pos,
            },
            SurfaceStmt::Expr { expr, terminated, pos } => SurfaceStmtView::Expr {
                expr: expr@,
                terminated: *terminated,
                pos: *pos,
            },
            SurfaceStmt::Unsupported { pos } => SurfaceStmtView::Unsupported { pos: *pos },
        }
    }
}

/// A parameter of the kernel: its name and its type as written.
#[derive(Debug, PartialEq, Eq)]
pub struct SurfaceParam {
    pub name: String,
    pub ty: String,
    pub pos: Position,
}

/// The model of a parameter.
pub struct SurfaceParamView {
    pub name: Seq<char>,
    pub ty: Seq<char>,
    pub pos: Position,
}

impl View for SurfaceParam {
    type V = SurfaceParamView;

    open spec fn view(&self) -> SurfaceParamView {
        SurfaceParamView { name: self.name@, ty: self.ty@, pos: self.pos }
    }
}

/// A kernel as the front end hands it over: its name, its parameters in
/// order and the statements of its body in order.
#[derive(Debug, PartialEq, Eq)]
pub struct SurfaceKernel {
    pub name: String,
    pub parameters: Vec<SurfaceParam>,
    pub body: Vec<SurfaceStmt>,
}

/// The model of a surface kernel.
pub struct SurfaceKernelView {
    pub name: Seq<char>,
    pub parameters: Seq<SurfaceParamView>,
    pub body: Seq<SurfaceStmtView>,
}

impl View for SurfaceKernel {
    type V = SurfaceKernelView;

    open spec fn view(&self) -> SurfaceKernelView {
        SurfaceKernelView {
            name: self.name@,
            parameters: self.parameters@.map_values(|p: SurfaceParam| p@),
            body: self.body@.map_values(|s: SurfaceStmt| s@),
        }
    }
}

} // verus!
