//! Source positions and the two families of failure: build errors, raised
//! while the IR is constructed, and render errors, raised while it is written
//! out as text.

use vstd::prelude::*;
use crate::types::IRType;

verus! {

/// A place in the kernel's source text.
#[derive(Debug, Clone, Copy, PartialEq, Eq, Structural)]
pub struct Position {
    pub line: usize,
    pub column: usize,
}

/// What the builder could not accept.
#[derive(Debug, Clone, Copy, PartialEq, Eq, Structural)]
pub enum BuildErrorKind {
    /// An expression form outside the supported subset.
    UnsupportedExpression,
    /// A statement form outside the supported subset.
    UnsupportedStatement,
    /// An operator token that is not in the operator catalog.
    UnsupportedOperator,
    /// A literal that is neither an integer nor a float, or whose suffix
    /// names no type of the catalog.
    UnsupportedLiteral,
    /// A binding pattern that is not a name with an optional type.
    UnsupportedPattern,
    /// A type annotation that names no type of the catalog.
    UnsupportedType,
}

/// A build error: what was refused and where it stands in the source.
#[derive(Debug, Clone, Copy, PartialEq, Eq, Structural)]
pub struct BuildError {
    pub kind: BuildErrorKind,
    pub position: Position,
}

/// Why a tree could not be rendered.
#[derive(Debug, Clone, Copy, PartialEq, Eq, Structural)]
pub enum RenderError {
    /// The type has no entry in the renderer's type table.
    UnsupportedType(IRType),
    /// A declaration or a literal needs a type and the node carries none.
    MissingType,
    /// An initializer expression stands somewhere else than directly under a
    /// local declaration.
    StrayInitializer,
    /// A local declaration whose declared part is neither a variable nor an
    /// initializer of a variable.
    MalformedLocal,
}

} // verus!
