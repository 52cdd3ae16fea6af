//! The closed set of operators, how each is recognised in the surface tree
//! and how each is spelled by the two renderers.

use vstd::prelude::*;
use vstd::string::*;
use crate::error::{BuildError, BuildErrorKind, Position};
use crate::text::same_text;

verus! {

/// An operator of the IR. `Add`, `Sub`, `Mul` and `Div` take two operands;
/// `Deref`, `Not` and `Neg` take one.
#[derive(Debug, Clone, Copy, PartialEq, Eq, Structural)]
pub enum Operator {
    Add,
    Sub,
    Mul,
    Div,
    Deref,
    Not,
    Neg,
}

impl Operator {
    /// Whether the operator takes two operands.
    pub open spec fn is_binary(self) -> bool {
        self is Add || self is Sub || self is Mul || self is Div
    }

    /// Whether the operator takes one operand.
    pub open spec fn is_unary(self) -> bool {
        self is Deref || self is Not || self is Neg
    }

    /// The operator as the infix renderer writes it.
    pub open spec fn spec_symbol(self) -> Seq<char> {
        match self {
            Operator::Add => "+"@,
            Operator::Sub => "-"@,
            Operator::Mul => "*"@,
            Operator::Div => "/"@,
            Operator::Deref => "*"@,
            Operator::Not => "!"@,
            Operator::Neg => "-"@,
        }
    }

    /// The operator as the call-form renderer writes it: the name of a
    /// function.
    pub open spec fn spec_call_name(self) -> Seq<char> {
        match self {
            Operator::Add => "add"@,
            Operator::Sub => "sub"@,
            Operator::Mul => "mul"@,
            Operator::Div => "div"@,
            Operator::Deref => "deref"@,
            Operator::Not => "not"@,
            Operator::Neg => "neg"@,
        }
    }

    /// The name of the operator: the name of its variant.
    pub open spec fn name(self) -> Seq<char> {
        match self {
            Operator::Add => "Add"@,
            Operator::Sub => "Sub"@,
            Operator::Mul => "Mul"@,
            Operator::Div => "Div"@,
            Operator::Deref => "Deref"@,
            Operator::Not => "Not"@,
            Operator::Neg => "Neg"@,
        }
    }

    /// Writes the name of the operator.
    pub fn to_string(&self) -> (text: String)
        ensures
            text@ == self.name(),
    {
        let name = match self {
            Operator::Add => "Add",
            Operator::Sub => "Sub",
            Operator::Mul => "Mul",
            Operator::Div => "Div",
            Operator::Deref => "Deref",
            Operator::Not => "Not",
            Operator::Neg => "Neg",
        };
        String::from_str(name)
    }

    /// The operator as the infix renderer writes it.
    pub fn symbol(&self) -> (text: &'static str)
        ensures
            text@ == self.spec_symbol(),
    {
        match self {
            Operator::Add => "+",
            Operator::Sub => "-",
            Operator::Mul => "*",
            Operator::Div => "/",
            Operator::Deref => "*",
            Operator::Not => "!",
            Operator::Neg => "-",
        }
    }

    /// The operator as the call-form renderer writes it.
    pub fn call_name(&self) -> (text: &'static str)
        ensures
            text@ == self.spec_call_name(),
    {
        match self {
            Operator::Add => "add",
            Operator::Sub => "sub",
            Operator::Mul => "mul",
            Operator::Div => "div",
            Operator::Deref => "deref",
            Operator::Not => "not",
            Operator::Neg => "neg",
        }
    }
}

/// The binary operator that a surface token stands for, if it is supported.
pub open spec fn binop_of_token(token: Seq<char>) -> Option<Operator> {
    if token == "+"@ {
        Some(Operator::Add)
    } else if token == "-"@ {
        Some(Operator::Sub)
    } else if token == "*"@ {
        Some(Operator::Mul)
    } else if token == "/"@ {
        Some(Operator::Div)
    } else {
        None
    }
}

/// The unary operator that a surface token stands for, if it is supported.
pub open spec fn unop_of_token(token: Seq<char>) -> Option<Operator> {
    if token == "*"@ {
        Some(Operator::Deref)
    } else if token == "!"@ {
        Some(Operator::Not)
    } else if token == "-"@ {
        Some(Operator::Neg)
    } else {
        None
    }
}

/// The error raised for an operator token outside the catalog.
pub open spec fn unsupported_operator(position: Position) -> BuildError {
    BuildError { kind: BuildErrorKind::UnsupportedOperator, position }
}

/// Recognises the token of a binary operator; any token but `+`, `-`, `*`
/// and `/` is refused at `position`.
pub fn parse_binop(token: &str, position: Position) -> (result: Result<Operator, BuildError>)
    ensures
        result == match binop_of_token(token@) {
            Some(op) => Ok::<Operator, BuildError>(op),
            None => Err(unsupported_operator(position)),
        },
{
    if same_text(token, "+") {
        Ok(Operator::Add)
    } else if same_text(token, "-") {
        Ok(Operator::Sub)
    } else if same_text(token, "*") {
        Ok(Operator::Mul)
    } else if same_text(token, "/") {
        Ok(Operator::Div)
    } else {
        Err(BuildError { kind: BuildErrorKind::UnsupportedOperator, position })
    }
}

/// Recognises the token of a unary operator; any token but `*`, `!` and `-`
/// is refused at `position`.
pub fn parse_unop(token: &str, position: Position) -> (result: Result<Operator, BuildError>)
    ensures
        result == match unop_of_token(token@) {
            Some(op) => Ok::<Operator, BuildError>(op),
            None => Err(unsupported_operator(position)),
        },
{
    if same_text(token, "*") {
        Ok(Operator::Deref)
    } else if same_text(token, "!") {
        Ok(Operator::Not)
    } else if same_text(token, "-") {
        Ok(Operator::Neg)
    } else {
        Err(BuildError { kind: BuildErrorKind::UnsupportedOperator, position })
    }
}

/// The four operator tokens are pairwise different.
pub proof fn lemma_operator_tokens_differ()
    ensures
        "+"@ != "-"@,
        "+"@ != "*"@,
        "+"@ != "/"@,
        "+"@ != "!"@,
        "-"@ != "*"@,
        "-"@ != "/"@,
        "-"@ != "!"@,
        "*"@ != "/"@,
        "*"@ != "!"@,
        "/"@ != "!"@,
{
    reveal_strlit("+");
    reveal_strlit("-");
    reveal_strlit("*");
    reveal_strlit("/");
    reveal_strlit("!");
    assert("+"@[0] == '+');
    assert("-"@[0] == '-');
    assert("*"@[0] == '*');
    assert("/"@[0] == '/');
    assert("!"@[0] == '!');
}

/// What is recognised as a binary operator takes two operands, what is
/// recognised as a unary operator takes one, and the infix spelling of each
/// is the token it was recognised from.
pub proof fn lemma_recognised_operator(token: Seq<char>)
    ensures
        binop_of_token(token) matches Some(op) ==> op.is_binary() && op.spec_symbol() == token,
        unop_of_token(token) matches Some(op) ==> op.is_unary() && op.spec_symbol() == token,
{
}

/// Each operator is recognised from its own infix spelling, on the side it
/// belongs to.
pub proof fn lemma_symbol_is_recognised(op: Operator)
    ensures
        op.is_binary() ==> binop_of_token(op.spec_symbol()) == Some(op),
        op.is_unary() ==> unop_of_token(op.spec_symbol()) == Some(op),
{
    lemma_operator_tokens_differ();
}

} // verus!
