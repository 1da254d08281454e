//! The expression tree that the rule reads: a kind, children and a source span.

use vstd::prelude::*;
use crate::classify::TypeId;

verus! {

/// A half-open range of byte positions in the source text.
#[derive(Clone, Copy, Debug, PartialEq, Eq, Structural)]
pub struct Span {
    pub lo: u32,
    pub hi: u32,
}

/// The identity of a declaration that a name is bound to.
#[derive(Clone, Copy, Debug, PartialEq, Eq, Structural)]
pub struct BindingId(pub u64);

/// A prefix operator.
#[derive(Clone, Copy, Debug, PartialEq, Eq, Structural)]
pub enum UnOp {
    Deref,
    Not,
    Neg,
}

/// An infix operator.
#[derive(Clone, Copy, Debug, PartialEq, Eq, Structural)]
pub enum BinOp {
    Add,
    Sub,
    Mul,
    Div,
    Rem,
    And,
    Or,
    BitXor,
    BitAnd,
    BitOr,
    Shl,
    Shr,
    Eq,
    Lt,
    Le,
    Ne,
    Ge,
    Gt,
}

/// A literal, by its value.
#[derive(Debug)]
pub enum Literal {
    Bool(bool),
    Int(u128),
    Char(char),
    Str(String),
}

/// A name in expression position.
#[derive(Debug)]
pub enum QPath {
    /// A name that resolves to a declaration. Two declarations may share the
    /// surface name; the binding tells them apart.
    Resolved { name: String, binding: BindingId },
    /// A member looked up on a type, such as an associated function. The
    /// receiver is `None` where the type could not be resolved.
    TypeRelative { receiver: Option<TypeId>, member: String },
}

/// What an expression is, apart from where it stands.
#[derive(Debug)]
#[allow(inconsistent_fields)]
pub enum ExprKind {
    Path(QPath),
    Lit(Literal),
    Field { base: Box<Expr>, field: String },
    Index { base: Box<Expr>, index: Box<Expr> },
    MethodCall { receiver: Box<Expr>, method: String, args: Vec<Expr> },
    Call { callee: Box<Expr>, args: Vec<Expr> },
    Unary { op: UnOp, operand: Box<Expr> },
    Binary { op: BinOp, lhs: Box<Expr>, rhs: Box<Expr> },
    /// An expression in parentheses.
    Paren(Box<Expr>),
    /// Any kind of expression that the comparator does not look into.
    Other,
}

/// A node of the expression tree.
#[derive(Debug)]
pub struct Expr {
    pub kind: ExprKind,
    pub span: Span,
}

impl Expr {
    pub fn new(kind: ExprKind, span: Span) -> (e: Expr)
        ensures
            e.kind == kind,
            e.span == span,
    {
        Expr { kind, span }
    }
}

} // verus!
