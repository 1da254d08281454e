//! Equality of expressions up to span: the same structure and the same
//! bindings, whatever the position and the parentheses.

use vstd::prelude::*;
use crate::expr::{Expr, ExprKind, Literal, QPath};

verus! {

/// Two literals are the same when they are of one kind and of one value.
pub open spec fn same_literal(a: Literal, b: Literal) -> bool {
    match (a, b) {
        (Literal::Bool(x), Literal::Bool(y)) => x == y,
        (Literal::Int(x), Literal::Int(y)) => x == y,
        (Literal::Char(x), Literal::Char(y)) => x == y,
        (Literal::Str(x), Literal::Str(y)) => x@ == y@,
        _ => false,
    }
}

/// Two resolved names are the same when they are bound to one declaration,
/// whatever they are called. Two members are the same when they have one name
/// and are looked up on one type.
pub open spec fn same_path(a: QPath, b: QPath) -> bool {
    match (a, b) {
        (
            QPath::Resolved { binding: x, .. },
            QPath::Resolved { binding: y, .. },
        ) => x == y,
        (
            QPath::TypeRelative { receiver: s, member: m },
            QPath::TypeRelative { receiver: t, member: n },
        ) => s == t && m@ == n@,
        _ => false,
    }
}

/// Equality up to span. Spans are never read. Parentheses are looked through
/// on either side. Below them, two expressions are equal when they are of one
/// kind, with the same operator or selector and with equal operands, in order.
/// An expression of a kind that is not looked into equals nothing, itself
/// included.
pub open spec fn spanless_eq(a: Expr, b: Expr) -> bool
    decreases a, b,
{
    match (a.kind, b.kind) {
        (ExprKind::Paren(x), ExprKind::Paren(y)) => spanless_eq(*x, *y),
        (ExprKind::Paren(x), _) => spanless_eq(*x, b),
        (_, ExprKind::Paren(y)) => spanless_eq(a, *y),
        (ExprKind::Path(p), ExprKind::Path(q)) => same_path(p, q),
        (ExprKind::Lit(l), ExprKind::Lit(m)) => same_literal(l, m),
        (
            ExprKind::Field { base: x, field: f },
            ExprKind::Field { base: y, field: g },
        ) => f@ == g@ && spanless_eq(*x, *y),
        (
            ExprKind::Index { base: x, index: i },
            ExprKind::Index { base: y, index: j },
        ) => spanless_eq(*x, *y) && spanless_eq(*i, *j),
        (
            ExprKind::MethodCall { receiver: x, method: m, args: xs },
            ExprKind::MethodCall { receiver: y, method: n, args: ys },
        ) => {
            &&& m@ == n@
            &&& spanless_eq(*x, *y)
            &&& xs@.len() == ys@.len()
            &&& forall|k: int| 0 <= k < xs@.len() ==> spanless_eq(xs@[k], ys@[k])
        },
        (
            ExprKind::Call { callee: x, args: xs },
            ExprKind::Call { callee: y, args: ys },
        ) => {
            &&& spanless_eq(*x, *y)
            &&& xs@.len() == ys@.len()
            &&& forall|k: int| 0 <= k < xs@.len() ==> spanless_eq(xs@[k], ys@[k])
        },
        (
            ExprKind::Unary { op: o, operand: x },
            ExprKind::Unary { op: p, operand: y },
        ) => o == p && spanless_eq(*x, *y),
        (
            ExprKind::Binary { op: o, lhs: x, rhs: u },
            ExprKind::Binary { op: p, lhs: y, rhs: v },
        ) => o == p && spanless_eq(*x, *y) && spanless_eq(*u, *v),
        _ => false,
    }
}

/// Equality up to span of two argument lists: one length, and equal
/// expressions at each place.
pub open spec fn spanless_eq_all(xs: Seq<Expr>, ys: Seq<Expr>) -> bool {
    &&& xs.len() == ys.len()
    &&& forall|k: int| 0 <= k < xs.len() ==> spanless_eq(xs[k], ys[k])
}

/// Compares two literals by kind and value.
pub fn eq_literal(a: &Literal, b: &Literal) -> (same: bool)
    ensures
        same == same_literal(*a, *b),
{
    match (a, b) {
        (Literal::Bool(x), Literal::Bool(y)) => *x == *y,
        (Literal::Int(x), Literal::Int(y)) => *x == *y,
        (Literal::Char(x), Literal::Char(y)) => *x == *y,
        (Literal::Str(x), Literal::Str(y)) => *x == *y,
        _ => false,
    }
}

/// Compares two names: resolved ones by their binding, members by their name
/// and the type they are looked up on.
pub fn eq_path(a: &QPath, b: &QPath) -> (same: bool)
    ensures
        same == same_path(*a, *b),
{
    match (a, b) {
        (
            QPath::Resolved { binding: x, .. },
            QPath::Resolved { binding: y, .. },
        ) => *x == *y,
        (
            QPath::TypeRelative { receiver: s, member: m },
            QPath::TypeRelative { receiver: t, member: n },
        ) => {
            let same_receiver = match (s, t) {
                (Some(u), Some(v)) => *u == *v,
                (None, None) => true,
                _ => false,
            };
            same_receiver && *m == *n
        },
        _ => false,
    }
}

/// Compares two expressions up to span.
pub fn eq_expr(a: &Expr, b: &Expr) -> (same: bool)
    ensures
        same == spanless_eq(*a, *b),
    decreases *a, *b,
{
    match (&a.kind, &b.kind) {
        (ExprKind::Paren(x), ExprKind::Paren(y)) => eq_expr(x, y),
        (ExprKind::Paren(x), _) => eq_expr(x, b),
        (_, ExprKind::Paren(y)) => eq_expr(a, y),
        (ExprKind::Path(p), ExprKind::Path(q)) => eq_path(p, q),
        (ExprKind::Lit(l), ExprKind::Lit(m)) => eq_literal(l, m),
        (
            ExprKind::Field { base: x, field: f },
            ExprKind::Field { base: y, field: g },
        ) => *f == *g && eq_expr(x, y),
        (
            ExprKind::Index { base: x, index: i },
            ExprKind::Index { base: y, index: j },
        ) => eq_expr(x, y) && eq_expr(i, j),
        (
            ExprKind::MethodCall { receiver: x, method: m, args: xs },
            ExprKind::MethodCall { receiver: y, method: n, args: ys },
        ) => *m == *n && eq_expr(x, y) && eq_exprs(xs, ys),
        (
            ExprKind::Call { callee: x, args: xs },
            ExprKind::Call { callee: y, args: ys },
        ) => eq_expr(x, y) && eq_exprs(xs, ys),
        (
            ExprKind::Unary { op: o, operand: x },
            ExprKind::Unary { op: p, operand: y },
        ) => *o == *p && eq_expr(x, y),
        (
            ExprKind::Binary { op: o, lhs: x, rhs: u },
            ExprKind::Binary { op: p, lhs: y, rhs: v },
        ) => *o == *p && eq_expr(x, y) && eq_expr(u, v),
        _ => false,
    }
}

/// Compares two argument lists up to span, place by place.
pub fn eq_exprs(xs: &Vec<Expr>, ys: &Vec<Expr>) -> (same: bool)
    ensures
        same == spanless_eq_all(xs@, ys@),
    decreases *xs, *ys,
{
    if xs.len() != ys.len() {
        return false;
    }
    let mut k: usize = 0;
    while k < xs.len()
        invariant
            xs.len() == ys.len(),
            k <= xs.len(),
            forall|j: int| 0 <= j < k ==> spanless_eq(xs@[j], ys@[j]),
        decreases xs.len() - k,
    {
        if !eq_expr(&xs[k], &ys[k]) {
            return false;
        }
        k += 1;
    }
    true
}

} // verus!
