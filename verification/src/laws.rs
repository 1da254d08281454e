//! What holds of equality up to span on every expression.

use vstd::prelude::*;
use crate::classify::{BufferKind, TypeId, TypeRegistry};
use crate::expr::{BindingId, Expr, ExprKind, QPath, Span};
use crate::lint::{call_args, callee_member, callee_receiver, constructor_name, flagged, rebuilt_kind};
use crate::spanless::{same_literal, same_path, spanless_eq};

verus! {

/// An expression is recognized when neither it nor any expression below it is
/// of a kind that the comparator does not look into.
pub open spec fn recognized(e: Expr) -> bool
    decreases e,
{
    match e.kind {
        ExprKind::Path(_) => true,
        ExprKind::Lit(_) => true,
        ExprKind::Field { base, .. } => recognized(*base),
        ExprKind::Index { base, index } => recognized(*base) && recognized(*index),
        ExprKind::MethodCall { receiver, args, .. } => {
            &&& recognized(*receiver)
            &&& forall|k: int| 0 <= k < args@.len() ==> recognized(args@[k])
        },
        ExprKind::Call { callee, args } => {
            &&& recognized(*callee)
            &&& forall|k: int| 0 <= k < args@.len() ==> recognized(args@[k])
        },
        ExprKind::Unary { operand, .. } => recognized(*operand),
        ExprKind::Binary { lhs, rhs, .. } => recognized(*lhs) && recognized(*rhs),
        ExprKind::Paren(inner) => recognized(*inner),
        ExprKind::Other => false,
    }
}

/// Every recognized expression equals itself.
pub proof fn lemma_spanless_eq_reflexive(e: Expr)
    requires
        recognized(e),
    ensures
        spanless_eq(e, e),
    decreases e,
{
    match e.kind {
        ExprKind::Path(p) => {
            assert(same_path(p, p));
        },
        ExprKind::Lit(l) => {
            assert(same_literal(l, l));
        },
        ExprKind::Field { base, .. } => {
            lemma_spanless_eq_reflexive(*base);
        },
        ExprKind::Index { base, index } => {
            lemma_spanless_eq_reflexive(*base);
            lemma_spanless_eq_reflexive(*index);
        },
        ExprKind::MethodCall { receiver, args, .. } => {
            lemma_spanless_eq_reflexive(*receiver);
            assert forall|k: int| 0 <= k < args@.len() implies spanless_eq(args@[k], args@[k]) by {
                lemma_spanless_eq_reflexive(args@[k]);
            }
        },
        ExprKind::Call { callee, args } => {
            lemma_spanless_eq_reflexive(*callee);
            assert forall|k: int| 0 <= k < args@.len() implies spanless_eq(args@[k], args@[k]) by {
                lemma_spanless_eq_reflexive(args@[k]);
            }
        },
        ExprKind::Unary { operand, .. } => {
            lemma_spanless_eq_reflexive(*operand);
        },
        ExprKind::Binary { lhs, rhs, .. } => {
            lemma_spanless_eq_reflexive(*lhs);
            lemma_spanless_eq_reflexive(*rhs);
        },
        ExprKind::Paren(inner) => {
            lemma_spanless_eq_reflexive(*inner);
        },
        ExprKind::Other => {},
    }
}

/// The verdict does not depend on the order of the two expressions.
pub proof fn lemma_spanless_eq_symmetric(a: Expr, b: Expr)
    ensures
        spanless_eq(a, b) == spanless_eq(b, a),
    decreases a, b,
{
    match (a.kind, b.kind) {
        (ExprKind::Paren(x), ExprKind::Paren(y)) => {
            lemma_spanless_eq_symmetric(*x, *y);
        },
        (ExprKind::Paren(x), _) => {
            lemma_spanless_eq_symmetric(*x, b);
        },
        (_, ExprKind::Paren(y)) => {
            lemma_spanless_eq_symmetric(a, *y);
        },
        (ExprKind::Path(p), ExprKind::Path(q)) => {
            assert(same_path(p, q) == same_path(q, p));
        },
        (ExprKind::Lit(l), ExprKind::Lit(m)) => {
            assert(same_literal(l, m) == same_literal(m, l));
        },
        (ExprKind::Field { base: x, .. }, ExprKind::Field { base: y, .. }) => {
            lemma_spanless_eq_symmetric(*x, *y);
        },
        (ExprKind::Index { base: x, index: i }, ExprKind::Index { base: y, index: j }) => {
            lemma_spanless_eq_symmetric(*x, *y);
            lemma_spanless_eq_symmetric(*i, *j);
        },
        (
            ExprKind::MethodCall { receiver: x, args: xs, .. },
            ExprKind::MethodCall { receiver: y, args: ys, .. },
        ) => {
            lemma_spanless_eq_symmetric(*x, *y);
            if xs@.len() == ys@.len() {
                assert forall|k: int| 0 <= k < xs@.len() implies spanless_eq(xs@[k], ys@[k])
                    == spanless_eq(ys@[k], xs@[k]) by {
                    lemma_spanless_eq_symmetric(xs@[k], ys@[k]);
                }
            }
        },
        (ExprKind::Call { callee: x, args: xs }, ExprKind::Call { callee: y, args: ys }) => {
            lemma_spanless_eq_symmetric(*x, *y);
            if xs@.len() == ys@.len() {
                assert forall|k: int| 0 <= k < xs@.len() implies spanless_eq(xs@[k], ys@[k])
                    == spanless_eq(ys@[k], xs@[k]) by {
                    lemma_spanless_eq_symmetric(xs@[k], ys@[k]);
                }
            }
        },
        (ExprKind::Unary { operand: x, .. }, ExprKind::Unary { operand: y, .. }) => {
            lemma_spanless_eq_symmetric(*x, *y);
        },
        (ExprKind::Binary { lhs: x, rhs: u, .. }, ExprKind::Binary { lhs: y, rhs: v, .. }) => {
            lemma_spanless_eq_symmetric(*x, *y);
            lemma_spanless_eq_symmetric(*u, *v);
        },
        _ => {},
    }
}

/// Two names bound to different declarations are unequal, also where they are
/// spelled alike, as a name and the one that shadows it are.
pub proof fn lemma_shadowed_names_differ(
    name: String,
    outer: BindingId,
    inner: BindingId,
    outer_span: Span,
    inner_span: Span,
)
    requires
        outer != inner,
    ensures
        !spanless_eq(
            Expr { kind: ExprKind::Path(QPath::Resolved { name, binding: outer }), span: outer_span },
            Expr { kind: ExprKind::Path(QPath::Resolved { name, binding: inner }), span: inner_span },
        ),
{
}

/// Where an expression stands has no part in the verdict.
pub proof fn lemma_span_is_ignored(a: Expr, b: Expr, span: Span)
    ensures
        spanless_eq(Expr { kind: a.kind, span }, b) == spanless_eq(a, b),
        spanless_eq(b, Expr { kind: a.kind, span }) == spanless_eq(b, a),
    decreases b,
{
    match b.kind {
        ExprKind::Paren(y) => {
            lemma_span_is_ignored(a, *y, span);
        },
        _ => {},
    }
}

/// Parentheses around an expression have no part in the verdict.
pub proof fn lemma_parentheses_are_transparent(a: Expr, b: Expr, span: Span)
    ensures
        spanless_eq(Expr { kind: ExprKind::Paren(Box::new(a)), span }, b) == spanless_eq(a, b),
        spanless_eq(b, Expr { kind: ExprKind::Paren(Box::new(a)), span }) == spanless_eq(b, a),
    decreases a, b,
{
    match (a.kind, b.kind) {
        (ExprKind::Paren(x), ExprKind::Paren(y)) => {
            lemma_parentheses_are_transparent(*x, *y, a.span);
            assert(a == Expr { kind: ExprKind::Paren(Box::new(*x)), span: a.span });
        },
        _ => {},
    }
}

/// An expression of a kind that is not looked into equals nothing.
pub proof fn lemma_other_equals_nothing(a: Expr, b: Expr)
    requires
        a.kind is Other,
    ensures
        !spanless_eq(a, b),
        !spanless_eq(b, a),
    decreases b,
{
    match b.kind {
        ExprKind::Paren(y) => {
            lemma_other_equals_nothing(a, *y);
        },
        _ => {},
    }
}

/// Two expressions are written alike when they differ in nothing but their
/// spans and the spans of the expressions below them: one expression, written
/// at two places.
pub open spec fn written_alike(a: Expr, b: Expr) -> bool
    decreases a,
{
    match (a.kind, b.kind) {
        (
            ExprKind::Path(QPath::Resolved { name: m, binding: x }),
            ExprKind::Path(QPath::Resolved { name: n, binding: y }),
        ) => m@ == n@ && x == y,
        (
            ExprKind::Path(QPath::TypeRelative { receiver: s, member: m }),
            ExprKind::Path(QPath::TypeRelative { receiver: t, member: n }),
        ) => s == t && m@ == n@,
        (ExprKind::Lit(l), ExprKind::Lit(m)) => same_literal(l, m),
        (
            ExprKind::Field { base: x, field: f },
            ExprKind::Field { base: y, field: g },
        ) => f@ == g@ && written_alike(*x, *y),
        (
            ExprKind::Index { base: x, index: i },
            ExprKind::Index { base: y, index: j },
        ) => written_alike(*x, *y) && written_alike(*i, *j),
        (
            ExprKind::MethodCall { receiver: x, method: m, args: xs },
            ExprKind::MethodCall { receiver: y, method: n, args: ys },
        ) => {
            &&& m@ == n@
            &&& written_alike(*x, *y)
            &&& xs@.len() == ys@.len()
            &&& forall|k: int| 0 <= k < xs@.len() ==> written_alike(xs@[k], ys@[k])
        },
        (
            ExprKind::Call { callee: x, args: xs },
            ExprKind::Call { callee: y, args: ys },
        ) => {
            &&& written_alike(*x, *y)
            &&& xs@.len() == ys@.len()
            &&& forall|k: int| 0 <= k < xs@.len() ==> written_alike(xs@[k], ys@[k])
        },
        (
            ExprKind::Unary { op: o, operand: x },
            ExprKind::Unary { op: p, operand: y },
        ) => o == p && written_alike(*x, *y),
        (
            ExprKind::Binary { op: o, lhs: x, rhs: u },
            ExprKind::Binary { op: p, lhs: y, rhs: v },
        ) => o == p && written_alike(*x, *y) && written_alike(*u, *v),
        (ExprKind::Paren(x), ExprKind::Paren(y)) => written_alike(*x, *y),
        (ExprKind::Other, ExprKind::Other) => true,
        _ => false,
    }
}

/// A recognized expression equals every expression that is written like it,
/// wherever the two stand.
pub proof fn lemma_written_alike_is_equal(a: Expr, b: Expr)
    requires
        written_alike(a, b),
        recognized(a),
    ensures
        spanless_eq(a, b),
    decreases a,
{
    match (a.kind, b.kind) {
        (ExprKind::Field { base: x, .. }, ExprKind::Field { base: y, .. }) => {
            lemma_written_alike_is_equal(*x, *y);
        },
        (ExprKind::Index { base: x, index: i }, ExprKind::Index { base: y, index: j }) => {
            lemma_written_alike_is_equal(*x, *y);
            lemma_written_alike_is_equal(*i, *j);
        },
        (
            ExprKind::MethodCall { receiver: x, args: xs, .. },
            ExprKind::MethodCall { receiver: y, args: ys, .. },
        ) => {
            lemma_written_alike_is_equal(*x, *y);
            assert forall|k: int| 0 <= k < xs@.len() implies spanless_eq(xs@[k], ys@[k]) by {
                lemma_written_alike_is_equal(xs@[k], ys@[k]);
            }
        },
        (ExprKind::Call { callee: x, args: xs }, ExprKind::Call { callee: y, args: ys }) => {
            lemma_written_alike_is_equal(*x, *y);
            assert forall|k: int| 0 <= k < xs@.len() implies spanless_eq(xs@[k], ys@[k]) by {
                lemma_written_alike_is_equal(xs@[k], ys@[k]);
            }
        },
        (ExprKind::Unary { operand: x, .. }, ExprKind::Unary { operand: y, .. }) => {
            lemma_written_alike_is_equal(*x, *y);
        },
        (ExprKind::Binary { lhs: x, rhs: u, .. }, ExprKind::Binary { lhs: y, rhs: v, .. }) => {
            lemma_written_alike_is_equal(*x, *y);
            lemma_written_alike_is_equal(*u, *v);
        },
        (ExprKind::Paren(x), ExprKind::Paren(y)) => {
            lemma_written_alike_is_equal(*x, *y);
        },
        _ => {},
    }
}

/// A call of the constructor on one of the two buffer types, with three
/// arguments of which the second and the third are one recognized expression
/// written twice, is flagged.
pub proof fn lemma_repeated_expression_is_flagged(registry: TypeRegistry, call: Expr, ty: TypeId)
    requires
        callee_receiver(call) == Some(Some(ty)),
        ty == registry.dynamic_array || ty == registry.text_buffer,
        callee_member(call) == Some(constructor_name()),
        call_args(call).len() == 3,
        written_alike(call_args(call)[1], call_args(call)[2]),
        recognized(call_args(call)[1]),
    ensures
        flagged(registry, call),
{
    lemma_written_alike_is_equal(call_args(call)[1], call_args(call)[2]);
}

/// A call whose length and capacity are not equal up to span is not flagged,
/// whatever it calls.
pub proof fn lemma_distinct_expressions_are_not_flagged(registry: TypeRegistry, call: Expr)
    requires
        !spanless_eq(call_args(call)[1], call_args(call)[2]),
    ensures
        !flagged(registry, call),
{
}

/// A call on a receiver that is neither of the two buffer types is not
/// flagged, whatever its arguments are.
pub proof fn lemma_other_receiver_is_not_flagged(registry: TypeRegistry, call: Expr)
    requires
        callee_receiver(call) matches Some(receiver) ==> registry.kind_of(receiver)
            == BufferKind::Other,
    ensures
        !flagged(registry, call),
{
}

/// A call with more or fewer than three arguments is not flagged.
pub proof fn lemma_other_argument_count_is_not_flagged(registry: TypeRegistry, call: Expr)
    requires
        call_args(call).len() != 3,
    ensures
        !flagged(registry, call),
{
}

} // verus!
