//! The rule itself: find a buffer rebuilt from raw parts, compare the length
//! and the capacity that it is given, and advise where they are one expression.

use vstd::prelude::*;
use crate::classify::{BufferKind, TypeId, TypeRegistry};
use crate::expr::{Expr, ExprKind, QPath, Span};
use crate::spanless::{eq_expr, spanless_eq};

verus! {

/// How much weight a diagnostic carries.
#[derive(Clone, Copy, Debug, PartialEq, Eq, Structural)]
pub enum Severity {
    /// A warning of a likely defect. It stops no build.
    Advisory,
    /// A defect that stops the build.
    Blocking,
}

/// What the rule tells the author of the code.
#[derive(Debug)]
pub struct Diagnostic {
    /// The whole call.
    pub span: Span,
    pub severity: Severity,
    pub message: String,
    pub help: String,
}

/// A call that rebuilds a buffer from a pointer, a length and a capacity.
#[derive(Debug)]
pub struct RawPartsCall<'a> {
    /// The buffer type that is rebuilt; never `Other`.
    pub kind: BufferKind,
    /// The second argument.
    pub length: &'a Expr,
    /// The third argument.
    pub capacity: &'a Expr,
}

/// The name under which both buffer types offer the constructor.
pub open spec fn constructor_name() -> Seq<char> {
    "from_raw_parts"@
}

/// The message for a buffer type; none for `Other`.
pub open spec fn message_for(kind: BufferKind) -> Seq<char> {
    match kind {
        BufferKind::DynamicArray =>
            "usage of `Vec::from_raw_parts` with the same expression for length and capacity"@,
        BufferKind::TextBuffer =>
            "usage of `String::from_raw_parts` with the same expression for length and capacity"@,
        BufferKind::Other => Seq::empty(),
    }
}

/// The advice for a buffer type; none for `Other`.
pub open spec fn help_for(kind: BufferKind) -> Seq<char> {
    match kind {
        BufferKind::DynamicArray =>
            "if the length and capacity are the same, you most likely went through a boxed slice; consider reconstructing the `Vec` using a `Box` instead, e.g. `Box::from(slice::from_raw_parts(...)).into_vec()`"@,
        BufferKind::TextBuffer =>
            "if the length and capacity are the same, you most likely went through a boxed `str`; consider reconstructing the `String` using `String::from` instead, e.g. `String::from(str::from_utf8_unchecked(slice::from_raw_parts(...)))`"@,
        BufferKind::Other => Seq::empty(),
    }
}

/// The type on which a call looks its callee up: `Some` for a call whose
/// callee is a member of a type, with the resolved type inside (`None` where
/// it is not resolved).
pub open spec fn callee_receiver(e: Expr) -> Option<Option<TypeId>> {
    match e.kind {
        ExprKind::Call { callee, .. } => match callee.kind {
            ExprKind::Path(QPath::TypeRelative { receiver, .. }) => Some(receiver),
            _ => None,
        },
        _ => None,
    }
}

/// The member that a call names, for a call whose callee is a member of a type.
pub open spec fn callee_member(e: Expr) -> Option<Seq<char>> {
    match e.kind {
        ExprKind::Call { callee, .. } => match callee.kind {
            ExprKind::Path(QPath::TypeRelative { member, .. }) => Some(member@),
            _ => None,
        },
        _ => None,
    }
}

/// The arguments of a call; of any other expression, none.
pub open spec fn call_args(e: Expr) -> Seq<Expr> {
    match e.kind {
        ExprKind::Call { args, .. } => args@,
        _ => Seq::empty(),
    }
}

/// The buffer type that an expression rebuilds from raw parts: that of the
/// receiver, where the expression is a call of the constructor, by its name, on
/// a type, with exactly three arguments. `Other` for every other expression.
pub open spec fn rebuilt_kind(registry: TypeRegistry, e: Expr) -> BufferKind {
    if callee_receiver(e) is Some && callee_member(e) == Some(constructor_name())
        && call_args(e).len() == 3 {
        registry.kind_of(callee_receiver(e)->0)
    } else {
        BufferKind::Other
    }
}

/// The rule flags an expression that rebuilds one of the two buffer types
/// with a length and a capacity that are equal up to span.
pub open spec fn flagged(registry: TypeRegistry, e: Expr) -> bool {
    &&& rebuilt_kind(registry, e) != BufferKind::Other
    &&& spanless_eq(call_args(e)[1], call_args(e)[2])
}

/// The diagnostic of a buffer type at a span is advisory and carries the
/// message and the advice of that type.
pub open spec fn is_diagnostic_for(d: Diagnostic, kind: BufferKind, span: Span) -> bool {
    &&& d.span == span
    &&& d.severity == Severity::Advisory
    &&& d.message@ == message_for(kind)
    &&& d.help@ == help_for(kind)
}

/// Tells whether a member's name is that of the constructor.
pub fn is_constructor_name(member: &String) -> (yes: bool)
    ensures
        yes == (member@ == constructor_name()),
{
    let wanted = "from_raw_parts".to_owned();
    *member == wanted
}

/// Finds the call shape. A call matches when its callee is the constructor
/// looked up on one of the two buffer types and it has three arguments; the
/// result then holds the buffer type, the second and the third argument.
pub fn match_call<'a>(registry: &TypeRegistry, expr: &'a Expr) -> (found: Option<RawPartsCall<'a>>)
    ensures
        found is Some <==> rebuilt_kind(*registry, *expr) != BufferKind::Other,
        found matches Some(call) ==> {
            &&& call.kind == rebuilt_kind(*registry, *expr)
            &&& *call.length == call_args(*expr)[1]
            &&& *call.capacity == call_args(*expr)[2]
        },
{
    match &expr.kind {
        ExprKind::Call { callee, args } => match &callee.kind {
            ExprKind::Path(QPath::TypeRelative { receiver, member }) => {
                let kind = registry.classify(*receiver);
                if kind != BufferKind::Other && is_constructor_name(member) && args.len() == 3 {
                    Some(RawPartsCall { kind, length: &args[1], capacity: &args[2] })
                } else {
                    None
                }
            },
            _ => None,
        },
        _ => None,
    }
}

/// The message for a buffer type.
pub fn message(kind: BufferKind) -> (text: String)
    ensures
        text@ == message_for(kind),
{
    match kind {
        BufferKind::DynamicArray =>
            "usage of `Vec::from_raw_parts` with the same expression for length and capacity".to_owned(),
        BufferKind::TextBuffer =>
            "usage of `String::from_raw_parts` with the same expression for length and capacity".to_owned(),
        BufferKind::Other => String::new(),
    }
}

/// The advice for a buffer type.
pub fn help(kind: BufferKind) -> (text: String)
    ensures
        text@ == help_for(kind),
{
    match kind {
        BufferKind::DynamicArray =>
            "if the length and capacity are the same, you most likely went through a boxed slice; consider reconstructing the `Vec` using a `Box` instead, e.g. `Box::from(slice::from_raw_parts(...)).into_vec()`".to_owned(),
        BufferKind::TextBuffer =>
            "if the length and capacity are the same, you most likely went through a boxed `str`; consider reconstructing the `String` using `String::from` instead, e.g. `String::from(str::from_utf8_unchecked(slice::from_raw_parts(...)))`".to_owned(),
        BufferKind::Other => String::new(),
    }
}

/// Decides what to emit for a call of known shape, given the verdict on its
/// length and capacity: one advisory diagnostic at the call's span where a
/// buffer type is rebuilt and the verdict is that the two are equal, and
/// nothing otherwise.
pub fn report(kind: BufferKind, span: Span, same: bool) -> (emitted: Option<Diagnostic>)
    ensures
        emitted is Some <==> kind != BufferKind::Other && same,
        emitted matches Some(d) ==> is_diagnostic_for(d, kind, span),
{
    if same && kind != BufferKind::Other {
        Some(Diagnostic { span, severity: Severity::Advisory, message: message(kind), help: help(kind) })
    } else {
        None
    }
}

/// Checks one expression: where it is flagged, the diagnostic of the buffer
/// type that it rebuilds, at the span of the whole call; otherwise nothing.
pub fn check(registry: &TypeRegistry, expr: &Expr) -> (emitted: Option<Diagnostic>)
    ensures
        emitted is Some <==> flagged(*registry, *expr),
        emitted matches Some(d) ==> is_diagnostic_for(d, rebuilt_kind(*registry, *expr), expr.span),
{
    match match_call(registry, expr) {
        Some(call) => {
            let same = eq_expr(call.length, call.capacity);
            report(call.kind, expr.span, same)
        },
        None => None,
    }
}

} // verus!
