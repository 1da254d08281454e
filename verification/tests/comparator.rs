use same_length_and_capacity::classify::TypeId;
use same_length_and_capacity::expr::{BinOp, BindingId, Expr, ExprKind, Literal, QPath, Span, UnOp};
use same_length_and_capacity::spanless::{eq_expr, eq_exprs, eq_literal, eq_path};

fn at(lo: u32, kind: ExprKind) -> Expr {
    Expr::new(kind, Span { lo, hi: lo + 1 })
}

fn local(lo: u32, name: &str, binding: u64) -> Expr {
    at(lo, ExprKind::Path(QPath::Resolved { name: name.to_string(), binding: BindingId(binding) }))
}

fn number(lo: u32, value: u128) -> Expr {
    at(lo, ExprKind::Lit(Literal::Int(value)))
}

fn paren(lo: u32, inner: Expr) -> Expr {
    at(lo, ExprKind::Paren(Box::new(inner)))
}

fn binary(lo: u32, op: BinOp, lhs: Expr, rhs: Expr) -> Expr {
    at(lo, ExprKind::Binary { op, lhs: Box::new(lhs), rhs: Box::new(rhs) })
}

fn field(lo: u32, base: Expr, name: &str) -> Expr {
    at(lo, ExprKind::Field { base: Box::new(base), field: name.to_string() })
}

fn method(lo: u32, receiver: Expr, name: &str, args: Vec<Expr>) -> Expr {
    at(lo, ExprKind::MethodCall { receiver: Box::new(receiver), method: name.to_string(), args })
}

/// `v.len() + (x.n[0] - 1)`, every node placed from `lo` on.
fn sample(lo: u32) -> Expr {
    let index = at(
        lo + 4,
        ExprKind::Index { base: Box::new(field(lo + 5, local(lo + 6, "x", 2), "n")), index: Box::new(number(lo + 7, 0)) },
    );
    binary(
        lo,
        BinOp::Add,
        method(lo + 1, local(lo + 2, "v", 1), "len", vec![]),
        paren(lo + 3, binary(lo + 3, BinOp::Sub, index, number(lo + 8, 1))),
    )
}

#[test]
fn an_expression_equals_itself() {
    let e = sample(0);
    assert!(eq_expr(&e, &e));
    let name = local(0, "len", 7);
    assert!(eq_expr(&name, &name));
}

#[test]
fn the_verdict_ignores_spans_at_every_depth() {
    assert!(eq_expr(&sample(0), &sample(100)));
}

#[test]
fn the_verdict_is_the_same_in_both_orders() {
    let pairs = vec![
        (sample(0), sample(20)),
        (local(0, "len", 1), local(1, "cap", 2)),
        (local(0, "len", 1), binary(1, BinOp::Add, local(2, "len", 1), number(3, 0))),
        (paren(0, number(1, 3)), number(2, 3)),
        (number(0, 3), at(1, ExprKind::Other)),
    ];
    for (a, b) in pairs.iter() {
        assert_eq!(eq_expr(a, b), eq_expr(b, a));
    }
}

#[test]
fn shadowed_names_are_unequal() {
    let outer = local(0, "len", 1);
    let inner = local(9, "len", 2);
    assert!(!eq_expr(&outer, &inner));
    assert!(!eq_expr(&inner, &outer));
}

#[test]
fn names_compare_by_binding_and_not_by_spelling() {
    assert!(eq_expr(&local(0, "len", 1), &local(5, "renamed", 1)));
    assert!(!eq_expr(&local(0, "len", 1), &local(0, "len", 3)));
}

#[test]
fn literals_compare_by_kind_and_value() {
    assert!(eq_literal(&Literal::Int(8), &Literal::Int(8)));
    assert!(!eq_literal(&Literal::Int(8), &Literal::Int(9)));
    assert!(eq_literal(&Literal::Bool(true), &Literal::Bool(true)));
    assert!(!eq_literal(&Literal::Bool(true), &Literal::Bool(false)));
    assert!(eq_literal(&Literal::Char('a'), &Literal::Char('a')));
    assert!(!eq_literal(&Literal::Char('a'), &Literal::Char('b')));
    assert!(eq_literal(&Literal::Str("ab".to_string()), &Literal::Str("ab".to_string())));
    assert!(!eq_literal(&Literal::Str("ab".to_string()), &Literal::Str("ba".to_string())));
    assert!(!eq_literal(&Literal::Int(1), &Literal::Bool(true)));
    assert!(!eq_literal(&Literal::Char('1'), &Literal::Str("1".to_string())));
}

#[test]
fn members_compare_by_type_and_name() {
    let member = |ty: Option<u64>, name: &str| QPath::TypeRelative {
        receiver: ty.map(TypeId),
        member: name.to_string(),
    };
    assert!(eq_path(&member(Some(1), "new"), &member(Some(1), "new")));
    assert!(!eq_path(&member(Some(1), "new"), &member(Some(2), "new")));
    assert!(!eq_path(&member(Some(1), "new"), &member(Some(1), "default")));
    assert!(!eq_path(&member(Some(1), "new"), &member(None, "new")));
    assert!(eq_path(&member(None, "new"), &member(None, "new")));
    let name = QPath::Resolved { name: "new".to_string(), binding: BindingId(1) };
    assert!(!eq_path(&member(Some(1), "new"), &name));
    assert!(!eq_path(&name, &member(Some(1), "new")));
}

#[test]
fn parentheses_are_transparent() {
    let bare = local(0, "len", 1);
    let once = paren(1, local(2, "len", 1));
    let twice = paren(3, paren(4, local(5, "len", 1)));
    assert!(eq_expr(&once, &bare));
    assert!(eq_expr(&bare, &once));
    assert!(eq_expr(&twice, &bare));
    assert!(eq_expr(&bare, &twice));
    assert!(eq_expr(&twice, &once));
    assert!(eq_expr(&once, &twice));
    assert!(!eq_expr(&twice, &local(0, "cap", 2)));
    assert!(!eq_expr(&local(0, "cap", 2), &twice));
}

#[test]
fn numerically_equal_but_differently_built_is_unequal() {
    let len = local(0, "len", 1);
    let len_plus_zero = binary(1, BinOp::Add, local(2, "len", 1), number(3, 0));
    assert!(!eq_expr(&len, &len_plus_zero));
    assert!(!eq_expr(&len_plus_zero, &len));
}

#[test]
fn compound_expressions_compare_operator_and_operands() {
    let a = || local(0, "a", 1);
    let b = || local(0, "b", 2);
    assert!(eq_expr(&binary(0, BinOp::Add, a(), b()), &binary(9, BinOp::Add, a(), b())));
    assert!(!eq_expr(&binary(0, BinOp::Add, a(), b()), &binary(0, BinOp::Sub, a(), b())));
    assert!(!eq_expr(&binary(0, BinOp::Add, a(), b()), &binary(0, BinOp::Add, b(), a())));
    assert!(!eq_expr(&binary(0, BinOp::Add, a(), b()), &binary(0, BinOp::Add, a(), a())));
    let unary = |op: UnOp, e: Expr| at(0, ExprKind::Unary { op, operand: Box::new(e) });
    assert!(eq_expr(&unary(UnOp::Neg, a()), &unary(UnOp::Neg, a())));
    assert!(!eq_expr(&unary(UnOp::Neg, a()), &unary(UnOp::Not, a())));
    assert!(!eq_expr(&unary(UnOp::Deref, a()), &unary(UnOp::Deref, b())));
    assert!(!eq_expr(&unary(UnOp::Deref, a()), &a()));
}

#[test]
fn field_and_index_compare_base_and_selector() {
    let a = || local(0, "a", 1);
    let b = || local(0, "b", 2);
    assert!(eq_expr(&field(0, a(), "len"), &field(7, a(), "len")));
    assert!(!eq_expr(&field(0, a(), "len"), &field(0, a(), "cap")));
    assert!(!eq_expr(&field(0, a(), "len"), &field(0, b(), "len")));
    let index = |base: Expr, i: Expr| at(0, ExprKind::Index { base: Box::new(base), index: Box::new(i) });
    assert!(eq_expr(&index(a(), number(0, 1)), &index(a(), number(4, 1))));
    assert!(!eq_expr(&index(a(), number(0, 1)), &index(a(), number(0, 2))));
    assert!(!eq_expr(&index(a(), number(0, 1)), &index(b(), number(0, 1))));
    assert!(!eq_expr(&index(a(), number(0, 1)), &field(0, a(), "len")));
}

#[test]
fn calls_compare_callee_and_every_argument() {
    let a = || local(0, "a", 1);
    let f = || local(0, "f", 5);
    let g = || local(0, "g", 6);
    let call = |callee: Expr, args: Vec<Expr>| at(0, ExprKind::Call { callee: Box::new(callee), args });
    assert!(eq_expr(&call(f(), vec![a(), number(0, 1)]), &call(f(), vec![a(), number(3, 1)])));
    assert!(!eq_expr(&call(f(), vec![a(), number(0, 1)]), &call(g(), vec![a(), number(0, 1)])));
    assert!(!eq_expr(&call(f(), vec![a(), number(0, 1)]), &call(f(), vec![a(), number(0, 2)])));
    assert!(!eq_expr(&call(f(), vec![a(), number(0, 1)]), &call(f(), vec![a()])));
    assert!(!eq_expr(&call(f(), vec![a()]), &call(f(), vec![a(), number(0, 1)])));
    assert!(eq_expr(&method(0, a(), "len", vec![]), &method(5, a(), "len", vec![])));
    assert!(!eq_expr(&method(0, a(), "len", vec![]), &method(0, a(), "capacity", vec![])));
    assert!(!eq_expr(&method(0, a(), "len", vec![]), &method(0, f(), "len", vec![])));
    assert!(!eq_expr(&method(0, a(), "get", vec![number(0, 1)]), &method(0, a(), "get", vec![number(0, 2)])));
    assert!(!eq_expr(&method(0, a(), "len", vec![]), &call(a(), vec![])));
}

#[test]
fn argument_lists_compare_place_by_place() {
    assert!(eq_exprs(&vec![], &vec![]));
    assert!(eq_exprs(&vec![number(0, 1), number(1, 2)], &vec![number(5, 1), number(6, 2)]));
    assert!(!eq_exprs(&vec![number(0, 1), number(1, 2)], &vec![number(0, 2), number(1, 1)]));
    assert!(!eq_exprs(&vec![number(0, 1)], &vec![number(0, 1), number(1, 2)]));
    assert!(!eq_exprs(&vec![number(0, 1), number(1, 2)], &vec![number(0, 1)]));
    assert!(!eq_exprs(&vec![number(0, 1), number(1, 2)], &vec![number(0, 1), number(1, 3)]));
}

#[test]
fn an_unrecognized_kind_equals_nothing() {
    let other = at(0, ExprKind::Other);
    assert!(!eq_expr(&other, &other));
    assert!(!eq_expr(&other, &at(0, ExprKind::Other)));
    assert!(!eq_expr(&other, &number(0, 1)));
    assert!(!eq_expr(&number(0, 1), &other));
    assert!(!eq_expr(&paren(0, at(1, ExprKind::Other)), &other));
    let holds_other = binary(0, BinOp::Add, number(1, 1), at(2, ExprKind::Other));
    assert!(!eq_expr(&holds_other, &holds_other));
}

#[test]
fn different_kinds_are_unequal() {
    let name = local(0, "a", 1);
    let member = at(0, ExprKind::Path(QPath::TypeRelative { receiver: Some(TypeId(1)), member: "a".to_string() }));
    assert!(!eq_expr(&name, &number(0, 1)));
    assert!(!eq_expr(&number(0, 1), &name));
    assert!(!eq_expr(&name, &member));
    assert!(!eq_expr(&field(0, local(0, "a", 1), "b"), &name));
    assert!(!eq_expr(&at(0, ExprKind::Lit(Literal::Bool(true))), &number(0, 1)));
}
