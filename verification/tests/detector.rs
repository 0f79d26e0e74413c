use mutable_debug_assertion::context::{Adjustment, LateContext, TyKind, TypeckTables};
use mutable_debug_assertion::hir::{
    Arm, Block, BorrowKind, Expr, ExprKind, HirId, MatchSource, Mutability, Stmt, StmtKind, UnOp,
};
use mutable_debug_assertion::span::{HygieneData, Span};
use mutable_debug_assertion::visitor::{walk_expr, walk_exprs, MutArgVisitor};
use std::collections::HashMap;

fn sp(lo: u32, hi: u32) -> Span {
    Span { lo, hi, ctxt: 0 }
}

fn node(id: u32, kind: ExprKind, span: Span) -> Expr {
    Expr { hir_id: HirId(id), kind, span }
}

fn path(id: u32, span: Span) -> Expr {
    node(id, ExprKind::Path, span)
}

fn lit(id: u32, span: Span) -> Expr {
    node(id, ExprKind::Lit, span)
}

fn borrow(id: u32, mutability: Mutability, inner: Expr, span: Span) -> Expr {
    node(id, ExprKind::AddrOf(BorrowKind::Ref, mutability, Box::new(inner)), span)
}

fn call(id: u32, callee: Expr, args: Vec<Expr>, span: Span) -> Expr {
    node(id, ExprKind::Call(Box::new(callee), args), span)
}

fn method_call(id: u32, args: Vec<Expr>, span: Span) -> Expr {
    node(id, ExprKind::MethodCall(args), span)
}

fn context(coerced: Vec<(u32, TyKind)>) -> LateContext {
    let mut adjustments = HashMap::new();
    for (id, target) in coerced {
        adjustments.insert(id, vec![Adjustment { target }]);
    }
    LateContext {
        tables: TypeckTables { adjustments },
        hygiene: HygieneData { expansions: HashMap::new() },
    }
}

fn search(cx: &LateContext, e: &Expr) -> Option<Span> {
    let mut visitor = MutArgVisitor::new(cx);
    visitor.visit_expr(e);
    visitor.expr_span()
}

/// `foo(&mut x)` at 10..21
fn foo_of_mut_x(first_id: u32, at: u32) -> Expr {
    call(
        first_id,
        path(first_id + 1, sp(at, at + 3)),
        vec![borrow(first_id + 2, Mutability::Mut, path(first_id + 3, sp(at + 9, at + 10)), sp(at + 4, at + 10))],
        sp(at, at + 11),
    )
}

#[test]
fn a_fresh_search_has_no_answer() {
    let cx = context(vec![]);
    let visitor = MutArgVisitor::new(&cx);
    assert_eq!(visitor.expr_span(), None);
}

#[test]
fn a_call_with_a_mutable_borrow_is_the_answer() {
    let cx = context(vec![]);
    assert_eq!(search(&cx, &foo_of_mut_x(1, 10)), Some(sp(10, 21)));
}

#[test]
fn a_call_with_a_shared_borrow_has_no_answer() {
    let cx = context(vec![]);
    let e = call(
        1,
        path(2, sp(10, 13)),
        vec![borrow(3, Mutability::Not, path(4, sp(15, 16)), sp(14, 16))],
        sp(10, 17),
    );
    assert_eq!(search(&cx, &e), None);
}

#[test]
fn a_raw_mutable_borrow_has_no_answer() {
    let cx = context(vec![]);
    let raw = node(
        3,
        ExprKind::AddrOf(BorrowKind::Raw, Mutability::Mut, Box::new(path(4, sp(23, 24)))),
        sp(14, 24),
    );
    let e = call(1, path(2, sp(10, 13)), vec![raw], sp(10, 25));
    assert_eq!(search(&cx, &e), None);
}

#[test]
fn a_coerced_receiver_makes_the_method_call_the_answer() {
    // v.pop(), with `v` coerced to `&mut Vec<_>`
    let cx = context(vec![(2, TyKind::Ref(Mutability::Mut))]);
    let e = method_call(1, vec![path(2, sp(30, 31))], sp(30, 37));
    assert_eq!(search(&cx, &e), Some(sp(30, 37)));
}

#[test]
fn a_receiver_coerced_to_a_shared_reference_has_no_answer() {
    let cx = context(vec![(2, TyKind::Ref(Mutability::Not)), (3, TyKind::RawPtr(Mutability::Mut))]);
    let e = method_call(1, vec![path(2, sp(30, 31)), path(3, sp(36, 37))], sp(30, 38));
    assert_eq!(search(&cx, &e), None);
}

#[test]
fn a_coercion_counts_for_names_only() {
    // the table names the literal, which is no name
    let cx = context(vec![(2, TyKind::Ref(Mutability::Mut))]);
    let e = method_call(1, vec![lit(2, sp(30, 31))], sp(30, 37));
    assert_eq!(search(&cx, &e), None);
}

#[test]
fn a_mutable_borrow_that_is_the_operand_has_no_answer() {
    let cx = context(vec![]);
    let e = borrow(1, Mutability::Mut, path(2, sp(5, 6)), sp(0, 6));
    let mut visitor = MutArgVisitor::new(&cx);
    visitor.visit_expr(&e);
    assert_eq!(visitor.expr_span(), None);
    // the search is over all the same: what follows changes nothing
    visitor.visit_expr(&lit(3, sp(8, 9)));
    assert_eq!(visitor.expr_span(), None);
}

#[test]
fn a_coerced_name_that_is_the_operand_has_no_answer() {
    let cx = context(vec![(1, TyKind::Ref(Mutability::Mut))]);
    assert_eq!(search(&cx, &path(1, sp(5, 6))), None);
}

#[test]
fn what_an_await_was_lowered_to_is_not_looked_into() {
    let cx = context(vec![]);
    let awaited = node(
        1,
        ExprKind::Match(
            Box::new(foo_of_mut_x(2, 10)),
            vec![Arm { pat: vec![], guard: None, body: foo_of_mut_x(6, 40) }],
            MatchSource::AwaitDesugar,
        ),
        sp(10, 27),
    );
    assert_eq!(search(&cx, &awaited), None);
    let negated = node(10, ExprKind::Unary(UnOp::UnNot, Box::new(awaited)), sp(9, 27));
    assert_eq!(search(&cx, &negated), None);
}

#[test]
fn any_other_match_is_looked_into() {
    let cx = context(vec![]);
    for source in [
        MatchSource::Normal,
        MatchSource::IfDesugar { contains_else_clause: true },
        MatchSource::IfLetDesugar { contains_else_clause: false },
        MatchSource::WhileDesugar,
        MatchSource::WhileLetDesugar,
        MatchSource::ForLoopDesugar,
        MatchSource::TryDesugar,
    ] {
        let e = node(1, ExprKind::Match(Box::new(foo_of_mut_x(2, 10)), vec![], source), sp(4, 30));
        assert_eq!(search(&cx, &e), Some(sp(10, 21)));
    }
}

#[test]
fn the_innermost_expression_around_the_borrow_is_the_answer() {
    // outer(inner(&mut x))
    let cx = context(vec![]);
    let e = call(10, path(11, sp(0, 5)), vec![foo_of_mut_x(1, 6)], sp(0, 18));
    assert_eq!(search(&cx, &e), Some(sp(6, 17)));
}

#[test]
fn an_earlier_argument_does_not_take_the_answer() {
    // foo(1, &mut x): the literal is entered and left before the borrow
    let cx = context(vec![]);
    let e = call(
        1,
        path(2, sp(10, 13)),
        vec![lit(3, sp(14, 15)), borrow(4, Mutability::Mut, path(5, sp(22, 23)), sp(17, 23))],
        sp(10, 24),
    );
    assert_eq!(search(&cx, &e), Some(sp(10, 24)));
    // foo(bar(y), &mut x): so is the call of bar
    let bar = call(6, path(7, sp(14, 17)), vec![path(8, sp(18, 19))], sp(14, 20));
    let e = call(
        1,
        path(2, sp(10, 13)),
        vec![bar, borrow(4, Mutability::Mut, path(5, sp(27, 28)), sp(22, 28))],
        sp(10, 29),
    );
    assert_eq!(search(&cx, &e), Some(sp(10, 29)));
}

#[test]
fn names_before_the_borrow_leave_no_span() {
    // foo(a, b, &mut x)
    let cx = context(vec![]);
    let e = call(
        1,
        path(2, sp(10, 13)),
        vec![
            path(3, sp(14, 15)),
            path(4, sp(17, 18)),
            borrow(5, Mutability::Mut, path(6, sp(25, 26)), sp(20, 26)),
        ],
        sp(10, 27),
    );
    assert_eq!(search(&cx, &e), Some(sp(10, 27)));
}

#[test]
fn the_first_mutable_use_wins() {
    // foo(&mut x, bar(&mut y))
    let cx = context(vec![]);
    let e = call(
        1,
        path(2, sp(10, 13)),
        vec![borrow(3, Mutability::Mut, path(4, sp(19, 20)), sp(14, 20)), foo_of_mut_x(5, 22)],
        sp(10, 34),
    );
    assert_eq!(search(&cx, &e), Some(sp(10, 34)));
}

#[test]
fn a_search_that_is_over_changes_no_more() {
    let cx = context(vec![]);
    let mut visitor = MutArgVisitor::new(&cx);
    visitor.visit_expr(&foo_of_mut_x(1, 10));
    assert_eq!(visitor.expr_span(), Some(sp(10, 21)));
    visitor.visit_expr(&foo_of_mut_x(5, 50));
    assert_eq!(visitor.expr_span(), Some(sp(10, 21)));
    visitor.visit_expr(&lit(9, sp(70, 71)));
    assert_eq!(visitor.expr_span(), Some(sp(10, 21)));
}

#[test]
fn a_node_that_is_left_gives_its_span_back() {
    let cx = context(vec![]);
    let mut visitor = MutArgVisitor::new(&cx);
    visitor.visit_expr(&lit(1, sp(70, 71)));
    assert_eq!(visitor.expr_span(), None);
    // the borrow ends the search, and nothing is around it
    visitor.visit_expr(&borrow(2, Mutability::Mut, path(3, sp(85, 86)), sp(80, 86)));
    assert_eq!(visitor.expr_span(), None);
}

#[test]
fn the_answer_is_the_expression_around_the_mutable_use() {
    let cx = context(vec![]);
    // match a { _ if b => 1, _ => &mut y }: the match, not the literal
    let e = node(
        100,
        ExprKind::Match(
            Box::new(path(1, sp(6, 7))),
            vec![
                Arm { pat: vec![], guard: Some(path(2, sp(20, 21))), body: lit(3, sp(25, 26)) },
                Arm { pat: vec![], guard: None, body: borrow(4, Mutability::Mut, path(5, sp(45, 46)), sp(40, 46)) },
            ],
            MatchSource::Normal,
        ),
        sp(0, 99),
    );
    assert_eq!(search(&cx, &e), Some(sp(0, 99)));
    // (1, (2, &mut x), foo(&mut y)): the inner tuple
    let inner = node(
        10,
        ExprKind::Tup(vec![lit(11, sp(5, 6)), borrow(12, Mutability::Mut, path(13, sp(13, 14)), sp(8, 14))]),
        sp(4, 15),
    );
    let e = node(20, ExprKind::Tup(vec![lit(21, sp(1, 2)), inner, foo_of_mut_x(30, 17)]), sp(0, 29));
    assert_eq!(search(&cx, &e), Some(sp(4, 15)));
    // { 1; 2; &mut x }: the block
    let e = node(
        40,
        ExprKind::Block(Block {
            stmts: vec![
                Stmt { kind: StmtKind::Semi(lit(41, sp(2, 3))), span: sp(2, 4) },
                Stmt { kind: StmtKind::Semi(lit(42, sp(5, 6))), span: sp(5, 7) },
            ],
            expr: Some(Box::new(borrow(43, Mutability::Mut, path(44, sp(13, 14)), sp(8, 14)))),
        }),
        sp(0, 16),
    );
    assert_eq!(search(&cx, &e), Some(sp(0, 16)));
}

#[test]
fn a_shared_borrow_is_entered() {
    // &foo(&mut x)
    let cx = context(vec![]);
    let e = borrow(10, Mutability::Not, foo_of_mut_x(1, 11), sp(10, 22));
    assert_eq!(search(&cx, &e), Some(sp(11, 22)));
    // &&mut x
    let e = borrow(10, Mutability::Not, borrow(1, Mutability::Mut, path(2, sp(16, 17)), sp(11, 17)), sp(10, 17));
    assert_eq!(search(&cx, &e), Some(sp(10, 17)));
}

#[test]
fn a_block_is_walked_statement_by_statement_and_then_its_value() {
    let cx = context(vec![]);
    let block = |stmts: Vec<StmtKind>, value: Option<Expr>| {
        node(
            100,
            ExprKind::Block(Block {
                stmts: stmts.into_iter().map(|kind| Stmt { kind, span: sp(0, 0) }).collect(),
                expr: value.map(Box::new),
            }),
            sp(0, 99),
        )
    };
    // { let a = foo(&mut x); bar(&mut y) }
    let e = block(vec![StmtKind::Local(vec![foo_of_mut_x(1, 10)])], Some(foo_of_mut_x(5, 30)));
    assert_eq!(search(&cx, &e), Some(sp(10, 21)));
    // { let a; fn item() {} 1; foo(&mut x) }
    let e = block(
        vec![StmtKind::Local(vec![]), StmtKind::Item, StmtKind::Semi(lit(9, sp(3, 4)))],
        Some(foo_of_mut_x(5, 30)),
    );
    assert_eq!(search(&cx, &e), Some(sp(30, 41)));
    // { foo(&mut x) } without a semicolon, as a statement
    let e = block(vec![StmtKind::Expr(foo_of_mut_x(1, 10))], None);
    assert_eq!(search(&cx, &e), Some(sp(10, 21)));
    // { &mut x; }: the block is what is around the borrow
    let e = block(vec![StmtKind::Semi(borrow(1, Mutability::Mut, path(2, sp(7, 8)), sp(2, 8)))], None);
    assert_eq!(search(&cx, &e), Some(sp(0, 99)));
    // { 1; 2 }
    let e = block(vec![StmtKind::Semi(lit(1, sp(2, 3)))], Some(lit(2, sp(5, 6))));
    assert_eq!(search(&cx, &e), None);
}

#[test]
fn a_match_is_walked_scrutinee_first_then_arm_by_arm() {
    let cx = context(vec![]);
    let matched = |scrutinee: Expr, arms: Vec<Arm>| {
        node(100, ExprKind::Match(Box::new(scrutinee), arms, MatchSource::Normal), sp(0, 99))
    };
    // match foo(&mut x) { _ => bar(&mut y) }
    let e = matched(foo_of_mut_x(1, 6), vec![Arm { pat: vec![], guard: None, body: foo_of_mut_x(5, 30) }]);
    assert_eq!(search(&cx, &e), Some(sp(6, 17)));
    // match a { _ if foo(&mut x) => bar(&mut y), _ => 1 }
    let e = matched(
        path(1, sp(6, 7)),
        vec![
            Arm { pat: vec![], guard: Some(foo_of_mut_x(2, 20)), body: foo_of_mut_x(6, 40) },
            Arm { pat: vec![], guard: None, body: lit(10, sp(60, 61)) },
        ],
    );
    assert_eq!(search(&cx, &e), Some(sp(20, 31)));
    // match a { _ if b => 1, _ => bar(&mut y) }
    let e = matched(
        path(1, sp(6, 7)),
        vec![
            Arm { pat: vec![], guard: Some(path(2, sp(20, 21))), body: lit(3, sp(25, 26)) },
            Arm { pat: vec![], guard: None, body: foo_of_mut_x(6, 40) },
        ],
    );
    assert_eq!(search(&cx, &e), Some(sp(40, 51)));
    // match a { _ => &mut y }: the match is what is around the borrow
    let e = matched(
        path(1, sp(6, 7)),
        vec![Arm { pat: vec![], guard: None, body: borrow(2, Mutability::Mut, path(3, sp(25, 26)), sp(20, 26)) }],
    );
    assert_eq!(search(&cx, &e), Some(sp(0, 99)));
}

#[test]
fn every_kind_hands_the_search_on_to_what_lies_beneath() {
    let cx = context(vec![]);
    let wrappers: Vec<fn(Expr) -> ExprKind> = vec![
        |e| ExprKind::DropTemps(Box::new(e)),
        |e| ExprKind::Unary(UnOp::UnDeref, Box::new(e)),
        |e| ExprKind::Unary(UnOp::UnNeg, Box::new(e)),
        |e| ExprKind::Tup(vec![e]),
        |e| ExprKind::MethodCall(vec![e]),
        |e| ExprKind::Other(vec![e]),
        |e| ExprKind::AddrOf(BorrowKind::Raw, Mutability::Not, Box::new(e)),
    ];
    for wrap in wrappers {
        let e = node(50, wrap(foo_of_mut_x(1, 10)), sp(0, 30));
        assert_eq!(search(&cx, &e), Some(sp(10, 21)));
        let e = node(50, wrap(lit(1, sp(10, 11))), sp(0, 30));
        assert_eq!(search(&cx, &e), None);
    }
}

#[test]
fn a_mutable_callee_makes_the_call_the_answer() {
    // (&mut f)(1)
    let cx = context(vec![]);
    let e = call(
        1,
        borrow(2, Mutability::Mut, path(3, sp(6, 7)), sp(1, 7)),
        vec![lit(4, sp(9, 10))],
        sp(0, 11),
    );
    assert_eq!(search(&cx, &e), Some(sp(0, 11)));
}

#[test]
fn walking_an_expression_leaves_its_own_span_out() {
    let cx = context(vec![]);
    let e = foo_of_mut_x(1, 10);
    let mut visitor = MutArgVisitor::new(&cx);
    walk_expr(&mut visitor, &e);
    // the borrow was met, but no node was entered before it
    assert_eq!(visitor.expr_span(), None);
    let mut visitor = MutArgVisitor::new(&cx);
    walk_exprs(&mut visitor, &vec![lit(7, sp(1, 2)), e]);
    assert_eq!(visitor.expr_span(), Some(sp(10, 21)));
}

#[test]
fn a_wide_and_a_deep_operand_are_searched_to_the_end() {
    let cx = context(vec![]);
    // f(1, 1, ..., 1, g(&mut x)) with five thousand literals
    let mut args: Vec<Expr> = (0..5000).map(|i| lit(10 + i, sp(20 + i, 21 + i))).collect();
    args.push(foo_of_mut_x(6000, 9000));
    let wide = call(1, path(2, sp(10, 11)), args, sp(10, 9012));
    assert_eq!(search(&cx, &wide), Some(sp(9000, 9011)));
    // -(-(...(-(g(&mut x)))...)), five hundred deep
    let mut deep = foo_of_mut_x(6000, 9000);
    for i in 0..500 {
        deep = node(7000 + i, ExprKind::Unary(UnOp::UnNeg, Box::new(deep)), sp(8999 - i, 9011));
    }
    assert_eq!(search(&cx, &deep), Some(sp(9000, 9011)));
    // the same without a mutable borrow
    let mut deep = lit(6000, sp(9000, 9001));
    for i in 0..500 {
        deep = node(7000 + i, ExprKind::Unary(UnOp::UnNeg, Box::new(deep)), sp(8999 - i, 9001));
    }
    assert_eq!(search(&cx, &deep), None);
}

#[test]
fn what_stands_in_a_pattern_or_a_type_is_walked_and_left() {
    let cx = context(vec![]);
    // match n { 0 => &mut v }: the literal of the pattern is entered and
    // left before the borrow
    let e = node(
        100,
        ExprKind::Match(
            Box::new(path(1, sp(6, 7))),
            vec![Arm {
                pat: vec![lit(2, sp(10, 11))],
                guard: None,
                body: borrow(3, Mutability::Mut, path(4, sp(20, 21)), sp(15, 21)),
            }],
            MatchSource::Normal,
        ),
        sp(0, 23),
    );
    assert_eq!(search(&cx, &e), Some(sp(0, 23)));
    // { let [a, b]: [u8; 2] = foo(&mut x); }
    let binding = StmtKind::Local(vec![foo_of_mut_x(10, 30), lit(20, sp(22, 23))]);
    let e = node(
        101,
        ExprKind::Block(Block { stmts: vec![Stmt { kind: binding, span: sp(2, 42) }], expr: None }),
        sp(0, 44),
    );
    assert_eq!(search(&cx, &e), Some(sp(30, 41)));
    // { let a: [u8; 2]; bar(&mut y) }: the length comes before the call
    let binding = StmtKind::Local(vec![lit(20, sp(14, 15))]);
    let e = node(
        102,
        ExprKind::Block(Block {
            stmts: vec![Stmt { kind: binding, span: sp(2, 17) }],
            expr: Some(Box::new(foo_of_mut_x(30, 18))),
        }),
        sp(0, 31),
    );
    assert_eq!(search(&cx, &e), Some(sp(18, 29)));
    // a mutable use in a pattern's expression is one as any other
    let e = node(
        103,
        ExprKind::Match(
            Box::new(path(1, sp(6, 7))),
            vec![Arm { pat: vec![foo_of_mut_x(10, 10)], guard: None, body: lit(3, sp(25, 26)) }],
            MatchSource::Normal,
        ),
        sp(0, 28),
    );
    assert_eq!(search(&cx, &e), Some(sp(10, 21)));
}
