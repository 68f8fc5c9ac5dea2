use session_pretty::engine::PrettyEnv;
use session_pretty::fixity::{Assoc, Demand, Side};
use session_pretty::syntax::{
    Clause, Const, Eff, Expr, Mult, Op1, Op2, Pattern, Session, SessionOp, Span, Spanned, Type,
};

fn sp<T>(val: T) -> Spanned<T> {
    Spanned::new(val, Span { start: 0, end: 0 })
}

fn bx(e: Expr) -> Box<Spanned<Expr>> {
    Box::new(sp(e))
}

fn name(s: &str) -> Spanned<String> {
    sp(s.to_string())
}

fn v(s: &str) -> Expr {
    Expr::Var(name(s))
}

fn num(n: i64) -> Expr {
    Expr::Const(Const::Int(n))
}

fn app(f: Expr, x: Expr) -> Expr {
    Expr::App(bx(f), bx(x))
}

fn op2(op: Op2, a: Expr, b: Expr) -> Expr {
    Expr::Op2(op, bx(a), bx(b))
}

fn op1(op: Op1, a: Expr) -> Expr {
    Expr::Op1(op, bx(a))
}

fn seq(a: Expr, b: Expr) -> Expr {
    Expr::Sequence(bx(a), bx(b))
}

fn let_in(x: &str, e1: Expr, e2: Expr) -> Expr {
    Expr::Let(name(x), bx(e1), bx(e2))
}

fn lam(x: &str, e: Expr) -> Expr {
    Expr::Abs(name(x), bx(e))
}

fn cond(c: Expr, a: Expr, b: Expr) -> Expr {
    Expr::If(bx(c), bx(a), bx(b))
}

fn fun(t1: Type, t2: Type) -> Type {
    Type::Arr(sp(Mult::Unr), sp(Eff::No), Box::new(sp(t1)), Box::new(sp(t2)))
}

fn pvar(s: &str) -> Spanned<Pattern> {
    sp(Pattern::Var(name(s)))
}

fn clause(id: &str, pats: Vec<Spanned<Pattern>>, body: Expr) -> Clause {
    Clause { id: name(id), pats, body: sp(body) }
}

fn at(e: &Expr, d: Demand) -> String {
    let mut p = PrettyEnv::new();
    e.pp(&mut p, d);
    p.finish()
}

#[test]
fn application_chain_is_flat() {
    assert_eq!(app(app(v("f"), v("x")), v("y")).render(), "f x y");
}

#[test]
fn application_in_argument_position_is_parenthesized() {
    assert_eq!(app(v("f"), app(v("g"), v("x"))).render(), "f (g x)");
}

#[test]
fn application_chain_of_four() {
    let e = app(app(app(v("f"), v("a")), v("b")), v("c"));
    assert_eq!(e.render(), "f a b c");
    let nested = app(v("f"), app(v("g"), app(v("h"), v("x"))));
    assert_eq!(nested.render(), "f (g (h x))");
}

#[test]
fn pipe_application() {
    assert_eq!(Expr::AppL(bx(v("x")), bx(v("f"))).render(), "x |> f");
    let chain = Expr::AppL(bx(Expr::AppL(bx(v("x")), bx(v("f")))), bx(v("g")));
    assert_eq!(chain.render(), "x |> f |> g");
    let right = Expr::AppL(bx(v("x")), bx(Expr::AppL(bx(v("y")), bx(v("g")))));
    assert_eq!(right.render(), "x |> (y |> g)");
}

#[test]
fn variable_and_borrow() {
    assert_eq!(v("counter").render(), "counter");
    assert_eq!(Expr::Borrow(name("c")).render(), "&c");
    assert_eq!(app(v("f"), Expr::Borrow(name("c"))).render(), "f &c");
}

#[test]
fn constants_in_expressions() {
    assert_eq!(num(12).render(), "12");
    assert_eq!(Expr::Const(Const::Unit).render(), "unit");
    assert_eq!(app(v("f"), num(-3)).render(), "f -3");
    assert_eq!(
        app(v("print"), Expr::Const(Const::String("hi".to_string()))).render(),
        "print \"hi\""
    );
}

#[test]
fn allocation_prints_its_type_at_product_level() {
    assert_eq!(Expr::New(sp(Type::Int)).render(), "new Int");
    assert_eq!(
        Expr::New(sp(fun(Type::Int, Type::Int))).render(),
        "new (Int –[unr; 0]→ Int)"
    );
    let product = Type::Prod(sp(Mult::Lin), Box::new(sp(Type::Int)), Box::new(sp(Type::Bool)));
    assert_eq!(Expr::New(sp(product)).render(), "new Int ⊗ Bool");
    let chan = Type::Chan(sp(Session::End(SessionOp::Send)));
    assert_eq!(Expr::New(sp(chan)).render(), "new Chan term");
}

#[test]
fn allocation_as_an_argument_is_parenthesized() {
    assert_eq!(app(v("f"), Expr::New(sp(Type::Int))).render(), "f (new Int)");
}

#[test]
fn release() {
    assert_eq!(Expr::Drop(bx(v("x"))).render(), "drop x");
    assert_eq!(Expr::Drop(bx(app(v("f"), v("x")))).render(), "drop f x");
    assert_eq!(Expr::Drop(bx(seq(v("a"), v("b")))).render(), "drop (a; b)");
}

#[test]
fn abstraction() {
    assert_eq!(lam("x", v("x")).render(), "λx. x");
    assert_eq!(lam("x", lam("y", app(v("x"), v("y")))).render(), "λx. λy. x y");
    assert_eq!(app(lam("x", v("x")), v("y")).render(), "(λx. x) y");
    assert_eq!(app(v("f"), lam("x", v("x"))).render(), "f (λx. x)");
}

#[test]
fn abstraction_keeps_the_stored_name() {
    assert_eq!(lam("x", lam("x", v("x"))).render(), "λx. λx. x");
}

#[test]
fn keyword_forms_take_operands_by_juxtaposition() {
    assert_eq!(Expr::Inj(name("l"), bx(v("e"))).render(), "inj l e");
    assert_eq!(Expr::Fork(bx(v("e"))).render(), "fork e");
    assert_eq!(Expr::Send(bx(v("c")), bx(v("x"))).render(), "send c x");
    assert_eq!(Expr::Recv(bx(v("c"))).render(), "recv c");
    assert_eq!(Expr::End(SessionOp::Send, bx(v("c"))).render(), "term c");
    assert_eq!(Expr::End(SessionOp::Recv, bx(v("c"))).render(), "wait c");
    assert_eq!(Expr::Select(name("l"), bx(v("c"))).render(), "select l c");
    assert_eq!(Expr::Offer(bx(v("c"))).render(), "offer c");
}

#[test]
fn keyword_form_operands_are_parenthesized_when_applied() {
    let fx = || app(v("f"), v("x"));
    assert_eq!(Expr::Inj(name("l"), bx(fx())).render(), "inj l (f x)");
    assert_eq!(Expr::Fork(bx(fx())).render(), "fork (f x)");
    assert_eq!(Expr::Send(bx(fx()), bx(fx())).render(), "send (f x) (f x)");
    assert_eq!(Expr::Recv(bx(fx())).render(), "recv (f x)");
    assert_eq!(Expr::End(SessionOp::Send, bx(fx())).render(), "term (f x)");
    assert_eq!(Expr::Select(name("l"), bx(fx())).render(), "select l (f x)");
    assert_eq!(Expr::Offer(bx(Expr::Recv(bx(v("c"))))).render(), "offer (recv c)");
}

#[test]
fn keyword_form_on_the_left_of_an_application_is_bare() {
    assert_eq!(app(Expr::Recv(bx(v("c"))), v("x")).render(), "recv c x");
}

#[test]
fn pair_delimits_its_members() {
    assert_eq!(Expr::Pair(bx(v("a")), bx(v("b"))).render(), "(a, b)");
    let e = Expr::Pair(bx(app(v("f"), v("x"))), bx(let_in("y", num(1), v("y"))));
    assert_eq!(e.render(), "(f x, let y = 1 in y)");
}

#[test]
fn pair_as_an_argument_adds_no_parentheses() {
    let e = app(v("f"), Expr::Pair(bx(app(v("g"), v("x"))), bx(v("y"))));
    assert_eq!(e.render(), "f (g x, y)");
}

#[test]
fn let_bindings() {
    assert_eq!(let_in("x", num(1), v("x")).render(), "let x = 1 in x");
    let pair = Expr::LetPair(name("a"), name("b"), bx(v("p")), bx(app(v("a"), v("b"))));
    assert_eq!(pair.render(), "let a, b = p in a b");
}

#[test]
fn let_nested_in_let_needs_no_parentheses() {
    let e = let_in("x", let_in("y", num(1), v("y")), let_in("z", num(2), v("z")));
    assert_eq!(e.render(), "let x = let y = 1 in y in let z = 2 in z");
}

#[test]
fn let_as_an_operand_is_parenthesized() {
    assert_eq!(app(v("f"), let_in("x", num(1), v("x"))).render(), "f (let x = 1 in x)");
    assert_eq!(
        op2(Op2::Add, let_in("x", num(1), v("x")), num(2)).render(),
        "(let x = 1 in x) + 2"
    );
}

#[test]
fn conditional() {
    assert_eq!(cond(v("c"), v("a"), v("b")).render(), "if c then a else b");
    let chain = cond(v("c"), v("a"), cond(v("d"), v("e"), v("f")));
    assert_eq!(chain.render(), "if c then a else if d then e else f");
    let inner = cond(cond(v("c"), v("a"), v("b")), seq(v("x"), v("y")), v("z"));
    assert_eq!(inner.render(), "if if c then a else b then x; y else z");
}

#[test]
fn conditional_as_an_operand_is_parenthesized() {
    assert_eq!(
        op2(Op2::Add, cond(v("c"), v("a"), v("b")), num(1)).render(),
        "(if c then a else b) + 1"
    );
}

#[test]
fn case_analysis_lists_its_arms_in_order() {
    let e = Expr::CaseSum(
        bx(v("e")),
        vec![
            (name("some"), name("x"), sp(app(v("f"), v("x")))),
            (name("none"), name("u"), sp(num(0))),
        ],
    );
    assert_eq!(e.render(), "case e { inj some x → f x, inj none u → 0 }");
}

#[test]
fn case_analysis_with_one_arm_and_with_none() {
    let one = Expr::CaseSum(bx(v("e")), vec![(name("l"), name("x"), sp(v("x")))]);
    assert_eq!(one.render(), "case e { inj l x → x }");
    let none = Expr::CaseSum(bx(v("e")), vec![]);
    assert_eq!(none.render(), "case e {  }");
}

#[test]
fn case_arm_body_is_never_parenthesized() {
    let e = Expr::CaseSum(
        bx(app(v("f"), v("x"))),
        vec![(name("l"), name("x"), sp(let_in("y", v("x"), seq(v("y"), v("y")))))],
    );
    assert_eq!(e.render(), "case f x { inj l x → let y = x in y; y }");
    assert_eq!(
        app(v("g"), e).render(),
        "g (case f x { inj l x → let y = x in y; y })"
    );
}

#[test]
fn ascription() {
    assert_eq!(Expr::Ann(bx(v("x")), sp(Type::Int)).render(), "x : Int");
    let e = Expr::Ann(bx(app(v("f"), v("x"))), sp(fun(Type::Int, Type::Bool)));
    assert_eq!(e.render(), "f x : Int –[unr; 0]→ Bool");
}

#[test]
fn ascription_is_never_parenthesized() {
    let e = app(v("f"), Expr::Ann(bx(v("x")), sp(Type::Int)));
    assert_eq!(e.render(), "f x : Int");
}

#[test]
fn sequencing_chains_to_the_right() {
    assert_eq!(seq(v("a"), v("b")).render(), "a; b");
    assert_eq!(seq(v("a"), seq(v("b"), v("c"))).render(), "a; b; c");
    assert_eq!(seq(seq(v("a"), v("b")), v("c")).render(), "(a; b); c");
}

#[test]
fn release_beside_sequencing_is_parenthesized() {
    assert_eq!(seq(Expr::Drop(bx(v("a"))), v("b")).render(), "(drop a); b");
    assert_eq!(seq(v("a"), Expr::Drop(bx(v("b")))).render(), "a; (drop b)");
}

#[test]
fn clause_is_one_line() {
    assert_eq!(clause("f", vec![pvar("x")], v("x")).render(), "f x = x\n");
    assert_eq!(clause("f", vec![], num(1)).render(), "f = 1\n");
    let pair = sp(Pattern::Pair(Box::new(pvar("a")), Box::new(pvar("b"))));
    assert_eq!(
        clause("swap", vec![pair, pvar("k")], app(v("k"), Expr::Pair(bx(v("b")), bx(v("a"))))).render(),
        "swap (a, b) k = k (b, a)\n"
    );
}

#[test]
fn clause_body_is_never_parenthesized() {
    let c = clause("f", vec![pvar("x")], let_in("y", v("x"), seq(v("y"), v("y"))));
    assert_eq!(c.render(), "f x = let y = x in y; y\n");
}

#[test]
fn declaration_with_two_clauses() {
    let e = Expr::LetDecl(
        name("f"),
        sp(fun(Type::Int, Type::Int)),
        vec![
            sp(clause("f", vec![pvar("x")], op2(Op2::Add, v("x"), num(1)))),
            sp(clause("f", vec![pvar("y")], v("y"))),
        ],
        bx(app(v("f"), num(2))),
    );
    assert_eq!(
        e.render(),
        "let f : Int –[unr; 0]→ Int\nf x = x + 1\nf y = y\n\nin\nf 2"
    );
}

#[test]
fn declaration_without_clauses() {
    let e = Expr::LetDecl(name("f"), sp(Type::Unit), vec![], bx(v("f")));
    assert_eq!(e.render(), "let f : Unit\n\nin\nf");
}

#[test]
fn declaration_as_an_operand_is_parenthesized() {
    let e = Expr::LetDecl(
        name("f"),
        sp(Type::Int),
        vec![sp(clause("f", vec![], num(1)))],
        bx(v("f")),
    );
    assert_eq!(app(v("g"), e).render(), "g (let f : Int\nf = 1\n\nin\nf)");
}

#[test]
fn declaration_in_a_let_body_is_bare() {
    let e = Expr::LetDecl(name("f"), sp(Type::Int), vec![], bx(v("f")));
    assert_eq!(let_in("x", num(1), e).render(), "let x = 1 in let f : Int\n\nin\nf");
}

#[test]
fn unary_operator_tokens() {
    assert_eq!(op1(Op1::Neg, v("x")).render(), "! x");
    assert_eq!(op1(Op1::Not, v("x")).render(), "! x");
    assert_eq!(op1(Op1::ToStr, v("x")).render(), "str x");
    assert_eq!(op1(Op1::Print, v("x")).render(), "print x");
    assert_eq!(Op1::Neg.token(), "!");
    assert_eq!(Op1::Not.token(), "!");
    assert_eq!(Op1::ToStr.token(), "str");
    assert_eq!(Op1::Print.token(), "print");
}

#[test]
fn unary_operator_precedences() {
    assert_eq!(Op1::Neg.prec(), 9);
    assert_eq!(Op1::Not.prec(), 6);
    assert_eq!(Op1::ToStr.prec(), 10);
    assert_eq!(Op1::Print.prec(), 10);
}

#[test]
fn unary_operand_is_parenthesized_at_or_below_the_operator() {
    assert_eq!(op1(Op1::Not, op2(Op2::And, v("a"), v("b"))).render(), "! (a && b)");
    assert_eq!(op1(Op1::Not, op1(Op1::Not, v("a"))).render(), "! (! a)");
    assert_eq!(op1(Op1::Not, op2(Op2::Eq, v("a"), v("b"))).render(), "! a == b");
    assert_eq!(op1(Op1::Neg, app(v("f"), v("x"))).render(), "! f x");
    assert_eq!(op1(Op1::Neg, op2(Op2::Mul, v("a"), v("b"))).render(), "! (a * b)");
    assert_eq!(op1(Op1::Print, app(v("f"), v("x"))).render(), "print (f x)");
}

#[test]
fn unary_operator_as_an_operand() {
    assert_eq!(op2(Op2::Add, op1(Op1::Neg, v("a")), v("b")).render(), "! a + b");
    assert_eq!(op2(Op2::Mul, op1(Op1::Neg, v("a")), v("b")).render(), "(! a) * b");
    assert_eq!(op2(Op2::Mul, v("a"), op1(Op1::Neg, v("b"))).render(), "a * (! b)");
    assert_eq!(app(op1(Op1::Print, v("x")), v("y")).render(), "(print x) y");
    assert_eq!(app(v("f"), op1(Op1::Print, v("x"))).render(), "f (print x)");
}

#[test]
fn binary_operator_tokens() {
    let table: Vec<(Op2, &str)> = vec![
        (Op2::Add, "a + b"),
        (Op2::Sub, "a - b"),
        (Op2::Mul, "a * b"),
        (Op2::Div, "a / b"),
        (Op2::Eq, "a == b"),
        (Op2::Neq, "a != b"),
        (Op2::Lt, "a < b"),
        (Op2::Le, "a <= b"),
        (Op2::Gt, "a > b"),
        (Op2::Ge, "a >= b"),
        (Op2::And, "a && b"),
        (Op2::Or, "a || b"),
    ];
    for (op, expected) in table {
        assert_eq!(op2(op, v("a"), v("b")).render(), expected);
    }
}

#[test]
fn binary_operator_table() {
    let table: Vec<(Op2, u8, Assoc, &str)> = vec![
        (Op2::Add, 8, Assoc::Left, "+"),
        (Op2::Sub, 8, Assoc::Left, "-"),
        (Op2::Mul, 9, Assoc::Right, "*"),
        (Op2::Div, 9, Assoc::Right, "/"),
        (Op2::Eq, 7, Assoc::Neither, "=="),
        (Op2::Neq, 7, Assoc::Neither, "!="),
        (Op2::Lt, 7, Assoc::Neither, "<"),
        (Op2::Le, 7, Assoc::Neither, "<="),
        (Op2::Gt, 7, Assoc::Neither, ">"),
        (Op2::Ge, 7, Assoc::Neither, ">="),
        (Op2::And, 5, Assoc::Left, "&&"),
        (Op2::Or, 4, Assoc::Left, "||"),
    ];
    for (op, prec, assoc, token) in table {
        assert_eq!(op.prec(), prec);
        assert_eq!(op.assoc(), assoc);
        assert_eq!(op.token(), token);
    }
}

#[test]
fn additive_chain_to_the_left_is_flat() {
    assert_eq!(op2(Op2::Sub, op2(Op2::Sub, v("a"), v("b")), v("c")).render(), "a - b - c");
    assert_eq!(op2(Op2::Sub, op2(Op2::Add, v("a"), v("b")), v("c")).render(), "a + b - c");
    assert_eq!(op2(Op2::Sub, v("a"), op2(Op2::Sub, v("b"), v("c"))).render(), "a - (b - c)");
}

#[test]
fn multiplicative_chain_to_the_right_is_flat() {
    assert_eq!(op2(Op2::Mul, v("a"), op2(Op2::Mul, v("b"), v("c"))).render(), "a * b * c");
    assert_eq!(op2(Op2::Div, v("a"), op2(Op2::Mul, v("b"), v("c"))).render(), "a / b * c");
    assert_eq!(op2(Op2::Mul, op2(Op2::Mul, v("a"), v("b")), v("c")).render(), "(a * b) * c");
}

#[test]
fn logical_chains_to_the_left_are_flat() {
    assert_eq!(op2(Op2::And, op2(Op2::And, v("a"), v("b")), v("c")).render(), "a && b && c");
    assert_eq!(op2(Op2::Or, op2(Op2::Or, v("a"), v("b")), v("c")).render(), "a || b || c");
    assert_eq!(op2(Op2::Or, v("a"), op2(Op2::Or, v("b"), v("c"))).render(), "a || (b || c)");
}

#[test]
fn comparison_does_not_chain() {
    assert_eq!(op2(Op2::Eq, op2(Op2::Eq, v("a"), v("b")), v("c")).render(), "(a == b) == c");
    assert_eq!(op2(Op2::Eq, v("a"), op2(Op2::Eq, v("b"), v("c"))).render(), "a == (b == c)");
    assert_eq!(op2(Op2::Lt, v("a"), op2(Op2::Ge, v("b"), v("c"))).render(), "a < (b >= c)");
}

#[test]
fn mixed_precedence() {
    assert_eq!(op2(Op2::Add, op2(Op2::Mul, v("a"), v("b")), v("c")).render(), "a * b + c");
    assert_eq!(op2(Op2::Add, v("a"), op2(Op2::Mul, v("b"), v("c"))).render(), "a + b * c");
    assert_eq!(op2(Op2::Mul, op2(Op2::Add, v("a"), v("b")), v("c")).render(), "(a + b) * c");
    assert_eq!(op2(Op2::Mul, v("a"), op2(Op2::Add, v("b"), v("c"))).render(), "a * (b + c)");
    assert_eq!(op2(Op2::Lt, op2(Op2::Add, v("a"), v("b")), v("c")).render(), "a + b < c");
    assert_eq!(op2(Op2::And, op2(Op2::Or, v("a"), v("b")), v("c")).render(), "(a || b) && c");
    assert_eq!(op2(Op2::Or, op2(Op2::And, v("a"), v("b")), v("c")).render(), "a && b || c");
    assert_eq!(
        op2(Op2::And, op2(Op2::Eq, v("a"), v("b")), op2(Op2::Neq, v("c"), v("d"))).render(),
        "a == b && c != d"
    );
    assert_eq!(
        op2(Op2::Add, app(v("f"), v("x")), app(v("g"), v("y"))).render(),
        "f x + g y"
    );
    assert_eq!(app(v("f"), op2(Op2::Add, v("x"), v("y"))).render(), "f (x + y)");
}

#[test]
fn deep_nesting_wraps_each_level_once() {
    let e = op2(
        Op2::Mul,
        op2(Op2::Add, op2(Op2::Mul, op2(Op2::Add, v("a"), v("b")), v("c")), v("d")),
        v("e"),
    );
    assert_eq!(e.render(), "((a + b) * c + d) * e");
}

#[test]
fn expression_under_a_demand_above_its_precedence_is_parenthesized_once() {
    let e = op2(Op2::Add, v("a"), v("b"));
    assert_eq!(at(&e, Demand::at(0)), "a + b");
    assert_eq!(at(&e, Demand::at(8)), "a + b");
    assert_eq!(at(&e, Demand::at(9)), "(a + b)");
    assert_eq!(at(&e, Demand::operand(Side::Left, 8, Assoc::Left)), "a + b");
    assert_eq!(at(&e, Demand::operand(Side::Right, 8, Assoc::Left)), "(a + b)");
    assert_eq!(at(&e, Demand::operand(Side::Right, 7, Assoc::Neither)), "a + b");
}

#[test]
fn atoms_are_bare_under_any_demand() {
    let top = Demand::operand(Side::Right, 255, Assoc::Left);
    assert_eq!(at(&v("x"), top), "x");
    assert_eq!(at(&num(5), top), "5");
    assert_eq!(at(&Expr::Borrow(name("c")), top), "&c");
    assert_eq!(at(&Expr::Pair(bx(v("a")), bx(v("b"))), top), "(a, b)");
}

#[test]
fn span_does_not_show_in_an_expression() {
    let a = Spanned::new(app(v("f"), v("x")), Span { start: 1, end: 4 });
    let b = Spanned::new(app(v("f"), v("x")), Span { start: 100, end: 104 });
    let mut p = PrettyEnv::new();
    a.pp(&mut p, Demand::at(0));
    p.emit("|");
    b.pp(&mut p, Demand::operand(Side::Right, 10, Assoc::Left));
    p.emit("|");
    Spanned::new(clause("f", vec![], v("x")), Span { start: 8, end: 9 }).pp(&mut p);
    assert_eq!(p.finish(), "f x|(f x)|f = x\n");
}

#[test]
fn rendering_twice_gives_the_same_text() {
    let e = cond(op2(Op2::Lt, v("a"), num(3)), app(v("f"), v("a")), seq(v("b"), v("c")));
    let first = e.render();
    let second = e.render();
    assert_eq!(first, second);
    assert_eq!(first, "if a < 3 then f a else b; c");
}

#[test]
fn deeply_nested_application_renders() {
    let mut e = v("x");
    for _ in 0..300 {
        e = app(v("f"), e);
    }
    let text = e.render();
    assert_eq!(text.matches('(').count(), 299);
    assert_eq!(text.matches(')').count(), 299);
    assert!(text.starts_with("f (f (f "));
    assert!(text.ends_with(&format!("(f x{}", ")".repeat(299))));
}
