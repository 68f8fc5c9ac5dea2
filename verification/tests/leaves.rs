use session_pretty::engine::PrettyEnv;
use session_pretty::leaves::pp_opt_mult;
use session_pretty::syntax::{Const, Eff, Mult, Pattern, Span, Spanned};

fn sp<T>(val: T) -> Spanned<T> {
    Spanned::new(val, Span { start: 0, end: 0 })
}

fn var(s: &str) -> Pattern {
    Pattern::Var(sp(s.to_string()))
}

fn pair(a: Pattern, b: Pattern) -> Pattern {
    Pattern::Pair(Box::new(sp(a)), Box::new(sp(b)))
}

#[test]
fn multiplicity_tokens() {
    assert_eq!(Mult::Unr.render(), "unr");
    assert_eq!(Mult::Lin.render(), "lin");
    assert_eq!(Mult::OrdR.render(), "right");
    assert_eq!(Mult::OrdL.render(), "left");
}

#[test]
fn effect_tokens() {
    assert_eq!(Eff::Yes.render(), "1");
    assert_eq!(Eff::No.render(), "0");
}

#[test]
fn absent_multiplicity_renders_as_nothing() {
    let mut p = PrettyEnv::new();
    p.emit("a");
    pp_opt_mult(&None, &mut p);
    p.emit("b");
    assert_eq!(p.finish(), "ab");
}

#[test]
fn present_multiplicity_renders_in_brackets() {
    let mut p = PrettyEnv::new();
    pp_opt_mult(&Some(sp(Mult::Lin)), &mut p);
    assert_eq!(p.as_str(), "[lin]");
    pp_opt_mult(&Some(sp(Mult::OrdL)), &mut p);
    assert_eq!(p.finish(), "[lin][left]");
}

#[test]
fn constants() {
    assert_eq!(Const::Unit.render(), "unit");
    assert_eq!(Const::Int(0).render(), "0");
    assert_eq!(Const::Int(-42).render(), "-42");
    assert_eq!(Const::Bool(true).render(), "true");
    assert_eq!(Const::Bool(false).render(), "false");
    assert_eq!(Const::String("hi".to_string()).render(), "\"hi\"");
}

#[test]
fn string_constant_is_quoted_without_escaping() {
    assert_eq!(Const::String(String::new()).render(), "\"\"");
    assert_eq!(Const::String("a\"b\\n".to_string()).render(), "\"a\"b\\n\"");
    assert_eq!(Const::String("line\nbreak".to_string()).render(), "\"line\nbreak\"");
}

#[test]
fn pattern_variable_is_its_name() {
    assert_eq!(var("x").render(), "x");
    assert_eq!(var("").render(), "");
}

#[test]
fn pattern_pair_is_bracketed() {
    assert_eq!(pair(var("x"), var("y")).render(), "(x, y)");
    assert_eq!(
        pair(pair(var("a"), var("b")), pair(var("c"), var("d"))).render(),
        "((a, b), (c, d))"
    );
}

#[test]
fn span_does_not_show_in_a_pattern() {
    let here = Spanned::new(var("x"), Span { start: 3, end: 4 });
    let there = Spanned::new(var("x"), Span { start: 90, end: 91 });
    let mut p = PrettyEnv::new();
    here.pp(&mut p);
    there.pp(&mut p);
    Spanned::new(Mult::Unr, Span { start: 7, end: 9 }).pp(&mut p);
    Spanned::new(Eff::Yes, Span { start: 1, end: 2 }).pp(&mut p);
    assert_eq!(p.finish(), "xxunr1");
}

#[test]
fn spanned_holds_its_value_and_span() {
    let s = Spanned::new(Mult::Lin, Span { start: 2, end: 5 });
    assert_eq!(s.val, Mult::Lin);
    assert_eq!(s.span, Span { start: 2, end: 5 });
}
