use stipe::{Args, Bdd, Context, Openness, Order, Props, TotalOrder, TyAtom, TyConfig, Type};

#[derive(Debug, PartialEq, Eq, PartialOrd, Ord)]
struct TestName(String);

impl From<&str> for TestName {
    fn from(value: &str) -> Self {
        TestName(value.to_string())
    }
}

#[derive(Debug, PartialEq, Eq, PartialOrd, Ord)]
struct TestBasic(String);

impl From<&str> for TestBasic {
    fn from(value: &str) -> Self {
        TestBasic(value.to_string())
    }
}

#[derive(Debug, PartialEq, Eq, PartialOrd, Ord)]
struct TestVar(String);

impl From<&str> for TestVar {
    fn from(value: &str) -> Self {
        TestVar(value.to_string())
    }
}

#[derive(Debug, PartialEq, Eq, PartialOrd, Ord)]
struct TestProp(String);

impl From<&str> for TestProp {
    fn from(value: &str) -> Self {
        TestProp(value.to_string())
    }
}

fn by_text(a: &str, b: &str) -> Order {
    if a < b {
        Order::Less
    } else if a == b {
        Order::Equal
    } else {
        Order::Greater
    }
}

impl TotalOrder for TestName {
    fn order(&self, other: &Self) -> Order {
        by_text(&self.0, &other.0)
    }

    fn order_equal(_: &Self, _: &Self) {}

    fn order_flip(_: &Self, _: &Self) {}

    fn order_chain(_: &Self, _: &Self, _: &Self) {}

    fn compare(&self, other: &Self) -> Order {
        by_text(&self.0, &other.0)
    }
}

impl TotalOrder for TestBasic {
    fn order(&self, other: &Self) -> Order {
        by_text(&self.0, &other.0)
    }

    fn order_equal(_: &Self, _: &Self) {}

    fn order_flip(_: &Self, _: &Self) {}

    fn order_chain(_: &Self, _: &Self, _: &Self) {}

    fn compare(&self, other: &Self) -> Order {
        by_text(&self.0, &other.0)
    }
}

impl TyAtom for TestBasic {}

impl TotalOrder for TestVar {
    fn order(&self, other: &Self) -> Order {
        by_text(&self.0, &other.0)
    }

    fn order_equal(_: &Self, _: &Self) {}

    fn order_flip(_: &Self, _: &Self) {}

    fn order_chain(_: &Self, _: &Self, _: &Self) {}

    fn compare(&self, other: &Self) -> Order {
        by_text(&self.0, &other.0)
    }
}

impl TyAtom for TestVar {}

impl TotalOrder for TestProp {
    fn order(&self, other: &Self) -> Order {
        by_text(&self.0, &other.0)
    }

    fn order_equal(_: &Self, _: &Self) {}

    fn order_flip(_: &Self, _: &Self) {}

    fn order_chain(_: &Self, _: &Self, _: &Self) {}

    fn compare(&self, other: &Self) -> Order {
        by_text(&self.0, &other.0)
    }
}

#[derive(Debug, PartialEq, Eq, PartialOrd, Ord)]
struct TestConfig {}

impl TyConfig for TestConfig {
    type TyName = TestName;
    type Basic = TestBasic;
    type Var = TestVar;
    type Prop = TestProp;
}

#[test]
fn make_types() {
    let ctx: Context<TestConfig> = Context::new();

    let int = ctx.basic("Int".into());
    let boolean = ctx.basic("Boolean".into());

    println!("not bool union {:#?}", ctx.inter(&[int, ctx.not(boolean)]));
    println!("not int union {:#?}", ctx.inter(&[ctx.not(int), boolean]));
    println!(
        "not both union {:#?}",
        ctx.inter(&[ctx.not(int), ctx.not(boolean)])
    );

    // "Boolean" sorts before "Int", so Boolean is decided first
    let not_bool = ctx.inter(&[int, ctx.not(boolean)]);
    match not_bool {
        Bdd::Atom { atom, pos, lu, neg } => {
            assert_eq!(atom.0, "Boolean");
            assert_eq!(**pos, Bdd::Bot);
            assert_eq!(**lu, Bdd::Bot);
            assert_eq!(*neg, int);
        }
        _ => panic!("expected a decision node"),
    }
}

#[test]
fn make_types_with_var() {
    let ctx: Context<TestConfig> = Context::new();

    let int = ctx.basic("Int".into());
    let t1 = ctx.var("T1".into());

    let ty_int = Bdd::map_atoms(ctx.arena(), int, &|basic| -> &Type<'_, TestConfig> {
        ctx.arena()
            .alloc(Type::from_basics(ctx.arena(), Bdd::atom(ctx.arena(), basic)))
    });

    match ty_int {
        Bdd::Atom { atom, pos, lu, neg } => {
            assert_eq!(atom.basics, int);
            assert_eq!(*atom.vars, Bdd::Bot);
            assert!(matches!(atom.products, Bdd::Bot));
            assert!(matches!(atom.arrows, Bdd::Bot));
            assert!(matches!(atom.records, Bdd::Bot));
            assert!(matches!(atom.refrs, Bdd::Bot));
            assert!(matches!(pos, Bdd::Top));
            assert!(matches!(lu, Bdd::Bot));
            assert!(matches!(neg, Bdd::Bot));
        }
        _ => panic!("expected a decision node"),
    }
    match t1 {
        Bdd::Atom { atom, .. } => assert_eq!(atom.0, "T1"),
        _ => panic!("expected a decision node"),
    }
}

#[test]
fn context_leaves() {
    let ctx: Context<TestConfig> = Context::new();
    assert!(matches!(ctx.top(), Bdd::Top));
    assert!(matches!(ctx.bot(), Bdd::Bot));
}

#[test]
fn var_and_basic_are_single_atoms() {
    let ctx: Context<TestConfig> = Context::new();
    let v = ctx.var("a".into());
    let expected = Bdd::Atom { atom: &TestVar::from("a"), pos: &Bdd::Top, lu: &Bdd::Bot, neg: &Bdd::Bot };
    assert_eq!(*v, expected);
    let b = ctx.basic("Int".into());
    let expected =
        Bdd::Atom { atom: &TestBasic::from("Int"), pos: &Bdd::Top, lu: &Bdd::Bot, neg: &Bdd::Bot };
    assert_eq!(*b, expected);
}

#[test]
fn empty_union_is_bottom_and_empty_inter_is_top() {
    let ctx: Context<TestConfig> = Context::new();
    let none: [&Bdd<'_, TestBasic>; 0] = [];
    assert_eq!(*ctx.union(&none), Bdd::Bot);
    assert_eq!(*ctx.inter(&none), Bdd::Top);
}

#[test]
fn union_and_inter_of_one_member_is_the_member() {
    let ctx: Context<TestConfig> = Context::new();
    let int = ctx.basic("Int".into());
    assert_eq!(ctx.union(&[int]), int);
    assert_eq!(ctx.inter(&[int]), int);
}

#[test]
fn union_and_inter_fold_from_the_left() {
    let ctx: Context<TestConfig> = Context::new();
    let a = ctx.basic("a".into());
    let b = ctx.basic("b".into());
    let c = ctx.basic("c".into());
    let arena = ctx.arena();
    assert_eq!(ctx.union(&[a, b, c]), Bdd::union(arena, Bdd::union(arena, a, b), c));
    assert_eq!(ctx.inter(&[a, b, c]), Bdd::inter(arena, Bdd::inter(arena, a, b), c));
    let nb = ctx.not(b);
    assert_eq!(ctx.inter(&[a, nb, c]), Bdd::inter(arena, Bdd::inter(arena, a, nb), c));
}

#[test]
fn not_is_the_complement() {
    let ctx: Context<TestConfig> = Context::new();
    let int = ctx.basic("Int".into());
    let expected =
        Bdd::Atom { atom: &TestBasic::from("Int"), pos: &Bdd::Bot, lu: &Bdd::Bot, neg: &Bdd::Top };
    assert_eq!(*ctx.not(int), expected);
}

#[test]
fn product_and_arrow_hold_their_two_sides() {
    let ctx: Context<TestConfig> = Context::new();
    let l = ctx.top();
    let r = ctx.bot();
    match ctx.product(l, r) {
        Bdd::Atom { atom, pos, lu, neg } => {
            assert!(matches!(atom.left(), Bdd::Top));
            assert!(matches!(atom.right(), Bdd::Bot));
            assert!(matches!(pos, Bdd::Top));
            assert!(matches!(lu, Bdd::Bot));
            assert!(matches!(neg, Bdd::Bot));
        }
        _ => panic!("expected a decision node"),
    }
    match ctx.arrow(l, r) {
        Bdd::Atom { atom, pos, lu, neg } => {
            assert!(matches!(atom.domain(), Bdd::Top));
            assert!(matches!(atom.codomain(), Bdd::Bot));
            assert!(matches!(pos, Bdd::Top));
            assert!(matches!(lu, Bdd::Bot));
            assert!(matches!(neg, Bdd::Bot));
        }
        _ => panic!("expected a decision node"),
    }
}

fn labels(props: &Props<'_, TestConfig>) -> Vec<String> {
    let mut out = Vec::new();
    let mut at = props;
    while let Props::Cons { label, rest, .. } = at {
        out.push(label.0.clone());
        at = rest;
    }
    out
}

#[test]
fn record_keeps_its_fields_in_the_order_given() {
    let ctx: Context<TestConfig> = Context::new();
    let props = vec![
        ("zeta".into(), ctx.top()),
        ("alpha".into(), ctx.bot()),
        ("mid".into(), ctx.top()),
    ];
    match ctx.record(Openness::Closed, props) {
        Bdd::Atom { atom, pos, lu, neg } => {
            assert_eq!(atom.open, Openness::Closed);
            assert_eq!(labels(atom.map), vec!["zeta", "alpha", "mid"]);
            match atom.map {
                Props::Cons { ty, rest, .. } => {
                    assert!(matches!(ty, Bdd::Top));
                    match rest {
                        Props::Cons { ty, .. } => assert!(matches!(ty, Bdd::Bot)),
                        Props::Nil => panic!("expected a second field"),
                    }
                }
                Props::Nil => panic!("expected a first field"),
            }
            assert!(matches!(pos, Bdd::Top));
            assert!(matches!(lu, Bdd::Bot));
            assert!(matches!(neg, Bdd::Bot));
        }
        _ => panic!("expected a decision node"),
    }
    match ctx.record(Openness::Open, vec![]) {
        Bdd::Atom { atom, .. } => {
            assert_eq!(atom.open, Openness::Open);
            assert!(matches!(atom.map, Props::Nil));
        }
        _ => panic!("expected a decision node"),
    }
}

#[test]
fn refr_keeps_its_name_and_arguments() {
    let ctx: Context<TestConfig> = Context::new();
    match ctx.refr("List".into(), vec![ctx.bot(), ctx.top()]) {
        Bdd::Atom { atom, pos, lu, neg } => {
            assert_eq!(atom.id.0, "List");
            match atom.args {
                Args::Cons { head, rest } => {
                    assert!(matches!(head, Bdd::Bot));
                    match rest {
                        Args::Cons { head, rest } => {
                            assert!(matches!(head, Bdd::Top));
                            assert!(matches!(rest, Args::Nil));
                        }
                        Args::Nil => panic!("expected a second argument"),
                    }
                }
                Args::Nil => panic!("expected a first argument"),
            }
            assert!(matches!(pos, Bdd::Top));
            assert!(matches!(lu, Bdd::Bot));
            assert!(matches!(neg, Bdd::Bot));
        }
        _ => panic!("expected a decision node"),
    }
}

#[test]
fn empty_type_has_every_shape_at_bottom() {
    let ctx: Context<TestConfig> = Context::new();
    let t: Type<'_, TestConfig> = Type::empty(ctx.arena());
    assert_eq!(*t.vars, Bdd::Bot);
    assert_eq!(*t.basics, Bdd::Bot);
    assert!(matches!(t.products, Bdd::Bot));
    assert!(matches!(t.arrows, Bdd::Bot));
    assert!(matches!(t.records, Bdd::Bot));
    assert!(matches!(t.refrs, Bdd::Bot));
}

#[test]
fn types_of_basics_only_stay_so_under_union_and_difference() {
    let ctx: Context<TestConfig> = Context::new();
    let arena = ctx.arena();
    let int = ctx.basic("Int".into());
    let boolean = ctx.basic("Boolean".into());
    let t1: Type<'_, TestConfig> = Type::from_basics(arena, int);
    let t2: Type<'_, TestConfig> = Type::from_basics(arena, ctx.union(&[int, boolean]));
    for t in [Type::union(arena, &t1, &t2), Type::diff(arena, &t1, &t2), Type::diff(arena, &t2, &t1)] {
        assert_eq!(*t.vars, Bdd::Bot);
        assert!(matches!(t.products, Bdd::Bot));
        assert!(matches!(t.arrows, Bdd::Bot));
        assert!(matches!(t.records, Bdd::Bot));
        assert!(matches!(t.refrs, Bdd::Bot));
    }
    let u = Type::union(arena, &t1, &t2);
    assert_eq!(u.basics, Bdd::union(arena, t1.basics, t2.basics));
    let d = Type::diff(arena, &t2, &t1);
    assert_eq!(d.basics, Bdd::diff(arena, t2.basics, t1.basics));
}

#[test]
fn type_union_and_difference_work_shape_by_shape() {
    let ctx: Context<TestConfig> = Context::new();
    let arena = ctx.arena();
    let mut t1: Type<'_, TestConfig> = Type::empty(arena);
    t1.vars = ctx.var("a".into());
    t1.products = ctx.product(ctx.top(), ctx.bot());
    let mut t2: Type<'_, TestConfig> = Type::empty(arena);
    t2.vars = ctx.var("b".into());
    t2.products = ctx.product(ctx.top(), ctx.bot());
    t2.arrows = ctx.arrow(ctx.bot(), ctx.top());
    let u = Type::union(arena, &t1, &t2);
    assert_eq!(u.vars, Bdd::union(arena, t1.vars, t2.vars));
    assert!(u.products.same(t1.products));
    assert!(u.arrows.same(t2.arrows));
    assert_eq!(*u.basics, Bdd::Bot);
    let d = Type::diff(arena, &t2, &t1);
    assert_eq!(d.vars, Bdd::diff(arena, t2.vars, t1.vars));
    assert!(matches!(d.products, Bdd::Bot));
    assert!(d.arrows.same(t2.arrows));
}
