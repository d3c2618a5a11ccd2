//! The type aggregate: one diagram for each structural shape.

use crate::atom::{Order, TotalOrder, TyAtom};
use crate::bdd::arrow::{
    arrow_compare, arrow_order, arrow_order_chain, arrow_order_equal, arrow_order_flip,
    arrow_order_fn, Arrow,
};
use crate::bdd::product::{
    product_compare, product_order, product_order_chain, product_order_equal, product_order_flip,
    product_order_fn, Product,
};
use crate::bdd::record::{
    record_compare, record_order, record_order_chain, record_order_equal, record_order_flip,
    record_order_fn, Record,
};
use crate::bdd::refr::{
    refr_compare, refr_order, refr_order_chain, refr_order_equal, refr_order_flip, refr_order_fn,
    Refr,
};
use crate::bdd::Bdd;
use crate::ty::TyConfig;
use bumpalo::Bump;
use vstd::prelude::*;

verus! {

/// One semantic type: the union of what its six diagrams describe, each
/// over the atoms of one structural shape.
#[derive(Debug)]
pub struct Type<'a, C: TyConfig> {
    pub vars: &'a Bdd<'a, C::Var>,
    pub basics: &'a Bdd<'a, C::Basic>,
    pub products: &'a Bdd<'a, Product<'a, C>>,
    pub arrows: &'a Bdd<'a, Arrow<'a, C>>,
    pub records: &'a Bdd<'a, Record<'a, C>>,
    pub refrs: &'a Bdd<'a, Refr<'a, C>>,
}

impl<'a, C: TyConfig> Type<'a, C> {
    /// The empty type: every shape at `Bot`.
    pub open spec fn bottom() -> Self {
        Type {
            vars: &Bdd::Bot,
            basics: &Bdd::Bot,
            products: &Bdd::Bot,
            arrows: &Bdd::Bot,
            records: &Bdd::Bot,
            refrs: &Bdd::Bot,
        }
    }

    /// The type that `basics` describes and that has no other shape.
    pub open spec fn of_basics(basics: Bdd<'a, C::Basic>) -> Self {
        Type {
            vars: &Bdd::Bot,
            basics: &basics,
            products: &Bdd::Bot,
            arrows: &Bdd::Bot,
            records: &Bdd::Bot,
            refrs: &Bdd::Bot,
        }
    }

    /// Union, shape by shape.
    pub open spec fn join(self, other: Self) -> Self {
        Type {
            vars: &self.vars.join(*other.vars),
            basics: &self.basics.join(*other.basics),
            products: &self.products.join(*other.products),
            arrows: &self.arrows.join(*other.arrows),
            records: &self.records.join(*other.records),
            refrs: &self.refrs.join(*other.refrs),
        }
    }

    /// Difference, shape by shape.
    pub open spec fn minus(self, other: Self) -> Self {
        Type {
            vars: &self.vars.minus(*other.vars),
            basics: &self.basics.minus(*other.basics),
            products: &self.products.minus(*other.products),
            arrows: &self.arrows.minus(*other.arrows),
            records: &self.records.minus(*other.records),
            refrs: &self.refrs.minus(*other.refrs),
        }
    }

    /// The empty type.
    pub fn empty(arena: &'a Bump) -> (t: Self)
        ensures
            t == Self::bottom(),
    {
        Type {
            vars: Bdd::bot(arena),
            basics: Bdd::bot(arena),
            products: Bdd::bot(arena),
            arrows: Bdd::bot(arena),
            records: Bdd::bot(arena),
            refrs: Bdd::bot(arena),
        }
    }

    /// The type that `basics` describes and that has no other shape.
    pub fn from_basics(arena: &'a Bump, basics: &'a Bdd<'a, C::Basic>) -> (t: Self)
        ensures
            t == Self::of_basics(*basics),
    {
        Type {
            vars: Bdd::bot(arena),
            basics,
            products: Bdd::bot(arena),
            arrows: Bdd::bot(arena),
            records: Bdd::bot(arena),
            refrs: Bdd::bot(arena),
        }
    }

    /// The union of two types: the union of their diagrams, shape by shape.
    pub fn union(arena: &'a Bump, t1: &Self, t2: &Self) -> (t: Self)
        ensures
            t == t1.join(*t2),
    {
        Type {
            vars: Bdd::union(arena, t1.vars, t2.vars),
            basics: Bdd::union(arena, t1.basics, t2.basics),
            products: Bdd::union(arena, t1.products, t2.products),
            arrows: Bdd::union(arena, t1.arrows, t2.arrows),
            records: Bdd::union(arena, t1.records, t2.records),
            refrs: Bdd::union(arena, t1.refrs, t2.refrs),
        }
    }

    /// The difference of two types: the difference of their diagrams, shape
    /// by shape.
    pub fn diff(arena: &'a Bump, t1: &Self, t2: &Self) -> (t: Self)
        ensures
            t == t1.minus(*t2),
    {
        Type {
            vars: Bdd::diff(arena, t1.vars, t2.vars),
            basics: Bdd::diff(arena, t1.basics, t2.basics),
            products: Bdd::diff(arena, t1.products, t2.products),
            arrows: Bdd::diff(arena, t1.arrows, t2.arrows),
            records: Bdd::diff(arena, t1.records, t2.records),
            refrs: Bdd::diff(arena, t1.refrs, t2.refrs),
        }
    }

    /// The shapes are independent: the union and the difference of two
    /// types that have basic types only have basic types only, and the
    /// empty type is of that kind.
    pub proof fn basics_stay_alone(b1: Bdd<'a, C::Basic>, b2: Bdd<'a, C::Basic>)
        ensures
            Self::of_basics(b1).join(Self::of_basics(b2)) == Self::of_basics(b1.join(b2)),
            Self::of_basics(b1).minus(Self::of_basics(b2)) == Self::of_basics(b1.minus(b2)),
            Self::bottom() == Self::of_basics(Bdd::Bot),
    {
    }
}

/// The order of types: field by field, in the order of declaration, each
/// field in the structural order of its diagrams.
pub closed spec fn type_order<'a, C: TyConfig>(a: Type<'a, C>, b: Type<'a, C>) -> Order
    decreases a, 1int,
{
    a.vars.order(*b.vars).lex(
        a.basics.order(*b.basics).lex(
            a.products.order_by(product_order_within(a), *b.products).lex(
                a.arrows.order_by(arrow_order_within(a), *b.arrows).lex(
                    a.records.order_by(record_order_within(a), *b.records).lex(
                        a.refrs.order_by(refr_order_within(a), *b.refrs),
                    ),
                ),
            ),
        ),
    )
}

/// `product_order` on what lies inside `container`, and `Equal` elsewhere. The order
/// of diagrams asks for the order of atoms only inside the diagram, so this
/// is the order it sees; the guard is what shows the recursion to end.
spec fn product_order_within<'a, C: TyConfig>(container: Type<'a, C>) -> spec_fn(
    Product<'a, C>,
    Product<'a, C>,
) -> Order
    decreases container, 0int,
{
    |x: Product<'a, C>, y: Product<'a, C>|
        if decreases_to!(container => x) {
            product_order(x, y)
        } else {
            Order::Equal
        }
}

/// `arrow_order` on what lies inside `container`, and `Equal` elsewhere. The order
/// of diagrams asks for the order of atoms only inside the diagram, so this
/// is the order it sees; the guard is what shows the recursion to end.
spec fn arrow_order_within<'a, C: TyConfig>(container: Type<'a, C>) -> spec_fn(
    Arrow<'a, C>,
    Arrow<'a, C>,
) -> Order
    decreases container, 0int,
{
    |x: Arrow<'a, C>, y: Arrow<'a, C>|
        if decreases_to!(container => x) {
            arrow_order(x, y)
        } else {
            Order::Equal
        }
}

/// `record_order` on what lies inside `container`, and `Equal` elsewhere. The order
/// of diagrams asks for the order of atoms only inside the diagram, so this
/// is the order it sees; the guard is what shows the recursion to end.
spec fn record_order_within<'a, C: TyConfig>(container: Type<'a, C>) -> spec_fn(
    Record<'a, C>,
    Record<'a, C>,
) -> Order
    decreases container, 0int,
{
    |x: Record<'a, C>, y: Record<'a, C>|
        if decreases_to!(container => x) {
            record_order(x, y)
        } else {
            Order::Equal
        }
}

/// `refr_order` on what lies inside `container`, and `Equal` elsewhere. The order
/// of diagrams asks for the order of atoms only inside the diagram, so this
/// is the order it sees; the guard is what shows the recursion to end.
spec fn refr_order_within<'a, C: TyConfig>(container: Type<'a, C>) -> spec_fn(
    Refr<'a, C>,
    Refr<'a, C>,
) -> Order
    decreases container, 0int,
{
    |x: Refr<'a, C>, y: Refr<'a, C>|
        if decreases_to!(container => x) {
            refr_order(x, y)
        } else {
            Order::Equal
        }
}

/// `type_order` as a function of two values.
pub open spec fn type_order_fn<'a, C: TyConfig>() -> spec_fn(Type<'a, C>, Type<'a, C>) -> Order {
    |x: Type<'a, C>, y: Type<'a, C>| type_order(x, y)
}

/// `type_order` written out.
pub open spec fn type_order_by_fields<'a, C: TyConfig>(a: Type<'a, C>, b: Type<'a, C>) -> Order {
    a.vars.order(*b.vars).lex(
        a.basics.order(*b.basics).lex(
            a.products.order_by(product_order_fn(), *b.products).lex(
                a.arrows.order_by(arrow_order_fn(), *b.arrows).lex(
                    a.records.order_by(record_order_fn(), *b.records).lex(
                        a.refrs.order_by(refr_order_fn(), *b.refrs),
                    ),
                ),
            ),
        ),
    )
}

/// Types compare field by field.
pub proof fn type_order_unfold<'a, C: TyConfig>(a: Type<'a, C>, b: Type<'a, C>)
    ensures
        type_order(a, b) == type_order_by_fields(a, b),
{
    let products = product_order_within(a);
    assert forall|x: Product<'a, C>, y: Product<'a, C>| a.products.mentions(x) implies
        #[trigger] products(x, y) == product_order_fn::<C>()(x, y) by {
        a.products.mentioned_is_smaller(x);
    }
    a.products.order_by_agree(products, product_order_fn(), *b.products);
    let arrows = arrow_order_within(a);
    assert forall|x: Arrow<'a, C>, y: Arrow<'a, C>| a.arrows.mentions(x) implies
        #[trigger] arrows(x, y) == arrow_order_fn::<C>()(x, y) by {
        a.arrows.mentioned_is_smaller(x);
    }
    a.arrows.order_by_agree(arrows, arrow_order_fn(), *b.arrows);
    let records = record_order_within(a);
    assert forall|x: Record<'a, C>, y: Record<'a, C>| a.records.mentions(x) implies
        #[trigger] records(x, y) == record_order_fn::<C>()(x, y) by {
        a.records.mentioned_is_smaller(x);
    }
    a.records.order_by_agree(records, record_order_fn(), *b.records);
    let refrs = refr_order_within(a);
    assert forall|x: Refr<'a, C>, y: Refr<'a, C>| a.refrs.mentions(x) implies
        #[trigger] refrs(x, y) == refr_order_fn::<C>()(x, y) by {
        a.refrs.mentioned_is_smaller(x);
    }
    a.refrs.order_by_agree(refrs, refr_order_fn(), *b.refrs);
}

/// `type_order` answers `Equal` exactly on equal types.
pub proof fn type_order_equal<'a, C: TyConfig>(a: Type<'a, C>, b: Type<'a, C>)
    ensures
        (type_order(a, b) is Equal) <==> a == b,
    decreases a,
{
    type_order_unfold(a, b);
    a.vars.order_equal(*b.vars);
    a.basics.order_equal(*b.basics);
    assert forall|x: Product<'a, C>, y: Product<'a, C>| a.products.mentions(x) implies
        ((#[trigger] product_order_fn::<C>()(x, y) is Equal) <==> x == y) by {
        a.products.mentioned_is_smaller(x);
        product_order_equal(x, y);
    }
    a.products.order_by_equal(product_order_fn(), *b.products);
    assert forall|x: Arrow<'a, C>, y: Arrow<'a, C>| a.arrows.mentions(x) implies
        ((#[trigger] arrow_order_fn::<C>()(x, y) is Equal) <==> x == y) by {
        a.arrows.mentioned_is_smaller(x);
        arrow_order_equal(x, y);
    }
    a.arrows.order_by_equal(arrow_order_fn(), *b.arrows);
    assert forall|x: Record<'a, C>, y: Record<'a, C>| a.records.mentions(x) implies
        ((#[trigger] record_order_fn::<C>()(x, y) is Equal) <==> x == y) by {
        a.records.mentioned_is_smaller(x);
        record_order_equal(x, y);
    }
    a.records.order_by_equal(record_order_fn(), *b.records);
    assert forall|x: Refr<'a, C>, y: Refr<'a, C>| a.refrs.mentions(x) implies
        ((#[trigger] refr_order_fn::<C>()(x, y) is Equal) <==> x == y) by {
        a.refrs.mentioned_is_smaller(x);
        refr_order_equal(x, y);
    }
    a.refrs.order_by_equal(refr_order_fn(), *b.refrs);
}

/// Exchanging two types flips their order.
pub proof fn type_order_flip<'a, C: TyConfig>(a: Type<'a, C>, b: Type<'a, C>)
    ensures
        type_order(b, a) == type_order(a, b).flip(),
    decreases a,
{
    type_order_unfold(a, b);
    type_order_unfold(b, a);
    a.vars.order_flip(*b.vars);
    a.basics.order_flip(*b.basics);
    assert forall|x: Product<'a, C>, y: Product<'a, C>| a.products.mentions(x) implies
        product_order_fn::<C>()(y, x) == (#[trigger] product_order_fn::<C>()(x, y)).flip() by {
        a.products.mentioned_is_smaller(x);
        product_order_flip(x, y);
    }
    a.products.order_by_flip(product_order_fn(), *b.products);
    assert forall|x: Arrow<'a, C>, y: Arrow<'a, C>| a.arrows.mentions(x) implies
        arrow_order_fn::<C>()(y, x) == (#[trigger] arrow_order_fn::<C>()(x, y)).flip() by {
        a.arrows.mentioned_is_smaller(x);
        arrow_order_flip(x, y);
    }
    a.arrows.order_by_flip(arrow_order_fn(), *b.arrows);
    assert forall|x: Record<'a, C>, y: Record<'a, C>| a.records.mentions(x) implies
        record_order_fn::<C>()(y, x) == (#[trigger] record_order_fn::<C>()(x, y)).flip() by {
        a.records.mentioned_is_smaller(x);
        record_order_flip(x, y);
    }
    a.records.order_by_flip(record_order_fn(), *b.records);
    assert forall|x: Refr<'a, C>, y: Refr<'a, C>| a.refrs.mentions(x) implies
        refr_order_fn::<C>()(y, x) == (#[trigger] refr_order_fn::<C>()(x, y)).flip() by {
        a.refrs.mentioned_is_smaller(x);
        refr_order_flip(x, y);
    }
    a.refrs.order_by_flip(refr_order_fn(), *b.refrs);
}

/// `Less` is transitive on types.
pub proof fn type_order_chain<'a, C: TyConfig>(a: Type<'a, C>, b: Type<'a, C>, c: Type<'a, C>)
    requires
        type_order(a, b) is Less,
        type_order(b, c) is Less,
    ensures
        type_order(a, c) is Less,
    decreases a,
{
    type_order_unfold(a, b);
    type_order_unfold(b, c);
    type_order_unfold(a, c);
    a.vars.order_equal(*b.vars);
    b.vars.order_equal(*c.vars);
    if a.vars.order(*b.vars) is Less && b.vars.order(*c.vars) is Less {
        a.vars.order_chain(*b.vars, *c.vars);
    }
    a.basics.order_equal(*b.basics);
    b.basics.order_equal(*c.basics);
    if a.basics.order(*b.basics) is Less && b.basics.order(*c.basics) is Less {
        a.basics.order_chain(*b.basics, *c.basics);
    }
    let products = product_order_fn::<C>();
    assert forall|x: Product<'a, C>, y: Product<'a, C>|
        ((#[trigger] products(x, y) is Equal) <==> x == y) by {
        product_order_equal(x, y);
    }
    assert forall|x: Product<'a, C>, y: Product<'a, C>, z: Product<'a, C>|
        a.products.mentions(x)
            && (#[trigger] products(x, y) is Less)
            && (#[trigger] products(y, z) is Less) implies
        products(x, z) is Less by {
        a.products.mentioned_is_smaller(x);
        product_order_chain(x, y, z);
    }
    a.products.order_by_equal(products, *b.products);
    b.products.order_by_equal(products, *c.products);
    if a.products.order_by(products, *b.products) is Less && b.products.order_by(
        products,
        *c.products,
    ) is Less {
        a.products.order_by_chain(products, *b.products, *c.products);
    }
    let arrows = arrow_order_fn::<C>();
    assert forall|x: Arrow<'a, C>, y: Arrow<'a, C>|
        ((#[trigger] arrows(x, y) is Equal) <==> x == y) by {
        arrow_order_equal(x, y);
    }
    assert forall|x: Arrow<'a, C>, y: Arrow<'a, C>, z: Arrow<'a, C>|
        a.arrows.mentions(x)
            && (#[trigger] arrows(x, y) is Less)
            && (#[trigger] arrows(y, z) is Less) implies
        arrows(x, z) is Less by {
        a.arrows.mentioned_is_smaller(x);
        arrow_order_chain(x, y, z);
    }
    a.arrows.order_by_equal(arrows, *b.arrows);
    b.arrows.order_by_equal(arrows, *c.arrows);
    if a.arrows.order_by(arrows, *b.arrows) is Less
        && b.arrows.order_by(arrows, *c.arrows) is Less {
        a.arrows.order_by_chain(arrows, *b.arrows, *c.arrows);
    }
    let records = record_order_fn::<C>();
    assert forall|x: Record<'a, C>, y: Record<'a, C>|
        ((#[trigger] records(x, y) is Equal) <==> x == y) by {
        record_order_equal(x, y);
    }
    assert forall|x: Record<'a, C>, y: Record<'a, C>, z: Record<'a, C>|
        a.records.mentions(x)
            && (#[trigger] records(x, y) is Less)
            && (#[trigger] records(y, z) is Less) implies
        records(x, z) is Less by {
        a.records.mentioned_is_smaller(x);
        record_order_chain(x, y, z);
    }
    a.records.order_by_equal(records, *b.records);
    b.records.order_by_equal(records, *c.records);
    if a.records.order_by(records, *b.records) is Less && b.records.order_by(
        records,
        *c.records,
    ) is Less {
        a.records.order_by_chain(records, *b.records, *c.records);
    }
    let refrs = refr_order_fn::<C>();
    assert forall|x: Refr<'a, C>, y: Refr<'a, C>|
        ((#[trigger] refrs(x, y) is Equal) <==> x == y) by {
        refr_order_equal(x, y);
    }
    assert forall|x: Refr<'a, C>, y: Refr<'a, C>, z: Refr<'a, C>|
        a.refrs.mentions(x)
            && (#[trigger] refrs(x, y) is Less)
            && (#[trigger] refrs(y, z) is Less) implies
        refrs(x, z) is Less by {
        a.refrs.mentioned_is_smaller(x);
        refr_order_chain(x, y, z);
    }
    a.refrs.order_by_equal(refrs, *b.refrs);
    b.refrs.order_by_equal(refrs, *c.refrs);
    if a.refrs.order_by(refrs, *b.refrs) is Less && b.refrs.order_by(refrs, *c.refrs) is Less {
        a.refrs.order_by_chain(refrs, *b.refrs, *c.refrs);
    }
}


/// Compares two types.
pub fn type_compare<'a, C: TyConfig>(a: &Type<'a, C>, b: &Type<'a, C>) -> (o: Order)
    ensures
        o == type_order(*a, *b),
    decreases a,
{
    proof {
        type_order_unfold(*a, *b);
    }
    match a.vars.compare(b.vars) {
        Order::Less => { return Order::Less; },
        Order::Greater => { return Order::Greater; },
        Order::Equal => {},
    }
    match a.basics.compare(b.basics) {
        Order::Less => { return Order::Less; },
        Order::Greater => { return Order::Greater; },
        Order::Equal => {},
    }
    let products = |x: &Product<'a, C>, y: &Product<'a, C>| -> (o: Order)
        requires
            decreases_to!(a => x),
        ensures
            o == product_order(*x, *y),
        { product_compare(x, y) };
    proof {
        assert forall|x: &Product<'a, C>, y: &Product<'a, C>| a.products.mentions(*x) implies
            #[trigger] products.requires((x, y)) by {
            a.products.mentioned_is_smaller(*x);
        }
    }
    match a.products.compare_by(&products, b.products, Ghost(product_order_fn())) {
        Order::Less => { return Order::Less; },
        Order::Greater => { return Order::Greater; },
        Order::Equal => {},
    }
    let arrows = |x: &Arrow<'a, C>, y: &Arrow<'a, C>| -> (o: Order)
        requires
            decreases_to!(a => x),
        ensures
            o == arrow_order(*x, *y),
        { arrow_compare(x, y) };
    proof {
        assert forall|x: &Arrow<'a, C>, y: &Arrow<'a, C>| a.arrows.mentions(*x) implies
            #[trigger] arrows.requires((x, y)) by {
            a.arrows.mentioned_is_smaller(*x);
        }
    }
    match a.arrows.compare_by(&arrows, b.arrows, Ghost(arrow_order_fn())) {
        Order::Less => { return Order::Less; },
        Order::Greater => { return Order::Greater; },
        Order::Equal => {},
    }
    let records = |x: &Record<'a, C>, y: &Record<'a, C>| -> (o: Order)
        requires
            decreases_to!(a => x),
        ensures
            o == record_order(*x, *y),
        { record_compare(x, y) };
    proof {
        assert forall|x: &Record<'a, C>, y: &Record<'a, C>| a.records.mentions(*x) implies
            #[trigger] records.requires((x, y)) by {
            a.records.mentioned_is_smaller(*x);
        }
    }
    match a.records.compare_by(&records, b.records, Ghost(record_order_fn())) {
        Order::Less => { return Order::Less; },
        Order::Greater => { return Order::Greater; },
        Order::Equal => {},
    }
    let refrs = |x: &Refr<'a, C>, y: &Refr<'a, C>| -> (o: Order)
        requires
            decreases_to!(a => x),
        ensures
            o == refr_order(*x, *y),
        { refr_compare(x, y) };
    proof {
        assert forall|x: &Refr<'a, C>, y: &Refr<'a, C>| a.refrs.mentions(*x) implies
            #[trigger] refrs.requires((x, y)) by {
            a.refrs.mentioned_is_smaller(*x);
        }
    }
    a.refrs.compare_by(&refrs, b.refrs, Ghost(refr_order_fn()))
}

impl<'a, C: TyConfig> TotalOrder for Type<'a, C> {
    open spec fn order(&self, other: &Self) -> Order {
        type_order(*self, *other)
    }

    proof fn order_equal(a: &Self, b: &Self) {
        type_order_equal(*a, *b);
    }

    proof fn order_flip(a: &Self, b: &Self) {
        type_order_flip(*a, *b);
    }

    proof fn order_chain(a: &Self, b: &Self, c: &Self) {
        type_order_chain(*a, *b, *c);
    }

    fn compare(&self, other: &Self) -> (o: Order) {
        type_compare(self, other)
    }
}

impl<'a, C: TyConfig> TyAtom for Type<'a, C> {

}

} // verus!
