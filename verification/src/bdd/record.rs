//! Record types: labelled fields in the order they were given, and whether
//! further fields are allowed.

use crate::arena::place;
use crate::atom::{Order, TotalOrder, TyAtom};
use crate::bdd::aggregate::{
    type_compare, type_order, type_order_chain, type_order_equal, type_order_flip, type_order_fn,
    Type,
};
use crate::bdd::Bdd;
use crate::ty::TyConfig;
use bumpalo::Bump;
use vstd::prelude::*;

verus! {

/// Whether a record allows fields that it does not list.
#[derive(Clone, Copy, Debug, PartialEq, Eq)]
pub enum Openness {
    Open,
    Closed,
}

impl Openness {
    /// `Open` comes before `Closed`.
    pub open spec fn order(self, other: Openness) -> Order {
        match (self, other) {
            (Openness::Open, Openness::Closed) => Order::Less,
            (Openness::Closed, Openness::Open) => Order::Greater,
            _ => Order::Equal,
        }
    }

    /// Computes `order`.
    pub fn compare(self, other: Openness) -> (o: Order)
        ensures
            o == self.order(other),
    {
        match (self, other) {
            (Openness::Open, Openness::Closed) => Order::Less,
            (Openness::Closed, Openness::Open) => Order::Greater,
            _ => Order::Equal,
        }
    }
}

/// The fields of a record, first given first: a list whose cells live in
/// the arena.
#[derive(Debug)]
pub enum Props<'a, C: TyConfig> {
    Nil,
    Cons { label: C::Prop, ty: &'a Bdd<'a, Type<'a, C>>, rest: &'a Props<'a, C> },
}

impl<'a, C: TyConfig> View for Props<'a, C> {
    type V = Seq<(C::Prop, &'a Bdd<'a, Type<'a, C>>)>;

    open spec fn view(&self) -> Self::V {
        self.fields()
    }
}

impl<'a, C: TyConfig> Props<'a, C> {
    /// The fields as a sequence.
    pub open spec fn fields(self) -> Seq<(C::Prop, &'a Bdd<'a, Type<'a, C>>)>
        decreases self,
    {
        match self {
            Props::Nil => Seq::empty(),
            Props::Cons { label, ty, rest } => seq![(label, ty)] + rest.fields(),
        }
    }

    /// Lays the fields out in the arena, in the order of the vector.
    pub fn from_vec(arena: &'a Bump, props: Vec<(C::Prop, &'a Bdd<'a, Type<'a, C>>)>) -> (r:
        &'a Self)
        ensures
            r@ == props@,
    {
        let ghost all = props@;
        let mut props = props;
        let mut list: &'a Self = place(arena, Props::Nil);
        while props.len() > 0
            invariant
                props@ + list@ == all,
            decreases props.len(),
        {
            let ghost before = props@;
            let ghost tail = list@;
            match props.pop() {
                Some((label, ty)) => {
                    list = place(arena, Props::Cons { label, ty, rest: list });
                    assert(props@ + list@ =~= before + tail);
                },
                None => {},
            }
        }
        assert(props@ + list@ =~= list@);
        list
    }
}

/// A record type.
#[derive(Debug)]
pub struct Record<'a, C: TyConfig> {
    pub map: &'a Props<'a, C>,
    pub open: Openness,
}

/// `type_order` on what lies inside `container`, and `Equal` elsewhere. The order
/// of diagrams asks for the order of atoms only inside the diagram, so this
/// is the order it sees; the guard is what shows the recursion to end.
spec fn type_order_within<'a, C: TyConfig>(container: Props<'a, C>) -> spec_fn(
    Type<'a, C>,
    Type<'a, C>,
) -> Order
    decreases container, 0int,
{
    |x: Type<'a, C>, y: Type<'a, C>|
        if decreases_to!(container => x) {
            type_order(x, y)
        } else {
            Order::Equal
        }
}

/// The order of field lists: field by field, each by label and then by
/// type; a list comes before every list that extends it.
pub closed spec fn props_order<'a, C: TyConfig>(a: Props<'a, C>, b: Props<'a, C>) -> Order
    decreases a, 1int,
{
    match (a, b) {
        (
            Props::Cons { label: k1, ty: t1, rest: r1 },
            Props::Cons { label: k2, ty: t2, rest: r2 },
        ) => k1.order(&k2).lex(
            t1.order_by(type_order_within(a), *t2).lex(props_order(*r1, *r2)),
        ),
        (Props::Nil, Props::Nil) => Order::Equal,
        (Props::Nil, Props::Cons { .. }) => Order::Less,
        (Props::Cons { .. }, Props::Nil) => Order::Greater,
    }
}

/// `props_order` written out.
pub open spec fn props_order_by_cells<'a, C: TyConfig>(a: Props<'a, C>, b: Props<'a, C>) -> Order {
    match (a, b) {
        (
            Props::Cons { label: k1, ty: t1, rest: r1 },
            Props::Cons { label: k2, ty: t2, rest: r2 },
        ) => k1.order(&k2).lex(t1.order_by(type_order_fn(), *t2).lex(props_order(*r1, *r2))),
        (Props::Nil, Props::Nil) => Order::Equal,
        (Props::Nil, Props::Cons { .. }) => Order::Less,
        (Props::Cons { .. }, Props::Nil) => Order::Greater,
    }
}

/// Field lists compare cell by cell.
pub proof fn props_order_unfold<'a, C: TyConfig>(a: Props<'a, C>, b: Props<'a, C>)
    ensures
        props_order(a, b) == props_order_by_cells(a, b),
{
    match (a, b) {
        (
            Props::Cons { label: k1, ty: t1, rest: r1 },
            Props::Cons { label: k2, ty: t2, rest: r2 },
        ) => {
            let within = type_order_within(a);
            assert forall|x: Type<'a, C>, y: Type<'a, C>| t1.mentions(x) implies
                #[trigger] within(x, y) == type_order_fn::<C>()(x, y) by {
                t1.mentioned_is_smaller(x);
            }
            t1.order_by_agree(within, type_order_fn(), *t2);
        },
        _ => {},
    }
}

/// `props_order` answers `Equal` exactly on equal lists.
pub proof fn props_order_equal<'a, C: TyConfig>(a: Props<'a, C>, b: Props<'a, C>)
    ensures
        (props_order(a, b) is Equal) <==> a == b,
    decreases a,
{
    props_order_unfold(a, b);
    match (a, b) {
        (
            Props::Cons { label: k1, ty: t1, rest: r1 },
            Props::Cons { label: k2, ty: t2, rest: r2 },
        ) => {
            C::Prop::order_equal(&k1, &k2);
            let f = type_order_fn::<C>();
            assert forall|x: Type<'a, C>, y: Type<'a, C>| t1.mentions(x) implies
                ((#[trigger] f(x, y) is Equal) <==> x == y) by {
                t1.mentioned_is_smaller(x);
                type_order_equal(x, y);
            }
            t1.order_by_equal(f, *t2);
            props_order_equal(*r1, *r2);
        },
        _ => {},
    }
}

/// Exchanging two lists flips their order.
pub proof fn props_order_flip<'a, C: TyConfig>(a: Props<'a, C>, b: Props<'a, C>)
    ensures
        props_order(b, a) == props_order(a, b).flip(),
    decreases a,
{
    props_order_unfold(a, b);
    props_order_unfold(b, a);
    match (a, b) {
        (
            Props::Cons { label: k1, ty: t1, rest: r1 },
            Props::Cons { label: k2, ty: t2, rest: r2 },
        ) => {
            C::Prop::order_flip(&k1, &k2);
            let f = type_order_fn::<C>();
            assert forall|x: Type<'a, C>, y: Type<'a, C>| t1.mentions(x) implies
                f(y, x) == (#[trigger] f(x, y)).flip() by {
                t1.mentioned_is_smaller(x);
                type_order_flip(x, y);
            }
            t1.order_by_flip(f, *t2);
            props_order_flip(*r1, *r2);
        },
        _ => {},
    }
}

/// `Less` is transitive on lists.
pub proof fn props_order_chain<'a, C: TyConfig>(a: Props<'a, C>, b: Props<'a, C>, c: Props<'a, C>)
    requires
        props_order(a, b) is Less,
        props_order(b, c) is Less,
    ensures
        props_order(a, c) is Less,
    decreases a,
{
    props_order_unfold(a, b);
    props_order_unfold(b, c);
    props_order_unfold(a, c);
    match (a, b, c) {
        (
            Props::Cons { label: k1, ty: t1, rest: r1 },
            Props::Cons { label: k2, ty: t2, rest: r2 },
            Props::Cons { label: k3, ty: t3, rest: r3 },
        ) => {
            C::Prop::order_equal(&k1, &k2);
            C::Prop::order_equal(&k2, &k3);
            if k1.order(&k2) is Less && k2.order(&k3) is Less {
                C::Prop::order_chain(&k1, &k2, &k3);
            }
            let f = type_order_fn::<C>();
            assert forall|x: Type<'a, C>, y: Type<'a, C>|
                ((#[trigger] f(x, y) is Equal) <==> x == y) by {
                type_order_equal(x, y);
            }
            assert forall|x: Type<'a, C>, y: Type<'a, C>, z: Type<'a, C>|
                t1.mentions(x)
                    && (#[trigger] f(x, y) is Less)
                    && (#[trigger] f(y, z) is Less) implies
                f(x, z) is Less by {
                t1.mentioned_is_smaller(x);
                type_order_chain(x, y, z);
            }
            t1.order_by_equal(f, *t2);
            t2.order_by_equal(f, *t3);
            if t1.order_by(f, *t2) is Less && t2.order_by(f, *t3) is Less {
                t1.order_by_chain(f, *t2, *t3);
            }
            props_order_equal(*r1, *r2);
            props_order_equal(*r2, *r3);
            if props_order(*r1, *r2) is Less && props_order(*r2, *r3) is Less {
                props_order_chain(*r1, *r2, *r3);
            }
        },
        _ => {},
    }
}

/// Compares two field lists.
pub fn props_compare<'a, C: TyConfig>(a: &Props<'a, C>, b: &Props<'a, C>) -> (o: Order)
    ensures
        o == props_order(*a, *b),
    decreases a,
{
    proof {
        props_order_unfold(*a, *b);
    }
    match (a, b) {
        (
            Props::Cons { label: k1, ty: t1, rest: r1 },
            Props::Cons { label: k2, ty: t2, rest: r2 },
        ) => match k1.compare(k2) {
            Order::Less => Order::Less,
            Order::Greater => Order::Greater,
            Order::Equal => {
                let f = |x: &Type<'a, C>, y: &Type<'a, C>| -> (o: Order)
                    requires
                        decreases_to!(a => x),
                    ensures
                        o == type_order(*x, *y),
                    { type_compare(x, y) };
                proof {
                    assert forall|x: &Type<'a, C>, y: &Type<'a, C>| t1.mentions(*x) implies
                        #[trigger] f.requires((x, y)) by {
                        t1.mentioned_is_smaller(*x);
                    }
                }
                match t1.compare_by(&f, t2, Ghost(type_order_fn())) {
                    Order::Less => Order::Less,
                    Order::Greater => Order::Greater,
                    Order::Equal => props_compare(r1, r2),
                }
            },
        },
        (Props::Nil, Props::Nil) => Order::Equal,
        (Props::Nil, Props::Cons { .. }) => Order::Less,
        (Props::Cons { .. }, Props::Nil) => Order::Greater,
    }
}

/// The order of records: by the fields, then by openness.
pub open spec fn record_order<'a, C: TyConfig>(a: Record<'a, C>, b: Record<'a, C>) -> Order
    decreases a, 1int,
{
    props_order(*a.map, *b.map).lex(a.open.order(b.open))
}

/// `record_order` as a function of two values.
pub open spec fn record_order_fn<'a, C: TyConfig>() -> spec_fn(
    Record<'a, C>,
    Record<'a, C>,
) -> Order {
    |x: Record<'a, C>, y: Record<'a, C>| record_order(x, y)
}

/// `record_order` answers `Equal` exactly on equal records.
pub proof fn record_order_equal<'a, C: TyConfig>(a: Record<'a, C>, b: Record<'a, C>)
    ensures
        (record_order(a, b) is Equal) <==> a == b,
    decreases a,
{
    props_order_equal(*a.map, *b.map);
}

/// Exchanging two records flips their order.
pub proof fn record_order_flip<'a, C: TyConfig>(a: Record<'a, C>, b: Record<'a, C>)
    ensures
        record_order(b, a) == record_order(a, b).flip(),
    decreases a,
{
    props_order_flip(*a.map, *b.map);
}

/// `Less` is transitive on records.
pub proof fn record_order_chain<'a, C: TyConfig>(
    a: Record<'a, C>,
    b: Record<'a, C>,
    c: Record<'a, C>,
)
    requires
        record_order(a, b) is Less,
        record_order(b, c) is Less,
    ensures
        record_order(a, c) is Less,
    decreases a,
{
    props_order_equal(*a.map, *b.map);
    props_order_equal(*b.map, *c.map);
    if props_order(*a.map, *b.map) is Less && props_order(*b.map, *c.map) is Less {
        props_order_chain(*a.map, *b.map, *c.map);
    }
}

/// Compares two records.
pub fn record_compare<'a, C: TyConfig>(a: &Record<'a, C>, b: &Record<'a, C>) -> (o: Order)
    ensures
        o == record_order(*a, *b),
    decreases a,
{
    match props_compare(a.map, b.map) {
        Order::Less => Order::Less,
        Order::Greater => Order::Greater,
        Order::Equal => a.open.compare(b.open),
    }
}

impl<'a, C: TyConfig> TotalOrder for Record<'a, C> {
    open spec fn order(&self, other: &Self) -> Order {
        record_order(*self, *other)
    }

    proof fn order_equal(a: &Self, b: &Self) {
        record_order_equal(*a, *b);
    }

    proof fn order_flip(a: &Self, b: &Self) {
        record_order_flip(*a, *b);
    }

    proof fn order_chain(a: &Self, b: &Self, c: &Self) {
        record_order_chain(*a, *b, *c);
    }

    fn compare(&self, other: &Self) -> (o: Order) {
        record_compare(self, other)
    }
}

impl<'a, C: TyConfig> TyAtom for Record<'a, C> {

}

} // verus!
