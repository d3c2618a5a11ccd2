//! Product types: a pair of diagrams over types.

use crate::atom::{Order, TotalOrder, TyAtom};
use crate::bdd::aggregate::{
    type_compare, type_order, type_order_chain, type_order_equal, type_order_flip, type_order_fn,
    Type,
};
use crate::bdd::Bdd;
use crate::ty::TyConfig;
use vstd::prelude::*;

verus! {

/// The product of a left and a right type.
///
/// A product refers to types and a type to products, so the two sides sit
/// in an `Option`, which lets each of the two types be well founded on its
/// own. The option is never `None` in a value that executable code holds.
#[derive(Debug)]
pub struct Product<'a, C: TyConfig> {
    sides: Option<(&'a Bdd<'a, Type<'a, C>>, &'a Bdd<'a, Type<'a, C>>)>,
}

impl<'a, C: TyConfig> Product<'a, C> {
    /// The product of `left` and `right`.
    pub closed spec fn pair(left: Bdd<'a, Type<'a, C>>, right: Bdd<'a, Type<'a, C>>) -> Self {
        Product { sides: Some((&left, &right)) }
    }

    /// Whether the value is a pair; every value that executable code holds
    /// is one.
    #[verifier::type_invariant]
    pub closed spec fn is_pair(self) -> bool {
        self.sides is Some
    }

    /// The left side of a pair.
    pub closed spec fn left_side(self) -> Bdd<'a, Type<'a, C>> {
        *self.sides.unwrap().0
    }

    /// The right side of a pair.
    pub closed spec fn right_side(self) -> Bdd<'a, Type<'a, C>> {
        *self.sides.unwrap().1
    }

    /// A pair is a pair, with the sides it was made of.
    pub proof fn pair_sides(left: Bdd<'a, Type<'a, C>>, right: Bdd<'a, Type<'a, C>>)
        ensures
            Self::pair(left, right).is_pair(),
            Self::pair(left, right).left_side() == left,
            Self::pair(left, right).right_side() == right,
    {
    }

    /// Every pair is the pair of its sides.
    pub proof fn pair_of_sides(self)
        requires
            self.is_pair(),
        ensures
            self == Self::pair(self.left_side(), self.right_side()),
    {
    }

    /// The product of `left` and `right`.
    pub fn new(left: &'a Bdd<'a, Type<'a, C>>, right: &'a Bdd<'a, Type<'a, C>>) -> (p: Self)
        ensures
            p == Self::pair(*left, *right),
    {
        Product { sides: Some((left, right)) }
    }

    /// The left side.
    pub fn left(&self) -> (d: &'a Bdd<'a, Type<'a, C>>)
        ensures
            self.is_pair(),
            *d == self.left_side(),
    {
        proof {
            use_type_invariant(self);
        }
        match self.sides {
            Some((left, _)) => left,
            None => vstd::pervasive::unreached(),
        }
    }

    /// The right side.
    pub fn right(&self) -> (d: &'a Bdd<'a, Type<'a, C>>)
        ensures
            self.is_pair(),
            *d == self.right_side(),
    {
        proof {
            use_type_invariant(self);
        }
        match self.sides {
            Some((_, right)) => right,
            None => vstd::pervasive::unreached(),
        }
    }
}

/// `type_order` on what lies inside `container`, and `Equal` elsewhere. The order
/// of diagrams asks for the order of atoms only inside the diagram, so this
/// is the order it sees; the guard is what shows the recursion to end.
spec fn type_order_within<'a, C: TyConfig>(container: Product<'a, C>) -> spec_fn(
    Type<'a, C>,
    Type<'a, C>,
) -> Order
    decreases container, 0int,
{
    |x: Type<'a, C>, y: Type<'a, C>|
        if decreases_to!(container => x) {
            type_order(x, y)
        } else {
            Order::Equal
        }
}

/// The order of products: by the left side, then by the right side, each in
/// the structural order of diagrams over types.
pub closed spec fn product_order<'a, C: TyConfig>(a: Product<'a, C>, b: Product<'a, C>) -> Order
    decreases a, 1int,
{
    match (a.sides, b.sides) {
        (Some((l1, r1)), Some((l2, r2))) => l1.order_by(type_order_within(a), *l2).lex(
            r1.order_by(type_order_within(a), *r2),
        ),
        (None, None) => Order::Equal,
        (None, Some(_)) => Order::Less,
        (Some(_), None) => Order::Greater,
    }
}

/// `product_order` as a function of two values.
pub open spec fn product_order_fn<'a, C: TyConfig>() -> spec_fn(
    Product<'a, C>,
    Product<'a, C>,
) -> Order {
    |x: Product<'a, C>, y: Product<'a, C>| product_order(x, y)
}

/// Two pairs compare by their left sides, then by their right sides.
pub proof fn product_order_unfold<'a, C: TyConfig>(a: Product<'a, C>, b: Product<'a, C>)
    requires
        a.is_pair(),
        b.is_pair(),
    ensures
        product_order(a, b) == a.left_side().order_by(type_order_fn(), b.left_side()).lex(
            a.right_side().order_by(type_order_fn(), b.right_side()),
        ),
{
    let (l1, r1) = a.sides.unwrap();
    let (l2, r2) = b.sides.unwrap();
    let within = type_order_within(a);
    assert forall|x: Type<'a, C>, y: Type<'a, C>| l1.mentions(x) implies
        #[trigger] within(x, y) == type_order_fn::<C>()(x, y) by {
        l1.mentioned_is_smaller(x);
    }
    l1.order_by_agree(within, type_order_fn(), *l2);
    assert forall|x: Type<'a, C>, y: Type<'a, C>| r1.mentions(x) implies
        #[trigger] within(x, y) == type_order_fn::<C>()(x, y) by {
        r1.mentioned_is_smaller(x);
    }
    r1.order_by_agree(within, type_order_fn(), *r2);
}

/// `product_order` answers `Equal` exactly on equal products.
pub proof fn product_order_equal<'a, C: TyConfig>(a: Product<'a, C>, b: Product<'a, C>)
    ensures
        (product_order(a, b) is Equal) <==> a == b,
    decreases a,
{
    match (a.sides, b.sides) {
        (Some((l1, r1)), Some((l2, r2))) => {
            product_order_unfold(a, b);
            let f = type_order_fn::<C>();
            assert forall|x: Type<'a, C>, y: Type<'a, C>| l1.mentions(x) implies
                ((#[trigger] f(x, y) is Equal) <==> x == y) by {
                l1.mentioned_is_smaller(x);
                type_order_equal(x, y);
            }
            l1.order_by_equal(f, *l2);
            assert forall|x: Type<'a, C>, y: Type<'a, C>| r1.mentions(x) implies
                ((#[trigger] f(x, y) is Equal) <==> x == y) by {
                r1.mentioned_is_smaller(x);
                type_order_equal(x, y);
            }
            r1.order_by_equal(f, *r2);
        },
        _ => {},
    }
}

/// Exchanging two products flips their order.
pub proof fn product_order_flip<'a, C: TyConfig>(a: Product<'a, C>, b: Product<'a, C>)
    ensures
        product_order(b, a) == product_order(a, b).flip(),
    decreases a,
{
    match (a.sides, b.sides) {
        (Some((l1, r1)), Some((l2, r2))) => {
            product_order_unfold(a, b);
            product_order_unfold(b, a);
            let f = type_order_fn::<C>();
            assert forall|x: Type<'a, C>, y: Type<'a, C>| l1.mentions(x) implies
                f(y, x) == (#[trigger] f(x, y)).flip() by {
                l1.mentioned_is_smaller(x);
                type_order_flip(x, y);
            }
            l1.order_by_flip(f, *l2);
            assert forall|x: Type<'a, C>, y: Type<'a, C>| r1.mentions(x) implies
                f(y, x) == (#[trigger] f(x, y)).flip() by {
                r1.mentioned_is_smaller(x);
                type_order_flip(x, y);
            }
            r1.order_by_flip(f, *r2);
        },
        _ => {},
    }
}

/// `Less` is transitive on products.
pub proof fn product_order_chain<'a, C: TyConfig>(
    a: Product<'a, C>,
    b: Product<'a, C>,
    c: Product<'a, C>,
)
    requires
        product_order(a, b) is Less,
        product_order(b, c) is Less,
    ensures
        product_order(a, c) is Less,
    decreases a,
{
    match (a.sides, b.sides, c.sides) {
        (Some((l1, r1)), Some((l2, r2)), Some((l3, r3))) => {
            product_order_unfold(a, b);
            product_order_unfold(b, c);
            product_order_unfold(a, c);
            let f = type_order_fn::<C>();
            assert forall|x: Type<'a, C>, y: Type<'a, C>|
                ((#[trigger] f(x, y) is Equal) <==> x == y) by {
                type_order_equal(x, y);
            }
            assert forall|x: Type<'a, C>, y: Type<'a, C>, z: Type<'a, C>|
                (l1.mentions(x) || r1.mentions(x))
                    && (#[trigger] f(x, y) is Less)
                    && (#[trigger] f(y, z) is Less) implies
                f(x, z) is Less by {
                if l1.mentions(x) {
                    l1.mentioned_is_smaller(x);
                } else {
                    r1.mentioned_is_smaller(x);
                }
                type_order_chain(x, y, z);
            }
            l1.order_by_equal(f, *l2);
            l2.order_by_equal(f, *l3);
            if l1.order_by(f, *l2) is Less && l2.order_by(f, *l3) is Less {
                l1.order_by_chain(f, *l2, *l3);
            }
            if r1.order_by(f, *r2) is Less && r2.order_by(f, *r3) is Less {
                r1.order_by_chain(f, *r2, *r3);
            }
        },
        _ => {},
    }
}

/// Compares two products.
pub fn product_compare<'a, C: TyConfig>(a: &Product<'a, C>, b: &Product<'a, C>) -> (o: Order)
    ensures
        o == product_order(*a, *b),
    decreases a,
{
    match (&a.sides, &b.sides) {
        (Some((l1, r1)), Some((l2, r2))) => {
            let f = |x: &Type<'a, C>, y: &Type<'a, C>| -> (o: Order)
                requires
                    decreases_to!(a => x),
                ensures
                    o == type_order(*x, *y),
                { type_compare(x, y) };
            proof {
                product_order_unfold(*a, *b);
                assert forall|x: &Type<'a, C>, y: &Type<'a, C>| l1.mentions(*x) implies
                    #[trigger] f.requires((x, y)) by {
                    l1.mentioned_is_smaller(*x);
                }
                assert forall|x: &Type<'a, C>, y: &Type<'a, C>| r1.mentions(*x) implies
                    #[trigger] f.requires((x, y)) by {
                    r1.mentioned_is_smaller(*x);
                }
            }
            match l1.compare_by(&f, l2, Ghost(type_order_fn())) {
                Order::Less => Order::Less,
                Order::Greater => Order::Greater,
                Order::Equal => r1.compare_by(&f, r2, Ghost(type_order_fn())),
            }
        },
        (None, None) => Order::Equal,
        (None, Some(_)) => Order::Less,
        (Some(_), None) => Order::Greater,
    }
}

impl<'a, C: TyConfig> TotalOrder for Product<'a, C> {
    open spec fn order(&self, other: &Self) -> Order {
        product_order(*self, *other)
    }

    proof fn order_equal(a: &Self, b: &Self) {
        product_order_equal(*a, *b);
    }

    proof fn order_flip(a: &Self, b: &Self) {
        product_order_flip(*a, *b);
    }

    proof fn order_chain(a: &Self, b: &Self, c: &Self) {
        product_order_chain(*a, *b, *c);
    }

    fn compare(&self, other: &Self) -> (o: Order) {
        product_compare(self, other)
    }
}

impl<'a, C: TyConfig> TyAtom for Product<'a, C> {

}

} // verus!
