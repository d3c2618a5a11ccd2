//! Arrow types: a domain and a codomain, both diagrams over types.

use crate::atom::{Order, TotalOrder, TyAtom};
use crate::bdd::aggregate::{
    type_compare, type_order, type_order_chain, type_order_equal, type_order_flip, type_order_fn,
    Type,
};
use crate::bdd::Bdd;
use crate::ty::TyConfig;
use vstd::prelude::*;

verus! {

/// The type of functions from a domain to a codomain.
///
/// An arrow refers to types and a type to arrows, so the two ends sit in an
/// `Option`, which lets each of the two types be well founded on its own.
/// The option is never `None` in a value that executable code holds.
#[derive(Debug)]
pub struct Arrow<'a, C: TyConfig> {
    ends: Option<(&'a Bdd<'a, Type<'a, C>>, &'a Bdd<'a, Type<'a, C>>)>,
}

impl<'a, C: TyConfig> Arrow<'a, C> {
    /// The arrow from `domain` to `codomain`.
    pub closed spec fn between(
        domain: Bdd<'a, Type<'a, C>>,
        codomain: Bdd<'a, Type<'a, C>>,
    ) -> Self {
        Arrow { ends: Some((&domain, &codomain)) }
    }

    /// Whether the value has its two ends; every value that executable code
    /// holds has.
    #[verifier::type_invariant]
    pub closed spec fn is_between(self) -> bool {
        self.ends is Some
    }

    /// The domain of an arrow.
    pub closed spec fn domain_side(self) -> Bdd<'a, Type<'a, C>> {
        *self.ends.unwrap().0
    }

    /// The codomain of an arrow.
    pub closed spec fn codomain_side(self) -> Bdd<'a, Type<'a, C>> {
        *self.ends.unwrap().1
    }

    /// An arrow has the ends it was made of.
    pub proof fn between_ends(domain: Bdd<'a, Type<'a, C>>, codomain: Bdd<'a, Type<'a, C>>)
        ensures
            Self::between(domain, codomain).is_between(),
            Self::between(domain, codomain).domain_side() == domain,
            Self::between(domain, codomain).codomain_side() == codomain,
    {
    }

    /// Every arrow is the arrow between its ends.
    pub proof fn between_of_ends(self)
        requires
            self.is_between(),
        ensures
            self == Self::between(self.domain_side(), self.codomain_side()),
    {
    }

    /// The arrow from `domain` to `codomain`.
    pub fn new(domain: &'a Bdd<'a, Type<'a, C>>, codomain: &'a Bdd<'a, Type<'a, C>>) -> (p: Self)
        ensures
            p == Self::between(*domain, *codomain),
    {
        Arrow { ends: Some((domain, codomain)) }
    }

    /// The domain.
    pub fn domain(&self) -> (d: &'a Bdd<'a, Type<'a, C>>)
        ensures
            self.is_between(),
            *d == self.domain_side(),
    {
        proof {
            use_type_invariant(self);
        }
        match self.ends {
            Some((domain, _)) => domain,
            None => vstd::pervasive::unreached(),
        }
    }

    /// The codomain.
    pub fn codomain(&self) -> (d: &'a Bdd<'a, Type<'a, C>>)
        ensures
            self.is_between(),
            *d == self.codomain_side(),
    {
        proof {
            use_type_invariant(self);
        }
        match self.ends {
            Some((_, codomain)) => codomain,
            None => vstd::pervasive::unreached(),
        }
    }
}

/// `type_order` on what lies inside `container`, and `Equal` elsewhere. The order
/// of diagrams asks for the order of atoms only inside the diagram, so this
/// is the order it sees; the guard is what shows the recursion to end.
spec fn type_order_within<'a, C: TyConfig>(container: Arrow<'a, C>) -> spec_fn(
    Type<'a, C>,
    Type<'a, C>,
) -> Order
    decreases container, 0int,
{
    |x: Type<'a, C>, y: Type<'a, C>|
        if decreases_to!(container => x) {
            type_order(x, y)
        } else {
            Order::Equal
        }
}

/// The order of arrows: by the domain, then by the codomain, each in the
/// structural order of diagrams over types.
pub closed spec fn arrow_order<'a, C: TyConfig>(a: Arrow<'a, C>, b: Arrow<'a, C>) -> Order
    decreases a, 1int,
{
    match (a.ends, b.ends) {
        (Some((l1, r1)), Some((l2, r2))) => l1.order_by(type_order_within(a), *l2).lex(
            r1.order_by(type_order_within(a), *r2),
        ),
        (None, None) => Order::Equal,
        (None, Some(_)) => Order::Less,
        (Some(_), None) => Order::Greater,
    }
}

/// `arrow_order` as a function of two values.
pub open spec fn arrow_order_fn<'a, C: TyConfig>() -> spec_fn(
    Arrow<'a, C>,
    Arrow<'a, C>,
) -> Order {
    |x: Arrow<'a, C>, y: Arrow<'a, C>| arrow_order(x, y)
}

/// Two arrows compare by their domains, then by their codomains.
pub proof fn arrow_order_unfold<'a, C: TyConfig>(a: Arrow<'a, C>, b: Arrow<'a, C>)
    requires
        a.is_between(),
        b.is_between(),
    ensures
        arrow_order(a, b) == a.domain_side().order_by(type_order_fn(), b.domain_side()).lex(
            a.codomain_side().order_by(type_order_fn(), b.codomain_side()),
        ),
{
    let (l1, r1) = a.ends.unwrap();
    let (l2, r2) = b.ends.unwrap();
    let within = type_order_within(a);
    assert forall|x: Type<'a, C>, y: Type<'a, C>| l1.mentions(x) implies
        #[trigger] within(x, y) == type_order_fn::<C>()(x, y) by {
        l1.mentioned_is_smaller(x);
    }
    l1.order_by_agree(within, type_order_fn(), *l2);
    assert forall|x: Type<'a, C>, y: Type<'a, C>| r1.mentions(x) implies
        #[trigger] within(x, y) == type_order_fn::<C>()(x, y) by {
        r1.mentioned_is_smaller(x);
    }
    r1.order_by_agree(within, type_order_fn(), *r2);
}

/// `arrow_order` answers `Equal` exactly on equal arrows.
pub proof fn arrow_order_equal<'a, C: TyConfig>(a: Arrow<'a, C>, b: Arrow<'a, C>)
    ensures
        (arrow_order(a, b) is Equal) <==> a == b,
    decreases a,
{
    match (a.ends, b.ends) {
        (Some((l1, r1)), Some((l2, r2))) => {
            arrow_order_unfold(a, b);
            let f = type_order_fn::<C>();
            assert forall|x: Type<'a, C>, y: Type<'a, C>| l1.mentions(x) implies
                ((#[trigger] f(x, y) is Equal) <==> x == y) by {
                l1.mentioned_is_smaller(x);
                type_order_equal(x, y);
            }
            l1.order_by_equal(f, *l2);
            assert forall|x: Type<'a, C>, y: Type<'a, C>| r1.mentions(x) implies
                ((#[trigger] f(x, y) is Equal) <==> x == y) by {
                r1.mentioned_is_smaller(x);
                type_order_equal(x, y);
            }
            r1.order_by_equal(f, *r2);
        },
        _ => {},
    }
}

/// Exchanging two arrows flips their order.
pub proof fn arrow_order_flip<'a, C: TyConfig>(a: Arrow<'a, C>, b: Arrow<'a, C>)
    ensures
        arrow_order(b, a) == arrow_order(a, b).flip(),
    decreases a,
{
    match (a.ends, b.ends) {
        (Some((l1, r1)), Some((l2, r2))) => {
            arrow_order_unfold(a, b);
            arrow_order_unfold(b, a);
            let f = type_order_fn::<C>();
            assert forall|x: Type<'a, C>, y: Type<'a, C>| l1.mentions(x) implies
                f(y, x) == (#[trigger] f(x, y)).flip() by {
                l1.mentioned_is_smaller(x);
                type_order_flip(x, y);
            }
            l1.order_by_flip(f, *l2);
            assert forall|x: Type<'a, C>, y: Type<'a, C>| r1.mentions(x) implies
                f(y, x) == (#[trigger] f(x, y)).flip() by {
                r1.mentioned_is_smaller(x);
                type_order_flip(x, y);
            }
            r1.order_by_flip(f, *r2);
        },
        _ => {},
    }
}

/// `Less` is transitive on arrows.
pub proof fn arrow_order_chain<'a, C: TyConfig>(
    a: Arrow<'a, C>,
    b: Arrow<'a, C>,
    c: Arrow<'a, C>,
)
    requires
        arrow_order(a, b) is Less,
        arrow_order(b, c) is Less,
    ensures
        arrow_order(a, c) is Less,
    decreases a,
{
    match (a.ends, b.ends, c.ends) {
        (Some((l1, r1)), Some((l2, r2)), Some((l3, r3))) => {
            arrow_order_unfold(a, b);
            arrow_order_unfold(b, c);
            arrow_order_unfold(a, c);
            let f = type_order_fn::<C>();
            assert forall|x: Type<'a, C>, y: Type<'a, C>|
                ((#[trigger] f(x, y) is Equal) <==> x == y) by {
                type_order_equal(x, y);
            }
            assert forall|x: Type<'a, C>, y: Type<'a, C>, z: Type<'a, C>|
                (l1.mentions(x) || r1.mentions(x))
                    && (#[trigger] f(x, y) is Less)
                    && (#[trigger] f(y, z) is Less) implies
                f(x, z) is Less by {
                if l1.mentions(x) {
                    l1.mentioned_is_smaller(x);
                } else {
                    r1.mentioned_is_smaller(x);
                }
                type_order_chain(x, y, z);
            }
            l1.order_by_equal(f, *l2);
            l2.order_by_equal(f, *l3);
            if l1.order_by(f, *l2) is Less && l2.order_by(f, *l3) is Less {
                l1.order_by_chain(f, *l2, *l3);
            }
            if r1.order_by(f, *r2) is Less && r2.order_by(f, *r3) is Less {
                r1.order_by_chain(f, *r2, *r3);
            }
        },
        _ => {},
    }
}

/// Compares two arrows.
pub fn arrow_compare<'a, C: TyConfig>(a: &Arrow<'a, C>, b: &Arrow<'a, C>) -> (o: Order)
    ensures
        o == arrow_order(*a, *b),
    decreases a,
{
    match (&a.ends, &b.ends) {
        (Some((l1, r1)), Some((l2, r2))) => {
            let f = |x: &Type<'a, C>, y: &Type<'a, C>| -> (o: Order)
                requires
                    decreases_to!(a => x),
                ensures
                    o == type_order(*x, *y),
                { type_compare(x, y) };
            proof {
                arrow_order_unfold(*a, *b);
                assert forall|x: &Type<'a, C>, y: &Type<'a, C>| l1.mentions(*x) implies
                    #[trigger] f.requires((x, y)) by {
                    l1.mentioned_is_smaller(*x);
                }
                assert forall|x: &Type<'a, C>, y: &Type<'a, C>| r1.mentions(*x) implies
                    #[trigger] f.requires((x, y)) by {
                    r1.mentioned_is_smaller(*x);
                }
            }
            match l1.compare_by(&f, l2, Ghost(type_order_fn())) {
                Order::Less => Order::Less,
                Order::Greater => Order::Greater,
                Order::Equal => r1.compare_by(&f, r2, Ghost(type_order_fn())),
            }
        },
        (None, None) => Order::Equal,
        (None, Some(_)) => Order::Less,
        (Some(_), None) => Order::Greater,
    }
}

impl<'a, C: TyConfig> TotalOrder for Arrow<'a, C> {
    open spec fn order(&self, other: &Self) -> Order {
        arrow_order(*self, *other)
    }

    proof fn order_equal(a: &Self, b: &Self) {
        arrow_order_equal(*a, *b);
    }

    proof fn order_flip(a: &Self, b: &Self) {
        arrow_order_flip(*a, *b);
    }

    proof fn order_chain(a: &Self, b: &Self, c: &Self) {
        arrow_order_chain(*a, *b, *c);
    }

    fn compare(&self, other: &Self) -> (o: Order) {
        arrow_compare(self, other)
    }
}

impl<'a, C: TyConfig> TyAtom for Arrow<'a, C> {

}

} // verus!
