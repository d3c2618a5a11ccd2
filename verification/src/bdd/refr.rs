//! References: a nominal type applied to arguments.

use crate::arena::place;
use crate::atom::{Order, TotalOrder, TyAtom};
use crate::bdd::aggregate::{
    type_compare, type_order, type_order_chain, type_order_equal, type_order_flip, type_order_fn,
    Type,
};
use crate::bdd::Bdd;
use crate::ty::TyConfig;
use bumpalo::Bump;
use vstd::prelude::*;

verus! {

/// The arguments of a reference, first given first: a list whose cells
/// live in the arena.
#[derive(Debug)]
pub enum Args<'a, C: TyConfig> {
    Nil,
    Cons { head: &'a Bdd<'a, Type<'a, C>>, rest: &'a Args<'a, C> },
}

impl<'a, C: TyConfig> View for Args<'a, C> {
    type V = Seq<&'a Bdd<'a, Type<'a, C>>>;

    open spec fn view(&self) -> Self::V {
        self.items()
    }
}

impl<'a, C: TyConfig> Args<'a, C> {
    /// The arguments as a sequence.
    pub open spec fn items(self) -> Seq<&'a Bdd<'a, Type<'a, C>>>
        decreases self,
    {
        match self {
            Args::Nil => Seq::empty(),
            Args::Cons { head, rest } => seq![head] + rest.items(),
        }
    }

    /// Lays the arguments out in the arena, in the order of the vector.
    pub fn from_vec(arena: &'a Bump, args: Vec<&'a Bdd<'a, Type<'a, C>>>) -> (r: &'a Self)
        ensures
            r@ == args@,
    {
        let ghost all = args@;
        let mut args = args;
        let mut list: &'a Self = place(arena, Args::Nil);
        while args.len() > 0
            invariant
                args@ + list@ == all,
            decreases args.len(),
        {
            let ghost before = args@;
            let ghost tail = list@;
            match args.pop() {
                Some(head) => {
                    list = place(arena, Args::Cons { head, rest: list });
                    assert(args@ + list@ =~= before + tail);
                },
                None => {},
            }
        }
        assert(args@ + list@ =~= list@);
        list
    }
}

/// A nominal type applied to arguments.
#[derive(Debug)]
pub struct Refr<'a, C: TyConfig> {
    pub id: C::TyName,
    pub args: &'a Args<'a, C>,
}

/// `type_order` on what lies inside `container`, and `Equal` elsewhere. The order
/// of diagrams asks for the order of atoms only inside the diagram, so this
/// is the order it sees; the guard is what shows the recursion to end.
spec fn type_order_within<'a, C: TyConfig>(container: Args<'a, C>) -> spec_fn(
    Type<'a, C>,
    Type<'a, C>,
) -> Order
    decreases container, 0int,
{
    |x: Type<'a, C>, y: Type<'a, C>|
        if decreases_to!(container => x) {
            type_order(x, y)
        } else {
            Order::Equal
        }
}

/// The order of argument lists: argument by argument; a list comes before
/// every list that extends it.
pub closed spec fn args_order<'a, C: TyConfig>(a: Args<'a, C>, b: Args<'a, C>) -> Order
    decreases a, 1int,
{
    match (a, b) {
        (Args::Cons { head: t1, rest: r1 }, Args::Cons { head: t2, rest: r2 }) => t1.order_by(type_order_within(a), *t2).lex(args_order(*r1, *r2)),
        (Args::Nil, Args::Nil) => Order::Equal,
        (Args::Nil, Args::Cons { .. }) => Order::Less,
        (Args::Cons { .. }, Args::Nil) => Order::Greater,
    }
}

/// `args_order` written out.
pub open spec fn args_order_by_cells<'a, C: TyConfig>(a: Args<'a, C>, b: Args<'a, C>) -> Order {
    match (a, b) {
        (Args::Cons { head: t1, rest: r1 }, Args::Cons { head: t2, rest: r2 }) => t1.order_by(
            type_order_fn(),
            *t2,
        ).lex(args_order(*r1, *r2)),
        (Args::Nil, Args::Nil) => Order::Equal,
        (Args::Nil, Args::Cons { .. }) => Order::Less,
        (Args::Cons { .. }, Args::Nil) => Order::Greater,
    }
}

/// Argument lists compare cell by cell.
pub proof fn args_order_unfold<'a, C: TyConfig>(a: Args<'a, C>, b: Args<'a, C>)
    ensures
        args_order(a, b) == args_order_by_cells(a, b),
{
    match (a, b) {
        (Args::Cons { head: t1, rest: r1 }, Args::Cons { head: t2, rest: r2 }) => {
            let within = type_order_within(a);
            assert forall|x: Type<'a, C>, y: Type<'a, C>| t1.mentions(x) implies
                #[trigger] within(x, y) == type_order_fn::<C>()(x, y) by {
                t1.mentioned_is_smaller(x);
            }
            t1.order_by_agree(within, type_order_fn(), *t2);
        },
        _ => {},
    }
}

/// `args_order` answers `Equal` exactly on equal lists.
pub proof fn args_order_equal<'a, C: TyConfig>(a: Args<'a, C>, b: Args<'a, C>)
    ensures
        (args_order(a, b) is Equal) <==> a == b,
    decreases a,
{
    args_order_unfold(a, b);
    match (a, b) {
        (Args::Cons { head: t1, rest: r1 }, Args::Cons { head: t2, rest: r2 }) => {
            let f = type_order_fn::<C>();
            assert forall|x: Type<'a, C>, y: Type<'a, C>| t1.mentions(x) implies
                ((#[trigger] f(x, y) is Equal) <==> x == y) by {
                t1.mentioned_is_smaller(x);
                type_order_equal(x, y);
            }
            t1.order_by_equal(f, *t2);
            args_order_equal(*r1, *r2);
        },
        _ => {},
    }
}

/// Exchanging two lists flips their order.
pub proof fn args_order_flip<'a, C: TyConfig>(a: Args<'a, C>, b: Args<'a, C>)
    ensures
        args_order(b, a) == args_order(a, b).flip(),
    decreases a,
{
    args_order_unfold(a, b);
    args_order_unfold(b, a);
    match (a, b) {
        (Args::Cons { head: t1, rest: r1 }, Args::Cons { head: t2, rest: r2 }) => {
            let f = type_order_fn::<C>();
            assert forall|x: Type<'a, C>, y: Type<'a, C>| t1.mentions(x) implies
                f(y, x) == (#[trigger] f(x, y)).flip() by {
                t1.mentioned_is_smaller(x);
                type_order_flip(x, y);
            }
            t1.order_by_flip(f, *t2);
            args_order_flip(*r1, *r2);
        },
        _ => {},
    }
}

/// `Less` is transitive on lists.
pub proof fn args_order_chain<'a, C: TyConfig>(a: Args<'a, C>, b: Args<'a, C>, c: Args<'a, C>)
    requires
        args_order(a, b) is Less,
        args_order(b, c) is Less,
    ensures
        args_order(a, c) is Less,
    decreases a,
{
    args_order_unfold(a, b);
    args_order_unfold(b, c);
    args_order_unfold(a, c);
    match (a, b, c) {
        (
            Args::Cons { head: t1, rest: r1 },
            Args::Cons { head: t2, rest: r2 },
            Args::Cons { head: t3, rest: r3 },
        ) => {
            let f = type_order_fn::<C>();
            assert forall|x: Type<'a, C>, y: Type<'a, C>|
                ((#[trigger] f(x, y) is Equal) <==> x == y) by {
                type_order_equal(x, y);
            }
            assert forall|x: Type<'a, C>, y: Type<'a, C>, z: Type<'a, C>|
                t1.mentions(x)
                    && (#[trigger] f(x, y) is Less)
                    && (#[trigger] f(y, z) is Less) implies
                f(x, z) is Less by {
                t1.mentioned_is_smaller(x);
                type_order_chain(x, y, z);
            }
            t1.order_by_equal(f, *t2);
            t2.order_by_equal(f, *t3);
            if t1.order_by(f, *t2) is Less && t2.order_by(f, *t3) is Less {
                t1.order_by_chain(f, *t2, *t3);
            }
            args_order_equal(*r1, *r2);
            args_order_equal(*r2, *r3);
            if args_order(*r1, *r2) is Less && args_order(*r2, *r3) is Less {
                args_order_chain(*r1, *r2, *r3);
            }
        },
        _ => {},
    }
}

/// Compares two argument lists.
pub fn args_compare<'a, C: TyConfig>(a: &Args<'a, C>, b: &Args<'a, C>) -> (o: Order)
    ensures
        o == args_order(*a, *b),
    decreases a,
{
    proof {
        args_order_unfold(*a, *b);
    }
    match (a, b) {
        (Args::Cons { head: t1, rest: r1 }, Args::Cons { head: t2, rest: r2 }) => {
            let f = |x: &Type<'a, C>, y: &Type<'a, C>| -> (o: Order)
                requires
                    decreases_to!(a => x),
                ensures
                    o == type_order(*x, *y),
                { type_compare(x, y) };
            proof {
                assert forall|x: &Type<'a, C>, y: &Type<'a, C>| t1.mentions(*x) implies
                    #[trigger] f.requires((x, y)) by {
                    t1.mentioned_is_smaller(*x);
                }
            }
            match t1.compare_by(&f, t2, Ghost(type_order_fn())) {
                Order::Less => Order::Less,
                Order::Greater => Order::Greater,
                Order::Equal => args_compare(r1, r2),
            }
        },
        (Args::Nil, Args::Nil) => Order::Equal,
        (Args::Nil, Args::Cons { .. }) => Order::Less,
        (Args::Cons { .. }, Args::Nil) => Order::Greater,
    }
}

/// The order of references: by name, then by the arguments.
pub open spec fn refr_order<'a, C: TyConfig>(a: Refr<'a, C>, b: Refr<'a, C>) -> Order
    decreases a, 1int,
{
    a.id.order(&b.id).lex(args_order(*a.args, *b.args))
}

/// `refr_order` as a function of two values.
pub open spec fn refr_order_fn<'a, C: TyConfig>() -> spec_fn(Refr<'a, C>, Refr<'a, C>) -> Order {
    |x: Refr<'a, C>, y: Refr<'a, C>| refr_order(x, y)
}

/// `refr_order` answers `Equal` exactly on equal references.
pub proof fn refr_order_equal<'a, C: TyConfig>(a: Refr<'a, C>, b: Refr<'a, C>)
    ensures
        (refr_order(a, b) is Equal) <==> a == b,
    decreases a,
{
    C::TyName::order_equal(&a.id, &b.id);
    args_order_equal(*a.args, *b.args);
}

/// Exchanging two references flips their order.
pub proof fn refr_order_flip<'a, C: TyConfig>(a: Refr<'a, C>, b: Refr<'a, C>)
    ensures
        refr_order(b, a) == refr_order(a, b).flip(),
    decreases a,
{
    C::TyName::order_flip(&a.id, &b.id);
    args_order_flip(*a.args, *b.args);
}

/// `Less` is transitive on references.
pub proof fn refr_order_chain<'a, C: TyConfig>(a: Refr<'a, C>, b: Refr<'a, C>, c: Refr<'a, C>)
    requires
        refr_order(a, b) is Less,
        refr_order(b, c) is Less,
    ensures
        refr_order(a, c) is Less,
    decreases a,
{
    C::TyName::order_equal(&a.id, &b.id);
    C::TyName::order_equal(&b.id, &c.id);
    if a.id.order(&b.id) is Less && b.id.order(&c.id) is Less {
        C::TyName::order_chain(&a.id, &b.id, &c.id);
    }
    args_order_equal(*a.args, *b.args);
    args_order_equal(*b.args, *c.args);
    if args_order(*a.args, *b.args) is Less && args_order(*b.args, *c.args) is Less {
        args_order_chain(*a.args, *b.args, *c.args);
    }
}

/// Compares two references.
pub fn refr_compare<'a, C: TyConfig>(a: &Refr<'a, C>, b: &Refr<'a, C>) -> (o: Order)
    ensures
        o == refr_order(*a, *b),
    decreases a,
{
    match a.id.compare(&b.id) {
        Order::Less => Order::Less,
        Order::Greater => Order::Greater,
        Order::Equal => args_compare(a.args, b.args),
    }
}

impl<'a, C: TyConfig> TotalOrder for Refr<'a, C> {
    open spec fn order(&self, other: &Self) -> Order {
        refr_order(*self, *other)
    }

    proof fn order_equal(a: &Self, b: &Self) {
        refr_order_equal(*a, *b);
    }

    proof fn order_flip(a: &Self, b: &Self) {
        refr_order_flip(*a, *b);
    }

    proof fn order_chain(a: &Self, b: &Self, c: &Self) {
        refr_order_chain(*a, *b, *c);
    }

    fn compare(&self, other: &Self) -> (o: Order) {
        refr_compare(self, other)
    }
}

impl<'a, C: TyConfig> TyAtom for Refr<'a, C> {

}

} // verus!
