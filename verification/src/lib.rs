//! Set-theoretic type expressions as ternary decision diagrams in an arena.
//!
//! A [`Bdd`] is a persistent decision tree over atoms that bring a total
//! order. Besides the two branches of a binary diagram a decision node has a
//! lazy union, which keeps a union from being distributed into both branches
//! until an intersection or a difference asks for it. A [`Type`] holds one
//! diagram for each structural shape: variables, basic types, products,
//! arrows, records and references. A [`Context`] owns the arena and builds
//! all of them.
//!
//! Every operation is stated by a `spec` function, which its contract
//! names; the modules under [`bdd`] prove what those functions satisfy.

pub mod arena;
pub mod atom;
pub mod bdd;
pub mod ty;

pub use atom::{Order, TotalOrder, TyAtom};
pub use bdd::aggregate::Type;
pub use bdd::arrow::Arrow;
pub use bdd::product::Product;
pub use bdd::record::{Openness, Props, Record};
pub use bdd::refr::{Args, Refr};
pub use bdd::Bdd;
pub use ty::TyConfig;

use crate::arena::{fresh_arena, place};
use bumpalo::Bump;
use std::marker::PhantomData;
use vstd::prelude::*;

verus! {

/// The builder: it owns the arena in which every atom and every node of the
/// diagrams it hands out lives.
pub struct Context<C: TyConfig> {
    arena: Bump,
    _c: PhantomData<C>,
}

impl<C: TyConfig> Context<C> {
    /// A context with an arena of its own.
    pub fn new() -> Self {
        Context { arena: fresh_arena(), _c: PhantomData }
    }

    /// The arena of this context, for the functions that take one.
    pub fn arena(&self) -> (r: &Bump)
        ensures
            *r == self.bump(),
    {
        &self.arena
    }

    /// The arena that the context owns.
    pub closed spec fn bump(&self) -> Bump {
        self.arena
    }

    /// The diagram over types that holds everywhere.
    pub fn top<'a>(&'a self) -> (r: &'a Bdd<'a, Type<'a, C>>)
        ensures
            *r == Bdd::<Type<'a, C>>::Top,
    {
        Bdd::top(&self.arena)
    }

    /// The diagram over types that holds nowhere.
    pub fn bot<'a>(&'a self) -> (r: &'a Bdd<'a, Type<'a, C>>)
        ensures
            *r == Bdd::<Type<'a, C>>::Bot,
    {
        Bdd::bot(&self.arena)
    }

    /// The diagram that decides the variable `var` alone.
    pub fn var<'a>(&'a self, var: C::Var) -> (r: &'a Bdd<'a, C::Var>)
        ensures
            *r == Bdd::single(var),
    {
        Bdd::atom(&self.arena, place(&self.arena, var))
    }

    /// The diagram that decides the basic type `basic` alone.
    pub fn basic<'a>(&'a self, basic: C::Basic) -> (r: &'a Bdd<'a, C::Basic>)
        ensures
            *r == Bdd::single(basic),
    {
        Bdd::atom(&self.arena, place(&self.arena, basic))
    }

    /// The diagram that decides the product of `l` and `r` alone.
    pub fn product<'a>(
        &'a self,
        l: &'a Bdd<'a, Type<'a, C>>,
        r: &'a Bdd<'a, Type<'a, C>>,
    ) -> (p: &'a Bdd<'a, Product<'a, C>>)
        ensures
            *p == Bdd::single(Product::pair(*l, *r)),
    {
        Bdd::atom(&self.arena, place(&self.arena, Product::new(l, r)))
    }

    /// The diagram that decides the arrow from `l` to `r` alone.
    pub fn arrow<'a>(
        &'a self,
        l: &'a Bdd<'a, Type<'a, C>>,
        r: &'a Bdd<'a, Type<'a, C>>,
    ) -> (p: &'a Bdd<'a, Arrow<'a, C>>)
        ensures
            *p == Bdd::single(Arrow::between(*l, *r)),
    {
        Bdd::atom(&self.arena, place(&self.arena, Arrow::new(l, r)))
    }

    /// The diagram that decides one record alone: the one with the fields of
    /// `props`, in their order.
    pub fn record<'a>(
        &'a self,
        open: Openness,
        props: Vec<(C::Prop, &'a Bdd<'a, Type<'a, C>>)>,
    ) -> (r: &'a Bdd<'a, Record<'a, C>>)
        ensures
            r matches Bdd::Atom { atom, .. } && *r == Bdd::single(**atom) && atom.map@ == props@
                && atom.open == open,
    {
        let map = Props::from_vec(&self.arena, props);
        Bdd::atom(&self.arena, place(&self.arena, Record { map, open }))
    }

    /// The complement of `ty`.
    pub fn not<'a, T: TyAtom>(&'a self, ty: &'a Bdd<'a, T>) -> (r: &'a Bdd<'a, T>)
        ensures
            *r == ty.complement(),
            ty.ordered() ==> r.ordered(),
    {
        Bdd::not(&self.arena, ty)
    }

    /// The diagram that decides one reference alone: `id` applied to `args`,
    /// in their order.
    pub fn refr<'a>(&'a self, id: C::TyName, args: Vec<&'a Bdd<'a, Type<'a, C>>>) -> (r: &'a Bdd<
        'a,
        Refr<'a, C>,
    >)
        ensures
            r matches Bdd::Atom { atom, .. } && *r == Bdd::single(**atom) && atom.id == id
                && atom.args@ == args@,
    {
        let args = Args::from_vec(&self.arena, args);
        Bdd::atom(&self.arena, place(&self.arena, Refr { id, args }))
    }

    /// The union of `members`, folded from the left; `Bot` when there is
    /// none.
    pub fn union<'a, T: TyAtom>(&'a self, members: &[&'a Bdd<'a, T>]) -> (r: &'a Bdd<'a, T>)
        ensures
            *r == Bdd::join_all(members@),
            (forall|i: int| 0 <= i < members@.len() ==> (#[trigger] members@[i]).ordered())
                ==> r.ordered(),
    {
        if members.len() == 0 {
            return Bdd::bot(&self.arena);
        }
        let mut acc = members[0];
        let mut i: usize = 1;
        proof {
            let first = members@.subrange(0, 1);
            assert(first.drop_last() =~= Seq::empty());
            assert(Bdd::<T>::join_all(first.drop_last()) == Bdd::<T>::Bot);
            assert(first.last() == acc);
            acc.join_bottom();
        }
        while i < members.len()
            invariant
                1 <= i <= members.len(),
                *acc == Bdd::join_all(members@.subrange(0, i as int)),
                (forall|i: int| 0 <= i < members@.len() ==> (#[trigger] members@[i]).ordered())
                    ==> acc.ordered(),
            decreases members.len() - i,
        {
            proof {
                assert(members@.subrange(0, i + 1).drop_last() =~= members@.subrange(0, i as int));
            }
            acc = Bdd::union(&self.arena, acc, members[i]);
            i += 1;
        }
        proof {
            assert(members@.subrange(0, i as int) =~= members@);
        }
        acc
    }

    /// The intersection of `members`, folded from the left; `Top` when
    /// there is none.
    pub fn inter<'a, T: TyAtom>(&'a self, members: &[&'a Bdd<'a, T>]) -> (r: &'a Bdd<'a, T>)
        ensures
            *r == Bdd::meet_all(members@),
            (forall|i: int| 0 <= i < members@.len() ==> (#[trigger] members@[i]).ordered())
                ==> r.ordered(),
    {
        if members.len() == 0 {
            return Bdd::top(&self.arena);
        }
        let mut acc = members[0];
        let mut i: usize = 1;
        proof {
            let first = members@.subrange(0, 1);
            assert(first.drop_last() =~= Seq::empty());
            assert(Bdd::<T>::meet_all(first.drop_last()) == Bdd::<T>::Top);
            assert(first.last() == acc);
            acc.meet_top();
        }
        while i < members.len()
            invariant
                1 <= i <= members.len(),
                *acc == Bdd::meet_all(members@.subrange(0, i as int)),
                (forall|i: int| 0 <= i < members@.len() ==> (#[trigger] members@[i]).ordered())
                    ==> acc.ordered(),
            decreases members.len() - i,
        {
            proof {
                assert(members@.subrange(0, i + 1).drop_last() =~= members@.subrange(0, i as int));
            }
            acc = Bdd::inter(&self.arena, acc, members[i]);
            i += 1;
        }
        proof {
            assert(members@.subrange(0, i as int) =~= members@);
        }
        acc
    }
}

} // verus!
