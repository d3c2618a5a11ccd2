use bumpalo::Bump;
use stipe::Bdd;

type D<'a> = Bdd<'a, u64>;

const TOP: &D<'static> = &Bdd::Top;
const BOT: &D<'static> = &Bdd::Bot;

fn node<'a>(arena: &'a Bump, atom: u64, pos: &'a D<'a>, lu: &'a D<'a>, neg: &'a D<'a>) -> &'a D<'a> {
    arena.alloc(Bdd::Atom { atom: arena.alloc(atom), pos, lu, neg })
}

fn atom<'a>(arena: &'a Bump, a: u64) -> &'a D<'a> {
    Bdd::atom(arena, arena.alloc(a))
}

/// A handful of diagrams of different shapes: leaves, atoms, diagrams with
/// lazy unions, and diagrams that no operation of the engine builds.
fn samples<'a>(arena: &'a Bump) -> Vec<&'a D<'a>> {
    let a1 = atom(arena, 1);
    let a2 = atom(arena, 2);
    let a3 = atom(arena, 3);
    vec![
        TOP,
        BOT,
        a1,
        a2,
        Bdd::union(arena, a1, a2),
        Bdd::union(arena, a3, Bdd::union(arena, a1, a2)),
        Bdd::inter(arena, a1, a2),
        Bdd::inter(arena, a2, a3),
        Bdd::not(arena, a1),
        Bdd::not(arena, Bdd::union(arena, a2, a3)),
        Bdd::diff(arena, a1, a3),
        node(arena, 1, a2, a3, a2),
        node(arena, 2, TOP, TOP, TOP),
        node(arena, 1, node(arena, 2, BOT, BOT, TOP), BOT, a3),
    ]
}

/// Samples without a lazy union and without a node whose branches agree.
fn reduced_samples<'a>(arena: &'a Bump) -> Vec<&'a D<'a>> {
    let a1 = atom(arena, 1);
    let a2 = atom(arena, 2);
    let a3 = atom(arena, 3);
    vec![
        TOP,
        BOT,
        a1,
        Bdd::inter(arena, a1, a2),
        Bdd::not(arena, a1),
        Bdd::diff(arena, a1, a3),
        Bdd::not(arena, Bdd::inter(arena, a2, a3)),
        node(arena, 1, node(arena, 2, BOT, BOT, TOP), BOT, a3),
    ]
}

#[test]
fn union_is_idempotent() {
    let arena = Bump::new();
    for a in samples(&arena) {
        assert_eq!(Bdd::union(&arena, a, a), a);
    }
}

#[test]
fn inter_is_idempotent_on_reduced_diagrams() {
    let arena = Bump::new();
    for a in reduced_samples(&arena) {
        assert_eq!(Bdd::inter(&arena, a, a), a);
    }
}

#[test]
fn inter_of_a_diagram_with_a_lazy_union_resolves_it() {
    let arena = Bump::new();
    let a = Bdd::union(&arena, atom(&arena, 1), atom(&arena, 2));
    let expected = node(&arena, 1, TOP, BOT, atom(&arena, 2));
    assert_eq!(Bdd::inter(&arena, a, a), expected);
}

#[test]
fn bottom_and_top_are_the_identities() {
    let arena = Bump::new();
    for a in samples(&arena) {
        assert_eq!(Bdd::union(&arena, a, BOT), a);
        assert_eq!(Bdd::union(&arena, BOT, a), a);
        assert_eq!(Bdd::inter(&arena, a, TOP), a);
        assert_eq!(Bdd::inter(&arena, TOP, a), a);
    }
}

#[test]
fn top_and_bottom_absorb() {
    let arena = Bump::new();
    for a in samples(&arena) {
        assert_eq!(*Bdd::union(&arena, a, TOP), Bdd::Top);
        assert_eq!(*Bdd::union(&arena, TOP, a), Bdd::Top);
        assert_eq!(*Bdd::inter(&arena, a, BOT), Bdd::Bot);
        assert_eq!(*Bdd::inter(&arena, BOT, a), Bdd::Bot);
    }
}

#[test]
fn union_and_inter_commute() {
    let arena = Bump::new();
    let all = samples(&arena);
    for a in all.iter() {
        for b in all.iter() {
            assert_eq!(Bdd::union(&arena, a, b), Bdd::union(&arena, b, a));
            assert_eq!(Bdd::inter(&arena, a, b), Bdd::inter(&arena, b, a));
        }
    }
}

#[test]
fn double_negation_gives_the_diagram_back() {
    let arena = Bump::new();
    for a in samples(&arena) {
        assert_eq!(Bdd::not(&arena, Bdd::not(&arena, a)), a);
    }
}

#[test]
fn de_morgan_on_diagrams_that_decide_the_same_atoms() {
    let arena = Bump::new();
    let a = atom(&arena, 1);
    let b = node(&arena, 1, atom(&arena, 2), BOT, BOT);
    let lhs = Bdd::not(&arena, Bdd::union(&arena, a, b));
    let rhs = Bdd::inter(&arena, Bdd::not(&arena, a), Bdd::not(&arena, b));
    assert_eq!(lhs, rhs);
    assert_eq!(lhs, node(&arena, 1, BOT, BOT, TOP));
    let lhs = Bdd::not(&arena, Bdd::inter(&arena, a, b));
    let rhs = Bdd::union(&arena, Bdd::not(&arena, a), Bdd::not(&arena, b));
    assert_eq!(lhs, rhs);
    assert_eq!(lhs, node(&arena, 1, node(&arena, 2, BOT, BOT, TOP), BOT, TOP));
}

#[test]
fn de_morgan_with_a_leaf() {
    let arena = Bump::new();
    for a in samples(&arena) {
        for leaf in [TOP, BOT] {
            assert_eq!(
                Bdd::not(&arena, Bdd::union(&arena, a, leaf)),
                Bdd::inter(&arena, Bdd::not(&arena, a), Bdd::not(&arena, leaf))
            );
            assert_eq!(
                Bdd::not(&arena, Bdd::inter(&arena, a, leaf)),
                Bdd::union(&arena, Bdd::not(&arena, a), Bdd::not(&arena, leaf))
            );
        }
    }
}

#[test]
fn complement_of_a_union_of_different_atoms_keeps_the_lazy_union() {
    let arena = Bump::new();
    let a = atom(&arena, 1);
    let b = atom(&arena, 2);
    let lhs = Bdd::not(&arena, Bdd::union(&arena, a, b));
    let rhs = Bdd::inter(&arena, Bdd::not(&arena, a), Bdd::not(&arena, b));
    assert_eq!(lhs, node(&arena, 1, BOT, b, TOP));
    assert_eq!(rhs, node(&arena, 1, BOT, BOT, node(&arena, 2, BOT, BOT, TOP)));
}

#[test]
fn difference_is_intersection_with_the_complement() {
    let arena = Bump::new();
    let all = samples(&arena);
    // any diagram minus one without lazy unions
    for a in all.iter() {
        for b in reduced_samples(&arena) {
            assert_eq!(Bdd::diff(&arena, a, b), Bdd::inter(&arena, a, Bdd::not(&arena, b)));
        }
    }
    // a leaf minus any diagram
    for b in all.iter() {
        for leaf in [TOP, BOT] {
            assert_eq!(Bdd::diff(&arena, leaf, b), Bdd::inter(&arena, leaf, Bdd::not(&arena, b)));
        }
    }
}

#[test]
fn difference_by_a_diagram_with_a_lazy_union() {
    let arena = Bump::new();
    let a = atom(&arena, 1);
    let b = Bdd::union(&arena, atom(&arena, 1), atom(&arena, 2));
    assert_eq!(*Bdd::diff(&arena, a, b), Bdd::Bot);
    let expected = node(&arena, 1, atom(&arena, 2), BOT, BOT);
    assert_eq!(Bdd::inter(&arena, a, Bdd::not(&arena, b)), expected);
}

#[test]
fn difference_boundaries() {
    let arena = Bump::new();
    for a in samples(&arena) {
        assert_eq!(*Bdd::diff(&arena, a, TOP), Bdd::Bot);
        assert_eq!(Bdd::diff(&arena, a, BOT), a);
        assert_eq!(*Bdd::diff(&arena, BOT, a), Bdd::Bot);
    }
    assert_eq!(*Bdd::diff(&arena, TOP, TOP), Bdd::Bot);
}

/// The atoms along the chain of lazy unions that starts at `d`, with a check
/// that every link is a node with `Top`, a lazy union and `Bot`.
fn chain_atoms(d: &D<'_>) -> Vec<u64> {
    let mut atoms = Vec::new();
    let mut at = d;
    loop {
        match at {
            Bdd::Atom { atom, pos, lu, neg } => {
                assert_eq!(**pos, Bdd::Top);
                assert_eq!(**neg, Bdd::Bot);
                atoms.push(**atom);
                at = lu;
            }
            Bdd::Bot => return atoms,
            Bdd::Top => panic!("a chain ends in Bot"),
        }
    }
}

#[test]
fn union_of_three_atoms_is_one_increasing_chain() {
    let arena = Bump::new();
    let (x, y, z) = (atom(&arena, 10), atom(&arena, 20), atom(&arena, 30));
    let d = Bdd::union(&arena, x, Bdd::union(&arena, y, z));
    assert_eq!(chain_atoms(d), vec![10, 20, 30]);
    let expected = node(&arena, 10, TOP, node(&arena, 20, TOP, z, BOT), BOT);
    assert_eq!(d, expected);
    // whatever the order in which the atoms are given
    let d = Bdd::union(&arena, z, Bdd::union(&arena, x, y));
    assert_eq!(chain_atoms(d), vec![10, 20, 30]);
    let d = Bdd::union(&arena, Bdd::union(&arena, y, z), x);
    assert_eq!(chain_atoms(d), vec![10, 20, 30]);
}

fn increases(d: &D<'_>, floor: Option<u64>) -> bool {
    match d {
        Bdd::Atom { atom, pos, lu, neg } => {
            floor.map_or(true, |f| f < **atom)
                && increases(pos, Some(**atom))
                && increases(lu, Some(**atom))
                && increases(neg, Some(**atom))
        }
        _ => true,
    }
}

#[test]
fn operations_keep_atoms_increasing_along_every_path() {
    let arena = Bump::new();
    let all: Vec<&D<'_>> = samples(&arena).into_iter().filter(|d| increases(d, None)).collect();
    assert!(all.len() >= 10);
    for a in all.iter() {
        assert!(increases(Bdd::not(&arena, a), None));
        for b in all.iter() {
            assert!(increases(Bdd::union(&arena, a, b), None));
            assert!(increases(Bdd::inter(&arena, a, b), None));
            assert!(increases(Bdd::diff(&arena, a, b), None));
        }
    }
}

#[test]
fn map_atoms_with_the_identity_changes_nothing() {
    let arena = Bump::new();
    for d in samples(&arena) {
        assert_eq!(Bdd::map_atoms(&arena, d, &|a: &u64| -> &u64 { a }), d);
    }
}

#[test]
fn map_atoms_twice_is_map_atoms_with_the_composition() {
    let arena = Bump::new();
    let f = |a: &u64| -> &u64 { arena.alloc(*a + 100) };
    let g = |a: &u64| -> &u64 { arena.alloc(*a * 3) };
    let both = |a: &u64| -> &u64 { arena.alloc((*a + 100) * 3) };
    for d in samples(&arena) {
        let twice = Bdd::map_atoms(&arena, Bdd::map_atoms(&arena, d, &f), &g);
        assert_eq!(twice, Bdd::map_atoms(&arena, d, &both));
    }
}

/// Whether `d` holds in the world in which exactly the atoms of `world` hold.
fn holds(d: &D<'_>, world: &[u64]) -> bool {
    match d {
        Bdd::Atom { atom, pos, lu, neg } => {
            let here = world.contains(atom);
            (here && holds(pos, world)) || holds(lu, world) || (!here && holds(neg, world))
        }
        Bdd::Bot => false,
        Bdd::Top => true,
    }
}

fn worlds() -> Vec<Vec<u64>> {
    let mut all = Vec::new();
    for bits in 0u64..8 {
        all.push((1u64..=3).filter(|a| bits & (1 << (a - 1)) != 0).collect());
    }
    all
}

#[test]
fn union_and_inter_mean_or_and_and() {
    let arena = Bump::new();
    let all = samples(&arena);
    for a in all.iter() {
        for b in all.iter() {
            let u = Bdd::union(&arena, a, b);
            let i = Bdd::inter(&arena, a, b);
            for w in worlds() {
                assert_eq!(holds(u, &w), holds(a, &w) || holds(b, &w));
                assert_eq!(holds(i, &w), holds(a, &w) && holds(b, &w));
            }
        }
    }
}

#[test]
fn diff_and_not_mean_and_not_without_lazy_unions() {
    let arena = Bump::new();
    let all = samples(&arena);
    for b in reduced_samples(&arena) {
        let n = Bdd::not(&arena, b);
        for w in worlds() {
            assert_eq!(holds(n, &w), !holds(b, &w));
        }
        for a in all.iter() {
            let d = Bdd::diff(&arena, a, b);
            for w in worlds() {
                assert_eq!(holds(d, &w), holds(a, &w) && !holds(b, &w));
            }
        }
    }
}

fn is_reduced(d: &D<'_>) -> bool {
    match d {
        Bdd::Atom { pos, lu, neg, .. } => {
            **lu == Bdd::Bot && pos != neg && is_reduced(pos) && is_reduced(neg)
        }
        _ => true,
    }
}

#[test]
fn inter_diff_and_not_keep_diagrams_reduced() {
    let arena = Bump::new();
    let all = reduced_samples(&arena);
    for a in all.iter() {
        assert!(is_reduced(a));
        assert!(is_reduced(Bdd::not(&arena, a)));
        for b in all.iter() {
            assert!(is_reduced(Bdd::inter(&arena, a, b)));
            assert!(is_reduced(Bdd::diff(&arena, a, b)));
        }
    }
    assert!(!is_reduced(Bdd::union(&arena, atom(&arena, 1), atom(&arena, 2))));
}
