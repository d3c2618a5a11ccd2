use bumpalo::Bump;
use stipe::Bdd;

type D<'a> = Bdd<'a, u64>;

fn node<'a>(arena: &'a Bump, atom: u64, pos: &'a D<'a>, lu: &'a D<'a>, neg: &'a D<'a>) -> &'a D<'a> {
    arena.alloc(Bdd::Atom { atom: arena.alloc(atom), pos, lu, neg })
}

fn atom<'a>(arena: &'a Bump, a: u64) -> &'a D<'a> {
    Bdd::atom(arena, arena.alloc(a))
}

const TOP: &D<'static> = &Bdd::Top;
const BOT: &D<'static> = &Bdd::Bot;

#[test]
fn leaves_are_what_they_say() {
    let arena = Bump::new();
    assert_eq!(*D::top(&arena), Bdd::Top);
    assert_eq!(*D::bot(&arena), Bdd::Bot);
}

#[test]
fn atom_is_a_node_with_top_bottom_bottom() {
    let arena = Bump::new();
    let seven = arena.alloc(7u64);
    let a = Bdd::atom(&arena, seven);
    assert_eq!(*a, Bdd::Atom { atom: &7, pos: TOP, lu: BOT, neg: BOT });
}

#[test]
fn not_exchanges_the_leaves() {
    let arena = Bump::new();
    assert_eq!(*Bdd::not(&arena, TOP), Bdd::Bot);
    assert_eq!(*Bdd::not(&arena, BOT), Bdd::Top);
}

#[test]
fn not_complements_both_branches_and_keeps_the_lazy_union() {
    let arena = Bump::new();
    let lazy = atom(&arena, 9);
    let d = node(&arena, 1, TOP, lazy, atom(&arena, 2));
    let expected = node(&arena, 1, BOT, lazy, node(&arena, 2, BOT, BOT, TOP));
    assert_eq!(Bdd::not(&arena, d), expected);
}

#[test]
fn union_with_leaves() {
    let arena = Bump::new();
    let a = atom(&arena, 1);
    assert_eq!(*Bdd::union(&arena, BOT, BOT), Bdd::Bot);
    assert_eq!(*Bdd::union(&arena, TOP, a), Bdd::Top);
    assert_eq!(*Bdd::union(&arena, a, TOP), Bdd::Top);
    assert_eq!(Bdd::union(&arena, a, BOT), a);
    assert_eq!(Bdd::union(&arena, BOT, a), a);
}

#[test]
fn union_of_equal_atoms_merges_branch_by_branch() {
    let arena = Bump::new();
    let d1 = node(&arena, 1, atom(&arena, 2), atom(&arena, 3), BOT);
    let d2 = node(&arena, 1, atom(&arena, 4), BOT, atom(&arena, 5));
    let expected = node(
        &arena,
        1,
        node(&arena, 2, TOP, atom(&arena, 4), BOT),
        atom(&arena, 3),
        atom(&arena, 5),
    );
    assert_eq!(Bdd::union(&arena, d1, d2), expected);
}

#[test]
fn union_of_two_atoms_keeps_the_smaller_on_top() {
    let arena = Bump::new();
    let ax = atom(&arena, 1);
    let ay = atom(&arena, 2);
    let expected = node(&arena, 1, TOP, ay, BOT);
    assert_eq!(Bdd::union(&arena, ax, ay), expected);
    assert_eq!(Bdd::union(&arena, ay, ax), expected);
}

#[test]
fn union_folds_the_other_diagram_into_the_lazy_union() {
    let arena = Bump::new();
    let d1 = node(&arena, 1, atom(&arena, 5), atom(&arena, 3), BOT);
    let d2 = atom(&arena, 2);
    // 1 < 2: the node keeps its branches, its lazy union becomes union(3, 2)
    let expected = node(&arena, 1, atom(&arena, 5), node(&arena, 2, TOP, atom(&arena, 3), BOT), BOT);
    assert_eq!(Bdd::union(&arena, d1, d2), expected);
}

#[test]
fn inter_with_leaves() {
    let arena = Bump::new();
    let a = atom(&arena, 1);
    assert_eq!(*Bdd::inter(&arena, TOP, TOP), Bdd::Top);
    assert_eq!(*Bdd::inter(&arena, BOT, a), Bdd::Bot);
    assert_eq!(*Bdd::inter(&arena, a, BOT), Bdd::Bot);
    assert_eq!(Bdd::inter(&arena, a, TOP), a);
    assert_eq!(Bdd::inter(&arena, TOP, a), a);
}

#[test]
fn inter_of_two_atoms_nests_the_larger_under_the_smaller() {
    let arena = Bump::new();
    let ax = atom(&arena, 1);
    let ay = atom(&arena, 2);
    let expected = node(&arena, 1, ay, BOT, BOT);
    assert_eq!(Bdd::inter(&arena, ax, ay), expected);
    assert_eq!(Bdd::inter(&arena, ay, ax), expected);
}

#[test]
fn inter_widens_by_the_lazy_union_before_combining() {
    let arena = Bump::new();
    // d1 = union(atom 1, atom 2) carries atom 2 in its lazy union
    let d1 = Bdd::union(&arena, atom(&arena, 1), atom(&arena, 2));
    let d2 = atom(&arena, 2);
    // pos = inter(union(Top, atom 2), atom 2) = atom 2
    // neg = inter(union(Bot, atom 2), atom 2) = atom 2, so the node collapses
    assert_eq!(Bdd::inter(&arena, d1, d2), atom(&arena, 2));
}

#[test]
fn inter_of_equal_atoms_absorbs_both_lazy_unions() {
    let arena = Bump::new();
    let d1 = node(&arena, 1, atom(&arena, 2), atom(&arena, 3), BOT);
    let d2 = node(&arena, 1, TOP, BOT, atom(&arena, 3));
    // pos = inter(union(2, 3), Top) = union(2, 3); neg = inter(3, 3) = 3
    let expected = node(&arena, 1, node(&arena, 2, TOP, atom(&arena, 3), BOT), BOT, atom(&arena, 3));
    assert_eq!(Bdd::inter(&arena, d1, d2), expected);
}

#[test]
fn simplify_collapses_a_node_whose_branches_agree() {
    let arena = Bump::new();
    let d = node(&arena, 1, atom(&arena, 2), atom(&arena, 3), atom(&arena, 2));
    let expected = Bdd::union(&arena, atom(&arena, 2), atom(&arena, 3));
    assert_eq!(Bdd::simplify_lazy_unions(&arena, d), expected);
}

#[test]
fn simplify_collapses_a_node_whose_lazy_union_is_top() {
    let arena = Bump::new();
    let d = node(&arena, 1, atom(&arena, 2), TOP, BOT);
    assert_eq!(*Bdd::simplify_lazy_unions(&arena, d), Bdd::Top);
}

#[test]
fn simplify_keeps_other_nodes_and_leaves() {
    let arena = Bump::new();
    let d = node(&arena, 1, atom(&arena, 2), atom(&arena, 3), BOT);
    assert_eq!(Bdd::simplify_lazy_unions(&arena, d), d);
    assert_eq!(*Bdd::simplify_lazy_unions(&arena, TOP), Bdd::Top);
    assert_eq!(*Bdd::simplify_lazy_unions(&arena, BOT), Bdd::Bot);
}

#[test]
fn diff_boundary_cases() {
    let arena = Bump::new();
    let a = Bdd::union(&arena, atom(&arena, 1), atom(&arena, 2));
    assert_eq!(*Bdd::diff(&arena, a, TOP), Bdd::Bot);
    assert_eq!(Bdd::diff(&arena, a, BOT), a);
    assert_eq!(*Bdd::diff(&arena, BOT, a), Bdd::Bot);
    assert_eq!(*Bdd::diff(&arena, TOP, TOP), Bdd::Bot);
    assert_eq!(*Bdd::diff(&arena, TOP, BOT), Bdd::Top);
    assert_eq!(*Bdd::diff(&arena, BOT, BOT), Bdd::Bot);
}

#[test]
fn top_minus_a_node_complements_it_in_place() {
    let arena = Bump::new();
    let lazy = atom(&arena, 9);
    let d = node(&arena, 1, TOP, lazy, atom(&arena, 2));
    let expected = node(&arena, 1, BOT, lazy, node(&arena, 2, BOT, BOT, TOP));
    assert_eq!(Bdd::diff(&arena, TOP, d), expected);
    assert_eq!(Bdd::diff(&arena, TOP, d), Bdd::not(&arena, d));
}

#[test]
fn diff_of_an_atom_and_itself_is_empty() {
    let arena = Bump::new();
    let a = atom(&arena, 1);
    assert_eq!(*Bdd::diff(&arena, a, a), Bdd::Bot);
}

#[test]
fn diff_of_two_atoms() {
    let arena = Bump::new();
    let ax = atom(&arena, 1);
    let ay = atom(&arena, 2);
    // 1 < 2: pos = diff(Top, atom 2) = not(atom 2), neg = diff(Bot, atom 2) = Bot
    let expected = node(&arena, 1, node(&arena, 2, BOT, BOT, TOP), BOT, BOT);
    assert_eq!(Bdd::diff(&arena, ax, ay), expected);
    // 2 > 1: pos = diff(atom 2, Top) = Bot, neg = diff(atom 2, Bot) = atom 2
    let expected = node(&arena, 1, BOT, BOT, ay);
    assert_eq!(Bdd::diff(&arena, ay, ax), expected);
}

#[test]
fn same_tells_equal_trees_from_different_ones() {
    let arena = Bump::new();
    let d1 = Bdd::union(&arena, atom(&arena, 1), atom(&arena, 2));
    let d2 = Bdd::union(&arena, atom(&arena, 2), atom(&arena, 1));
    let d3 = Bdd::inter(&arena, atom(&arena, 1), atom(&arena, 2));
    assert!(d1.same(d2));
    assert!(!d1.same(d3));
    assert!(!d1.same(TOP));
    assert!(TOP.same(TOP));
    assert!(!TOP.same(BOT));
}

#[test]
fn map_atoms_replaces_every_atom_and_keeps_the_shape() {
    let arena = Bump::new();
    let d = node(&arena, 1, atom(&arena, 2), atom(&arena, 3), BOT);
    let doubled = Bdd::map_atoms(&arena, d, &|a: &u64| -> &u64 { arena.alloc(*a * 2) });
    let expected = node(&arena, 2, atom(&arena, 4), atom(&arena, 6), BOT);
    assert_eq!(doubled, expected);
    assert_eq!(*Bdd::map_atoms(&arena, TOP, &|a: &u64| -> &u64 { a }), Bdd::Top);
    assert_eq!(*Bdd::map_atoms(&arena, BOT, &|a: &u64| -> &u64 { a }), Bdd::Bot);
}
