//! The order of paths: component by component.

use vstd::prelude::*;

use crate::remote_path::{components, dot_component, parent_component, root_component};

verus! {

/// Whether `a` stands before `b` in a dictionary whose letters are ordered by `before`.
pub open spec fn is_lexically_before<A>(
    a: Seq<A>,
    b: Seq<A>,
    before: spec_fn(A, A) -> bool,
) -> bool {
    exists|k: int| #[trigger] parts_at(a, b, before, k)
}

/// Whether `a` and `b` agree up to `k`, and there `a` ends or goes on with what comes before.
pub open spec fn parts_at<A>(a: Seq<A>, b: Seq<A>, before: spec_fn(A, A) -> bool, k: int) -> bool {
    &&& 0 <= k <= a.len()
    &&& k < b.len()
    &&& a.take(k) == b.take(k)
    &&& k == a.len() || before(a[k], b[k])
}

/// Whether of any two different things exactly one comes before the other, and whatever comes
/// before something comes before all that this comes before.
pub open spec fn is_total_order<A>(before: spec_fn(A, A) -> bool) -> bool {
    &&& forall|x: A| !#[trigger] before(x, x)
    &&& forall|x: A, y: A| x != y ==> #[trigger] before(x, y) || before(y, x)
    &&& forall|x: A, y: A, z: A|
        #[trigger] before(x, y) && #[trigger] before(y, z) ==> before(x, z)
}

/// Characters are ordered by their code points.
pub open spec fn char_order() -> spec_fn(char, char) -> bool {
    |x: char, y: char| (x as int) < (y as int)
}

/// Where a component stands among those of other kinds.
pub open spec fn rank(component: Seq<char>) -> nat {
    if component == root_component() {
        0
    } else if component == dot_component() {
        1
    } else if component == parent_component() {
        2
    } else {
        3
    }
}

/// The root comes before a dot, that before two dots, and these before all names, which are
/// ordered as in a dictionary.
pub open spec fn component_order() -> spec_fn(Seq<char>, Seq<char>) -> bool {
    |x: Seq<char>, y: Seq<char>|
        rank(x) < rank(y) || (rank(x) == 3 && rank(y) == 3 && is_lexically_before(
            x,
            y,
            char_order(),
        ))
}

/// Whether the path `a` comes before the path `b`.
pub open spec fn path_precedes(a: Seq<char>, b: Seq<char>) -> bool {
    is_lexically_before(components(a), components(b), component_order())
}

/// Two sequences that agree up to `k` are the same, or part somewhere behind.
proof fn lemma_parting<A>(a: Seq<A>, b: Seq<A>, before: spec_fn(A, A) -> bool, k: int)
    requires
        is_total_order(before),
        0 <= k <= a.len(),
        k <= b.len(),
        a.take(k) == b.take(k),
    ensures
        a == b || is_lexically_before(a, b, before) || is_lexically_before(b, a, before),
    decreases a.len() - k,
{
    if k == a.len() && k == b.len() {
        assert(a =~= a.take(k));
        assert(b =~= b.take(k));
    } else if k == a.len() {
        assert(parts_at(a, b, before, k));
    } else if k == b.len() {
        assert(parts_at(b, a, before, k));
    } else if a[k] == b[k] {
        assert(a.take(k + 1) =~= a.take(k).push(a[k]));
        assert(b.take(k + 1) =~= b.take(k).push(b[k]));
        lemma_parting(a, b, before, k + 1);
    } else if before(a[k], b[k]) {
        assert(parts_at(a, b, before, k));
    } else {
        assert(parts_at(b, a, before, k));
    }
}

/// Sequences that agree up to `k` agree at every place before it.
proof fn lemma_agree<A>(a: Seq<A>, b: Seq<A>, k: int, i: int)
    requires
        0 <= i < k <= a.len(),
        k <= b.len(),
        a.take(k) == b.take(k),
    ensures
        a[i] == b[i],
        a.take(i) == b.take(i),
{
    assert(a.take(k)[i] == a[i]);
    assert(b.take(k)[i] == b[i]);
    assert(a.take(i) =~= a.take(k).take(i));
    assert(b.take(i) =~= b.take(k).take(i));
}

/// The order of a dictionary is as total as that of its letters.
proof fn lemma_lexical_order<A>(before: spec_fn(A, A) -> bool, x: Seq<A>, y: Seq<A>, z: Seq<A>)
    requires
        is_total_order(before),
    ensures
        !is_lexically_before(x, x, before),
        x == y || is_lexically_before(x, y, before) || is_lexically_before(y, x, before),
        is_lexically_before(x, y, before) && is_lexically_before(y, z, before)
            ==> is_lexically_before(x, z, before),
{
    assert(x.take(0) =~= y.take(0));
    lemma_parting(x, y, before, 0);
    if is_lexically_before(x, y, before) && is_lexically_before(y, z, before) {
        let j = choose|j: int| parts_at(x, y, before, j);
        let k = choose|k: int| parts_at(y, z, before, k);
        if j < k {
            lemma_agree(y, z, k, j);
            assert(parts_at(x, z, before, j));
        } else if k < j {
            lemma_agree(x, y, j, k);
            assert(parts_at(x, z, before, k));
        } else {
            assert(parts_at(x, z, before, k));
        }
    }
}

proof fn lemma_text_order(x: Seq<char>, y: Seq<char>, z: Seq<char>)
    ensures
        !is_lexically_before(x, x, char_order()),
        x == y || is_lexically_before(x, y, char_order()) || is_lexically_before(
            y,
            x,
            char_order(),
        ),
        is_lexically_before(x, y, char_order()) && is_lexically_before(y, z, char_order())
            ==> is_lexically_before(x, z, char_order()),
{
    assert(is_total_order(char_order()));
    lemma_lexical_order(char_order(), x, y, z);
}

proof fn lemma_component_order()
    ensures
        is_total_order(component_order()),
{
    let before = component_order();
    assert forall|x: Seq<char>| !#[trigger] before(x, x) by {
        lemma_text_order(x, x, x);
    }
    assert forall|x: Seq<char>, y: Seq<char>| x != y implies #[trigger] before(x, y) || before(
        y,
        x,
    ) by {
        lemma_text_order(x, y, x);
    }
    assert forall|x: Seq<char>, y: Seq<char>, z: Seq<char>|
        #[trigger] before(x, y) && #[trigger] before(y, z) implies before(x, z) by {
        lemma_text_order(x, y, z);
    }
}

/// Paths are totally ordered, up to what their components leave open: of two paths with
/// different components exactly one comes before the other, and the order is transitive.
pub proof fn law_paths_are_ordered(a: Seq<char>, b: Seq<char>, c: Seq<char>)
    ensures
        components(a) == components(b) ==> !path_precedes(a, b),
        components(a) != components(b) ==> (path_precedes(a, b) <==> !path_precedes(b, a)),
        path_precedes(a, b) && path_precedes(b, c) ==> path_precedes(a, c),
{
    lemma_component_order();
    let before = component_order();
    lemma_lexical_order(before, components(a), components(b), components(c));
    lemma_lexical_order(before, components(a), components(b), components(a));
}

/// A path comes before everything under it; and of two paths that agree up to some component,
/// the one comes first whose name there is a beginning of the other's, or has the smaller
/// character at the first place where the names differ.
pub proof fn law_order_of_names(a: Seq<char>, b: Seq<char>, k: int, m: int)
    requires
        0 <= k <= components(a).len(),
        k < components(b).len(),
        forall|i: int| 0 <= i < k ==> #[trigger] components(a)[i] == components(b)[i],
    ensures
        k == components(a).len() ==> path_precedes(a, b),
        k < components(a).len() && ({
            let x = components(a)[k];
            let y = components(b)[k];
            &&& x != seq!['/'] && x != seq!['.'] && x != seq!['.', '.']
            &&& y != seq!['/'] && y != seq!['.'] && y != seq!['.', '.']
            &&& 0 <= m <= x.len() && m < y.len()
            &&& forall|i: int| 0 <= i < m ==> #[trigger] x[i] == y[i]
            &&& m == x.len() || (x[m] as int) < (y[m] as int)
        }) ==> path_precedes(a, b),
{
    let before = component_order();
    let p = components(a);
    let q = components(b);
    assert(p.take(k) =~= q.take(k));
    if k == p.len() {
        assert(parts_at(p, q, before, k));
    } else {
        let x = p[k];
        let y = q[k];
        if x != seq!['/'] && x != seq!['.'] && x != seq!['.', '.'] && y != seq!['/'] && y
            != seq!['.'] && y != seq!['.', '.'] && 0 <= m <= x.len() && m < y.len() && (forall|i: int|
            0 <= i < m ==> #[trigger] x[i] == y[i]) && (m == x.len() || (x[m] as int) < (
        y[m] as int)) {
            assert(x.take(m) =~= y.take(m));
            assert(parts_at(x, y, char_order(), m));
            assert(before(x, y));
            assert(parts_at(p, q, before, k));
        }
    }
}

/// Of components of different kinds, the root comes first, then a dot, then two dots, then
/// names.
pub proof fn law_order_of_kinds(name: Seq<char>)
    requires
        name != seq!['/'],
        name != seq!['.'],
        name != seq!['.', '.'],
    ensures
        ({
            let before = component_order();
            &&& before(seq!['/'], seq!['.'])
            &&& before(seq!['.'], seq!['.', '.'])
            &&& before(seq!['.', '.'], name)
            &&& !before(name, seq!['.', '.'])
        }),
{
    assert(seq!['/'][0] != seq!['.'][0]);
    assert(seq!['.'].len() != seq!['.', '.'].len());
}

} // verus!
