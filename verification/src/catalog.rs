//! The control catalog of an open device: every descriptor the device
//! reports, ordered so that controls of one kind stand together.

use crate::control::ControlDescriptor;
use crate::control::ControlKind;
use crate::moves::pour_reversed;
use vstd::prelude::*;

verus! {

/// The descriptors of `s` that have kind `kind`, in the order they have in `s`.
pub open spec fn of_kind(s: Seq<ControlDescriptor>, kind: ControlKind) -> Seq<ControlDescriptor> {
    s.filter(|d: ControlDescriptor| d.kind == kind)
}

/// `s` in catalog order: integer controls, then boolean, then menu controls,
/// then those of unsupported kinds, each group in the order it has in `s`.
pub open spec fn clustered(s: Seq<ControlDescriptor>) -> Seq<ControlDescriptor> {
    of_kind(s, ControlKind::Integer) + of_kind(s, ControlKind::Boolean) + of_kind(
        s,
        ControlKind::Menu,
    ) + of_kind(s, ControlKind::Unsupported)
}

/// What a control query delivered: its descriptors, or nothing when the
/// query failed. A device without controls is a valid device.
pub open spec fn queried_or_empty(queried: Option<Vec<ControlDescriptor>>) -> Seq<
    ControlDescriptor,
> {
    match queried {
        Some(v) => v@,
        None => Seq::empty(),
    }
}

/// Builds the catalog of a device from what its control query delivered. A
/// failed query gives an empty catalog. The descriptors are sorted by kind
/// with a stable sort; none is dropped or changed.
pub fn get_descriptors(queried: Option<Vec<ControlDescriptor>>) -> (catalog: Vec<
    ControlDescriptor,
>)
    ensures
        catalog@ == clustered(queried_or_empty(queried)),
{
    let ghost all = queried_or_empty(queried);
    let mut reported: Vec<ControlDescriptor> = match queried {
        Some(v) => v,
        None => Vec::new(),
    };
    let mut pending: Vec<ControlDescriptor> = Vec::new();
    pour_reversed(&mut reported, &mut pending);
    assert(pending@ == all.reverse());

    let mut integers: Vec<ControlDescriptor> = Vec::new();
    let mut booleans: Vec<ControlDescriptor> = Vec::new();
    let mut menus: Vec<ControlDescriptor> = Vec::new();
    let mut others: Vec<ControlDescriptor> = Vec::new();
    let ghost mut done: int = 0;
    proof {
        reveal(Seq::filter);
        assert(all.take(0).len() == 0);
    }
    while pending.len() > 0
        invariant
            0 <= done <= all.len(),
            pending@.len() == all.len() - done,
            pending@ == all.reverse().take(all.len() - done),
            integers@ == of_kind(all.take(done), ControlKind::Integer),
            booleans@ == of_kind(all.take(done), ControlKind::Boolean),
            menus@ == of_kind(all.take(done), ControlKind::Menu),
            others@ == of_kind(all.take(done), ControlKind::Unsupported),
        decreases pending@.len(),
    {
        let d = pending.pop().unwrap();
        proof {
            assert(d == all[done]);
            assert(all.take(done + 1) == all.take(done).push(d));
            all.take(done).lemma_filter_push(d, |x: ControlDescriptor| x.kind == ControlKind::Integer);
            all.take(done).lemma_filter_push(d, |x: ControlDescriptor| x.kind == ControlKind::Boolean);
            all.take(done).lemma_filter_push(d, |x: ControlDescriptor| x.kind == ControlKind::Menu);
            all.take(done).lemma_filter_push(
                d,
                |x: ControlDescriptor| x.kind == ControlKind::Unsupported,
            );
        }
        match d.kind {
            ControlKind::Integer => integers.push(d),
            ControlKind::Boolean => booleans.push(d),
            ControlKind::Menu => menus.push(d),
            ControlKind::Unsupported => others.push(d),
        }
        proof {
            done = done + 1;
        }
    }
    assert(all.take(done) == all);
    integers.append(&mut booleans);
    integers.append(&mut menus);
    integers.append(&mut others);
    integers
}

/// Filtering a kind's descriptors for a kind gives them all where the two
/// kinds agree, and nothing where they differ.
proof fn lemma_of_kind_twice(s: Seq<ControlDescriptor>, inner: ControlKind, outer: ControlKind)
    ensures
        of_kind(of_kind(s, inner), outer) == if inner == outer {
            of_kind(s, inner)
        } else {
            Seq::<ControlDescriptor>::empty()
        },
    decreases s.len(),
{
    reveal(Seq::filter);
    if s.len() > 0 {
        let earlier = s.drop_last();
        let d = s.last();
        assert(s == earlier.push(d));
        lemma_of_kind_twice(earlier, inner, outer);
        earlier.lemma_filter_push(d, |x: ControlDescriptor| x.kind == inner);
        if d.kind == inner {
            of_kind(earlier, inner).lemma_filter_push(
                d,
                |x: ControlDescriptor| x.kind == outer,
            );
        }
    }
}

/// The kind of the descriptor at each place of a catalog: the places of the
/// integer controls come first, then those of the boolean controls, of the
/// menus, and of the unsupported controls.
pub proof fn lemma_clustered_kind_at(s: Seq<ControlDescriptor>, i: int)
    requires
        0 <= i < clustered(s).len(),
    ensures
        clustered(s)[i].kind == (if i < of_kind(s, ControlKind::Integer).len() {
            ControlKind::Integer
        } else if i < of_kind(s, ControlKind::Integer).len() + of_kind(
            s,
            ControlKind::Boolean,
        ).len() {
            ControlKind::Boolean
        } else if i < of_kind(s, ControlKind::Integer).len() + of_kind(
            s,
            ControlKind::Boolean,
        ).len() + of_kind(s, ControlKind::Menu).len() {
            ControlKind::Menu
        } else {
            ControlKind::Unsupported
        }),
{
    let a = of_kind(s, ControlKind::Integer);
    let b = of_kind(s, ControlKind::Boolean);
    let c = of_kind(s, ControlKind::Menu);
    let d = of_kind(s, ControlKind::Unsupported);
    if i < a.len() {
        s.lemma_filter_pred(|x: ControlDescriptor| x.kind == ControlKind::Integer, i);
    } else if i < a.len() + b.len() {
        s.lemma_filter_pred(|x: ControlDescriptor| x.kind == ControlKind::Boolean, i - a.len());
    } else if i < a.len() + b.len() + c.len() {
        s.lemma_filter_pred(
            |x: ControlDescriptor| x.kind == ControlKind::Menu,
            i - a.len() - b.len(),
        );
    } else {
        s.lemma_filter_pred(
            |x: ControlDescriptor| x.kind == ControlKind::Unsupported,
            i - a.len() - b.len() - c.len(),
        );
    }
}

/// A catalog is sorted by kind: controls of one kind stand together.
pub proof fn lemma_clustered_sorted(s: Seq<ControlDescriptor>, i: int, j: int)
    requires
        0 <= i <= j < clustered(s).len(),
    ensures
        clustered(s)[i].kind.rank() <= clustered(s)[j].kind.rank(),
{
    lemma_clustered_kind_at(s, i);
    lemma_clustered_kind_at(s, j);
}

/// The sort is stable: the controls of one kind keep the order in which the
/// device reported them.
pub proof fn lemma_clustered_stable(s: Seq<ControlDescriptor>, kind: ControlKind)
    ensures
        of_kind(clustered(s), kind) == of_kind(s, kind),
{
    let a = of_kind(s, ControlKind::Integer);
    let b = of_kind(s, ControlKind::Boolean);
    let c = of_kind(s, ControlKind::Menu);
    let d = of_kind(s, ControlKind::Unsupported);
    let pred = |x: ControlDescriptor| x.kind == kind;
    Seq::filter_distributes_over_add(a + b + c, d, pred);
    Seq::filter_distributes_over_add(a + b, c, pred);
    Seq::filter_distributes_over_add(a, b, pred);
    lemma_of_kind_twice(s, ControlKind::Integer, kind);
    lemma_of_kind_twice(s, ControlKind::Boolean, kind);
    lemma_of_kind_twice(s, ControlKind::Menu, kind);
    lemma_of_kind_twice(s, ControlKind::Unsupported, kind);
    assert(of_kind(clustered(s), kind) =~= of_kind(s, kind));
}

/// A catalog holds exactly the descriptors that were reported, each as often
/// as it was reported: none is dropped, added or changed.
pub proof fn lemma_clustered_permutes(s: Seq<ControlDescriptor>)
    ensures
        clustered(s).to_multiset() == s.to_multiset(),
        clustered(s).len() == s.len(),
    decreases s.len(),
{
    broadcast use vstd::multiset::group_multiset_axioms;

    reveal(Seq::filter);
    if s.len() == 0 {
        assert(clustered(s) =~= s);
    } else {
        let earlier = s.drop_last();
        let x = s.last();
        assert(s == earlier.push(x));
        lemma_clustered_permutes(earlier);
        let a = of_kind(earlier, ControlKind::Integer);
        let b = of_kind(earlier, ControlKind::Boolean);
        let c = of_kind(earlier, ControlKind::Menu);
        let d = of_kind(earlier, ControlKind::Unsupported);
        earlier.lemma_filter_push(x, |y: ControlDescriptor| y.kind == ControlKind::Integer);
        earlier.lemma_filter_push(x, |y: ControlDescriptor| y.kind == ControlKind::Boolean);
        earlier.lemma_filter_push(x, |y: ControlDescriptor| y.kind == ControlKind::Menu);
        earlier.lemma_filter_push(x, |y: ControlDescriptor| y.kind == ControlKind::Unsupported);
        let a2 = of_kind(s, ControlKind::Integer);
        let b2 = of_kind(s, ControlKind::Boolean);
        let c2 = of_kind(s, ControlKind::Menu);
        let d2 = of_kind(s, ControlKind::Unsupported);
        vstd::seq_lib::lemma_multiset_commutative(a + b + c, d);
        vstd::seq_lib::lemma_multiset_commutative(a + b, c);
        vstd::seq_lib::lemma_multiset_commutative(a, b);
        vstd::seq_lib::lemma_multiset_commutative(a2 + b2 + c2, d2);
        vstd::seq_lib::lemma_multiset_commutative(a2 + b2, c2);
        vstd::seq_lib::lemma_multiset_commutative(a2, b2);
        vstd::seq_lib::to_multiset_build(a, x);
        vstd::seq_lib::to_multiset_build(b, x);
        vstd::seq_lib::to_multiset_build(c, x);
        vstd::seq_lib::to_multiset_build(d, x);
        vstd::seq_lib::to_multiset_build(earlier, x);
        assert(clustered(s).to_multiset() =~= clustered(earlier).to_multiset().insert(x));
    }
}

} // verus!
