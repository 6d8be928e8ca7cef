//! The teardown plan: undoing an activated function's configfs tree.
//!
//! The walk deletes symlinks on sight, recurses into directories and removes
//! each directory only after its contents, and visits five subtrees in a
//! kernel-mandated order: the class link containers go first, because the
//! kernel holds a directory busy while a link still points into it.

use vstd::prelude::*;
use vstd::string::StringExecFns;

verus! {

/// A point-in-time snapshot of one configfs tree node, as the teardown walk
/// sees it.  Plain files are left in place: configfs owns them.
#[derive(Debug)]
pub enum FsNode {
    Link,
    File,
    Dir { children: Vec<FsEntry> },
}

/// A named entry of a directory snapshot, in listing order.
#[derive(Debug)]
pub struct FsEntry {
    pub name: String,
    pub node: FsNode,
}

/// One teardown step.  `Unlink` must succeed; `RemoveDir` is best effort,
/// since final removal of a busy directory belongs to the gadget framework.
#[derive(Debug, PartialEq, Eq)]
pub enum TeardownOp {
    Unlink { path: String },
    RemoveDir { path: String },
}

/// The abstract form of a teardown step: `true` for an unlink, with the path.
pub open spec fn td_model(op: TeardownOp) -> (bool, Seq<char>) {
    match op {
        TeardownOp::Unlink { path } => (true, path@),
        TeardownOp::RemoveDir { path } => (false, path@),
    }
}

pub open spec fn plan_of(ops: Seq<TeardownOp>) -> Seq<(bool, Seq<char>)> {
    ops.map_values(|op: TeardownOp| td_model(op))
}

/// `dir`/`name`.
pub open spec fn joined(dir: Seq<char>, name: Seq<char>) -> Seq<char> {
    dir + "/"@ + name
}

/// The teardown steps for one entry: a link is unlinked; a directory yields
/// its children's steps and then its own removal; a file yields nothing.
pub open spec fn entry_plan(dir: Seq<char>, e: FsEntry) -> Seq<(bool, Seq<char>)>
    decreases e,
{
    let p = joined(dir, e.name@);
    match e.node {
        FsNode::Link => seq![(true, p)],
        FsNode::File => Seq::empty(),
        FsNode::Dir { children } => entries_plan(p, children@) + seq![(false, p)],
    }
}

/// The teardown steps for a directory's entries, in listing order.
pub open spec fn entries_plan(dir: Seq<char>, es: Seq<FsEntry>) -> Seq<(bool, Seq<char>)>
    decreases es,
{
    if es.len() == 0 {
        Seq::empty()
    } else {
        entry_plan(dir, es[0]) + entries_plan(dir, es.subrange(1, es.len() as int))
    }
}

/// `dir`/`name` as a string.
pub fn join_path(dir: &str, name: &str) -> (r: String)
    ensures
        r@ == joined(dir@, name@),
{
    let mut r = String::from_str(dir);
    r.append("/");
    r.append(name);
    r
}

proof fn lemma_entries_plan_concat(dir: Seq<char>, a: Seq<FsEntry>, b: Seq<FsEntry>)
    ensures
        entries_plan(dir, a + b) == entries_plan(dir, a) + entries_plan(dir, b),
    decreases a.len(),
{
    if a.len() == 0 {
        assert(a + b =~= b);
        assert(entries_plan(dir, a) + entries_plan(dir, b) =~= entries_plan(dir, b));
    } else {
        let rest = a.subrange(1, a.len() as int);
        assert((a + b)[0] == a[0]);
        assert((a + b).subrange(1, (a + b).len() as int) =~= rest + b);
        lemma_entries_plan_concat(dir, rest, b);
        assert(entry_plan(dir, a[0]) + (entries_plan(dir, rest) + entries_plan(dir, b)) =~= (
        entry_plan(dir, a[0]) + entries_plan(dir, rest)) + entries_plan(dir, b));
    }
}

/// Walks one directory snapshot and produces its teardown steps, matching
/// `entries_plan`: links are unlinked in listing order, each subdirectory is
/// emptied before its own removal.
pub fn walk_ops(dir: &str, entries: &Vec<FsEntry>) -> (r: Vec<TeardownOp>)
    ensures
        plan_of(r@) == entries_plan(dir@, entries@),
    decreases entries@,
{
    let mut r: Vec<TeardownOp> = Vec::new();
    let mut i: usize = 0;
    proof {
        assert(plan_of(r@) =~= entries_plan(dir@, entries@.subrange(0, 0)));
    }
    while i < entries.len()
        invariant
            i <= entries@.len(),
            plan_of(r@) == entries_plan(dir@, entries@.subrange(0, i as int)),
        decreases entries@.len() - i,
    {
        let ghost prefix = entries@.subrange(0, i as int);
        let ghost r_before = r@;
        let e = &entries[i];
        let p = join_path(dir, e.name.as_str());
        match &e.node {
            FsNode::Link => {
                r.push(TeardownOp::Unlink { path: p });
                proof {
                    assert(plan_of(r@) =~= plan_of(r_before) + seq![(true, joined(
                        dir@,
                        entries@[i as int].name@,
                    ))]);
                }
            },
            FsNode::File => {
                proof {
                    assert(plan_of(r@) =~= plan_of(r_before) + entry_plan(
                        dir@,
                        entries@[i as int],
                    ));
                }
            },
            FsNode::Dir { children } => {
                proof {
                    assert(decreases_to!(entries@ => entries@[i as int]));
                    assert(decreases_to!(entries@[i as int] => entries@[i as int].node));
                    assert(decreases_to!(entries@[i as int].node => *children));
                    assert(decreases_to!(*children => children@));
                }
                let mut sub = walk_ops(p.as_str(), children);
                let ghost sub_view = sub@;
                r.append(&mut sub);
                r.push(TeardownOp::RemoveDir { path: p });
                proof {
                    assert(plan_of(r@) =~= plan_of(r_before) + plan_of(sub_view) + seq![(
                        false,
                        joined(dir@, entries@[i as int].name@),
                    )]);
                    assert(plan_of(r_before) + plan_of(sub_view) + seq![(false, joined(
                        dir@,
                        entries@[i as int].name@,
                    ))] =~= plan_of(r_before) + entry_plan(dir@, entries@[i as int]));
                }
            },
        }
        i = i + 1;
        proof {
            assert(entries@.subrange(0, i as int) =~= prefix + seq![entries@[i - 1]]);
            lemma_entries_plan_concat(dir@, prefix, seq![entries@[i - 1]]);
            assert(seq![entries@[i - 1]][0] == entries@[i - 1]);
            assert(seq![entries@[i - 1]].subrange(1, 1) =~= Seq::<FsEntry>::empty());
            assert(entries_plan(dir@, seq![entries@[i - 1]]) =~= entry_plan(
                dir@,
                entries@[i - 1],
            ) + entries_plan(dir@, Seq::empty()));
            assert(entry_plan(dir@, entries@[i - 1]) + entries_plan(dir@, Seq::<
                FsEntry,
            >::empty()) =~= entry_plan(dir@, entries@[i - 1]));
        }
    }
    proof {
        assert(entries@.subrange(0, entries@.len() as int) =~= entries@);
    }
    r
}

/// The paths of the symlinks present in one snapshot entry.
pub open spec fn entry_links(dir: Seq<char>, e: FsEntry) -> Set<Seq<char>>
    decreases e,
{
    let p = joined(dir, e.name@);
    match e.node {
        FsNode::Link => set![p],
        FsNode::File => Set::empty(),
        FsNode::Dir { children } => entries_links(p, children@),
    }
}

/// The paths of the symlinks present anywhere in a directory snapshot.
pub open spec fn entries_links(dir: Seq<char>, es: Seq<FsEntry>) -> Set<Seq<char>>
    decreases es,
{
    if es.len() == 0 {
        Set::empty()
    } else {
        entry_links(dir, es[0]).union(entries_links(dir, es.subrange(1, es.len() as int)))
    }
}

/// The paths a plan unlinks.
pub open spec fn plan_unlinks(plan: Seq<(bool, Seq<char>)>) -> Set<Seq<char>> {
    Set::new(
        |p: Seq<char>| exists|i: int| 0 <= i < plan.len() && (#[trigger] plan[i]).0 && plan[i].1 == p,
    )
}

proof fn lemma_plan_unlinks_concat(a: Seq<(bool, Seq<char>)>, b: Seq<(bool, Seq<char>)>)
    ensures
        plan_unlinks(a + b) == plan_unlinks(a).union(plan_unlinks(b)),
{
    assert forall|p: Seq<char>| plan_unlinks(a + b).contains(p) implies plan_unlinks(a).union(
        plan_unlinks(b),
    ).contains(p) by {
        let i = choose|i: int| 0 <= i < (a + b).len() && (#[trigger] (a + b)[i]).0 && (a + b)[i].1
            == p;
        if i < a.len() {
            assert(a[i].0 && a[i].1 == p);
        } else {
            assert(b[i - a.len()].0 && b[i - a.len()].1 == p);
        }
    }
    assert forall|p: Seq<char>| plan_unlinks(a).union(plan_unlinks(b)).contains(p) implies
        plan_unlinks(a + b).contains(p) by {
        if plan_unlinks(a).contains(p) {
            let i = choose|i: int| 0 <= i < a.len() && (#[trigger] a[i]).0 && a[i].1 == p;
            assert((a + b)[i].0 && (a + b)[i].1 == p);
        } else {
            let i = choose|i: int| 0 <= i < b.len() && (#[trigger] b[i]).0 && b[i].1 == p;
            assert((a + b)[a.len() + i].0 && (a + b)[a.len() + i].1 == p);
        }
    }
    assert(plan_unlinks(a + b) =~= plan_unlinks(a).union(plan_unlinks(b)));
}

/// Law: the teardown steps for one entry unlink exactly the symlink paths
/// present in it.
pub proof fn lemma_entry_unlinks_exactly(dir: Seq<char>, e: FsEntry)
    ensures
        plan_unlinks(entry_plan(dir, e)) == entry_links(dir, e),
    decreases e,
{
    let p = joined(dir, e.name@);
    match e.node {
        FsNode::Link => {
            assert(seq![(true, p)][0].0 && seq![(true, p)][0].1 == p);
            assert(plan_unlinks(seq![(true, p)]) =~= set![p]);
        },
        FsNode::File => {
            assert(plan_unlinks(Seq::empty()) =~= Set::<Seq<char>>::empty());
        },
        FsNode::Dir { children } => {
            assert(decreases_to!(e => e.node));
            assert(decreases_to!(e.node => children));
            assert(decreases_to!(children => children@));
            lemma_walk_unlinks_exactly(p, children@);
            lemma_plan_unlinks_concat(entries_plan(p, children@), seq![(false, p)]);
            assert(plan_unlinks(seq![(false, p)]) =~= Set::<Seq<char>>::empty());
            assert(plan_unlinks(entry_plan(dir, e)) =~= entry_links(dir, e));
        },
    }
}

/// Law: the teardown steps for a snapshot unlink exactly the symlink paths
/// present in it — applied in order, the plan leaves no symlink behind under
/// the walked directory.
pub proof fn lemma_walk_unlinks_exactly(dir: Seq<char>, es: Seq<FsEntry>)
    ensures
        plan_unlinks(entries_plan(dir, es)) == entries_links(dir, es),
    decreases es,
{
    if es.len() == 0 {
        assert(plan_unlinks(Seq::empty()) =~= Set::<Seq<char>>::empty());
    } else {
        let rest = es.subrange(1, es.len() as int);
        lemma_entry_unlinks_exactly(dir, es[0]);
        lemma_walk_unlinks_exactly(dir, rest);
        lemma_plan_unlinks_concat(entry_plan(dir, es[0]), entries_plan(dir, rest));
    }
}

/// Law: a snapshot without symlinks yields a plan without unlink steps, so a
/// second teardown over what the first left behind attempts no unlink and
/// cannot fail on one.
pub proof fn lemma_no_links_no_unlinks(dir: Seq<char>, es: Seq<FsEntry>)
    requires
        entries_links(dir, es) == Set::<Seq<char>>::empty(),
    ensures
        forall|i: int|
            0 <= i < entries_plan(dir, es).len() ==> !(#[trigger] entries_plan(dir, es)[i]).0,
{
    lemma_walk_unlinks_exactly(dir, es);
    let plan = entries_plan(dir, es);
    assert forall|i: int| 0 <= i < plan.len() implies !(#[trigger] plan[i]).0 by {
        if plan[i].0 {
            assert(plan_unlinks(plan).contains(plan[i].1));
        }
    }
}

/// The five subtrees the teardown visits, in kernel-mandated order: the class
/// link containers before the header and frame directories they point into,
/// and the streaming tree before the control header.
pub fn teardown_roots() -> (r: Vec<String>)
    ensures
        r@.len() == 5,
        r@[0]@ == "control/class"@,
        r@[1]@ == "streaming/class"@,
        r@[2]@ == "streaming/header"@,
        r@[3]@ == "streaming"@,
        r@[4]@ == "control/header"@,
{
    let mut r: Vec<String> = Vec::new();
    r.push(String::from_str("control/class"));
    r.push(String::from_str("streaming/class"));
    r.push(String::from_str("streaming/header"));
    r.push(String::from_str("streaming"));
    r.push(String::from_str("control/header"));
    r
}

} // verus!
