//! Keeping a local mirror of the organisation's repository list in step
//! with the list the service reports.
//!
//! Repositories are known by name.  Every repository the service reports is
//! written to the mirror, and every mirrored name the service no longer
//! reports is removed.  Descriptors stay with the caller: the plan refers to
//! a reported repository by its position in the report.

use vstd::prelude::*;

verus! {

/// One change to the mirror.
#[derive(Debug, Clone, PartialEq, Eq)]
pub enum MirrorOp {
    /// Insert or replace the record of the reported repository at this
    /// position of the report.
    Upsert { remote: usize },
    /// Remove the record with this name.
    Delete { name: String },
}

pub enum MirrorOpView {
    Upsert { remote: usize },
    Delete { name: Seq<char> },
}

impl View for MirrorOp {
    type V = MirrorOpView;

    open spec fn view(&self) -> MirrorOpView {
        match *self {
            MirrorOp::Upsert { remote } => MirrorOpView::Upsert { remote },
            MirrorOp::Delete { name } => MirrorOpView::Delete { name: name@ },
        }
    }
}

/// The names of a list, each by its view.
pub open spec fn names_view(names: Seq<String>) -> Seq<Seq<char>> {
    names.map_values(|name: String| name@)
}

/// The changes of a plan, each by its view.
pub open spec fn plan_view(plan: Seq<MirrorOp>) -> Seq<MirrorOpView> {
    plan.map_values(|op: MirrorOp| op@)
}

/// The mirrored names that the report lacks, each once, in the order of
/// their first appearance in the mirror.
pub open spec fn residual(mirrored: Seq<Seq<char>>, remote: Seq<Seq<char>>) -> Seq<Seq<char>>
    decreases mirrored.len(),
{
    if mirrored.len() == 0 {
        Seq::empty()
    } else {
        let before = residual(mirrored.drop_last(), remote);
        if remote.contains(mirrored.last()) || before.contains(mirrored.last()) {
            before
        } else {
            before.push(mirrored.last())
        }
    }
}

/// One upsert for each of the first `count` reported repositories, in the
/// order of the report.
pub open spec fn upserts(count: nat) -> Seq<MirrorOpView> {
    Seq::new(count, |i: int| MirrorOpView::Upsert { remote: i as usize })
}

/// One deletion for each name, in order.
pub open spec fn deletions(names: Seq<Seq<char>>) -> Seq<MirrorOpView> {
    names.map_values(|name: Seq<char>| MirrorOpView::Delete { name })
}

/// The plan that brings a mirror holding `mirrored` in step with a report
/// of `remote`: upsert everything reported, then delete what is left over.
pub open spec fn refresh_plan(remote: Seq<Seq<char>>, mirrored: Seq<Seq<char>>) -> Seq<
    MirrorOpView,
> {
    upserts(remote.len()) + deletions(residual(mirrored, remote))
}

/// The names a mirror holds after `plan` has been carried out on a mirror
/// that held `names`, reading positions against the report `remote`.
pub open spec fn names_after(
    names: Set<Seq<char>>,
    remote: Seq<Seq<char>>,
    plan: Seq<MirrorOpView>,
) -> Set<Seq<char>>
    decreases plan.len(),
{
    if plan.len() == 0 {
        names
    } else {
        let before = names_after(names, remote, plan.drop_last());
        match plan.last() {
            MirrorOpView::Upsert { remote: at } => before.insert(remote[at as int]),
            MirrorOpView::Delete { name } => before.remove(name),
        }
    }
}

/// The left-over names are exactly the mirrored names that the report
/// lacks, and none of them is listed twice.
pub proof fn lemma_residual(mirrored: Seq<Seq<char>>, remote: Seq<Seq<char>>)
    ensures
        residual(mirrored, remote).no_duplicates(),
        forall|name: Seq<char>| #[trigger]
            residual(mirrored, remote).contains(name) <==> mirrored.contains(name)
                && !remote.contains(name),
    decreases mirrored.len(),
{
    if mirrored.len() > 0 {
        let init = mirrored.drop_last();
        let before = residual(init, remote);
        let last = mirrored.last();
        lemma_residual(init, remote);
        assert forall|name: Seq<char>| #[trigger]
            residual(mirrored, remote).contains(name) <==> mirrored.contains(name)
                && !remote.contains(name) by {
            if mirrored.contains(name) {
                let i = choose|i: int| 0 <= i < mirrored.len() && mirrored[i] == name;
                if i < init.len() {
                    assert(init[i] == name);
                }
            }
            if init.contains(name) {
                let i = choose|i: int| 0 <= i < init.len() && init[i] == name;
                assert(mirrored[i] == name);
            }
            assert(mirrored[mirrored.len() - 1] == last);
            if before.contains(name) {
                let i = choose|i: int| 0 <= i < before.len() && before[i] == name;
                assert(before.push(last)[i] == name);
            }
            if before.push(last).contains(name) {
                let i = choose|i: int|
                    0 <= i < before.push(last).len() && before.push(last)[i] == name;
                if i < before.len() {
                    assert(before[i] == name);
                }
            }
            assert(before.push(last)[before.len() as int] == last);
        }
    }
}

/// After the upserts of the first `count` reported repositories the mirror
/// holds what it held and their names.
pub proof fn lemma_names_after_upserts(names: Set<Seq<char>>, remote: Seq<Seq<char>>, count: nat)
    requires
        count <= remote.len() <= usize::MAX,
    ensures
        names_after(names, remote, upserts(count)) == names.union(
            remote.take(count as int).to_set(),
        ),
    decreases count,
{
    let done = names_after(names, remote, upserts(count));
    let want = names.union(remote.take(count as int).to_set());
    if count == 0 {
        assert(remote.take(0).to_set() =~= Set::<Seq<char>>::empty());
        assert(done =~= want);
    } else {
        let fewer = (count - 1) as nat;
        lemma_names_after_upserts(names, remote, fewer);
        assert(upserts(count).drop_last() =~= upserts(fewer));
        assert(upserts(count).last() == MirrorOpView::Upsert { remote: fewer as usize });
        assert forall|name: Seq<char>| done.contains(name) <==> want.contains(name) by {
            let short = remote.take(fewer as int);
            let long = remote.take(count as int);
            if short.contains(name) {
                let i = choose|i: int| 0 <= i < short.len() && short[i] == name;
                assert(long[i] == name);
            }
            assert(long[fewer as int] == remote[fewer as int]);
            if long.contains(name) {
                let i = choose|i: int| 0 <= i < long.len() && long[i] == name;
                if i < fewer {
                    assert(short[i] == name);
                }
            }
        }
        assert(done =~= want);
    }
}

/// Deletions after other changes remove their names from what those
/// changes left.
pub proof fn lemma_names_after_deletions(
    names: Set<Seq<char>>,
    remote: Seq<Seq<char>>,
    plan: Seq<MirrorOpView>,
    gone: Seq<Seq<char>>,
)
    ensures
        names_after(names, remote, plan + deletions(gone)) == names_after(
            names,
            remote,
            plan,
        ).difference(gone.to_set()),
    decreases gone.len(),
{
    let whole = plan + deletions(gone);
    let done = names_after(names, remote, whole);
    let want = names_after(names, remote, plan).difference(gone.to_set());
    if gone.len() == 0 {
        assert(whole =~= plan);
        assert(done =~= want);
    } else {
        let init = gone.drop_last();
        lemma_names_after_deletions(names, remote, plan, init);
        assert(whole.drop_last() =~= plan + deletions(init));
        assert(whole.last() == MirrorOpView::Delete { name: gone.last() });
        assert forall|name: Seq<char>| done.contains(name) <==> want.contains(name) by {
            if init.contains(name) {
                let i = choose|i: int| 0 <= i < init.len() && init[i] == name;
                assert(gone[i] == name);
            }
            assert(gone[gone.len() - 1] == gone.last());
            if gone.contains(name) {
                let i = choose|i: int| 0 <= i < gone.len() && gone[i] == name;
                if i < init.len() {
                    assert(init[i] == name);
                }
            }
        }
        assert(done =~= want);
    }
}

/// Carrying out the plan leaves the mirror with exactly the reported names.
pub proof fn law_refresh_mirrors_remote(remote: Seq<Seq<char>>, mirrored: Seq<Seq<char>>)
    requires
        remote.len() <= usize::MAX,
    ensures
        names_after(mirrored.to_set(), remote, refresh_plan(remote, mirrored)) == remote.to_set(),
{
    let gone = residual(mirrored, remote);
    lemma_residual(mirrored, remote);
    lemma_names_after_upserts(mirrored.to_set(), remote, remote.len());
    lemma_names_after_deletions(mirrored.to_set(), remote, upserts(remote.len()), gone);
    assert(remote.take(remote.len() as int) =~= remote);
    assert(mirrored.to_set().union(remote.to_set()).difference(gone.to_set()) =~= remote.to_set());
}

/// The plan deletes a name exactly where the mirror holds it and the report
/// does not, and deletes no name twice.
pub proof fn law_refresh_deletes_the_difference(remote: Seq<Seq<char>>, mirrored: Seq<Seq<char>>)
    ensures
        residual(mirrored, remote).no_duplicates(),
        residual(mirrored, remote).to_set() == mirrored.to_set().difference(remote.to_set()),
{
    lemma_residual(mirrored, remote);
    assert(residual(mirrored, remote).to_set() =~= mirrored.to_set().difference(remote.to_set()));
}

/// Whether `names` holds `name`.
pub fn holds_name(names: &Vec<String>, name: &String) -> (held: bool)
    ensures
        held == names_view(names@).contains(name@),
{
    let mut i: usize = 0;
    while i < names.len()
        invariant
            i <= names@.len(),
            forall|k: int| 0 <= k < i ==> names_view(names@)[k] != name@,
        decreases names@.len() - i,
    {
        if names[i] == *name {
            assert(names_view(names@)[i as int] == name@);
            return true;
        }
        i += 1;
    }
    false
}

/// Plans the changes that bring a mirror holding the names `mirrored` in
/// step with a report of repositories named `remote`, in report order.
pub fn refresh_db_github_repos(remote: &Vec<String>, mirrored: &Vec<String>) -> (plan: Vec<
    MirrorOp,
>)
    ensures
        plan_view(plan@) == refresh_plan(names_view(remote@), names_view(mirrored@)),
{
    let mut plan: Vec<MirrorOp> = Vec::new();
    let mut i: usize = 0;
    while i < remote.len()
        invariant
            i <= remote@.len(),
            plan_view(plan@) =~= upserts(i as nat),
        decreases remote@.len() - i,
    {
        let ghost planned = plan_view(plan@);
        plan.push(MirrorOp::Upsert { remote: i });
        proof {
            assert(plan_view(plan@) =~= planned.push(MirrorOpView::Upsert { remote: i }));
        }
        i += 1;
    }
    let ghost reported = names_view(remote@);
    let ghost held = names_view(mirrored@);
    let mut gone: Vec<String> = Vec::new();
    let mut j: usize = 0;
    while j < mirrored.len()
        invariant
            j <= mirrored@.len(),
            reported == names_view(remote@),
            held == names_view(mirrored@),
            names_view(gone@) == residual(held.take(j as int), reported),
            plan_view(plan@) =~= upserts(remote@.len()) + deletions(names_view(gone@)),
        decreases mirrored@.len() - j,
    {
        proof {
            assert(held.take(j + 1).drop_last() =~= held.take(j as int));
            assert(held.take(j + 1).last() == mirrored@[j as int]@);
        }
        if !holds_name(remote, &mirrored[j]) && !holds_name(&gone, &mirrored[j]) {
            let ghost before = names_view(gone@);
            let ghost planned = plan_view(plan@);
            gone.push(mirrored[j].clone());
            plan.push(MirrorOp::Delete { name: mirrored[j].clone() });
            proof {
                let name = mirrored@[j as int]@;
                assert(names_view(gone@) =~= before.push(name));
                assert(plan_view(plan@) =~= planned.push(MirrorOpView::Delete { name }));
                assert(deletions(before.push(name)) =~= deletions(before).push(
                    MirrorOpView::Delete { name },
                ));
            }
        }
        j += 1;
    }
    proof {
        assert(held.take(mirrored@.len() as int) =~= held);
    }
    plan
}

} // verus!
