//! The registry of launched processes: the set of process identifiers the
//! engine has spawned and is responsible for, keyed by identifier and free
//! of duplicates.
use vstd::prelude::*;

verus! {

/// One application the engine launched and still tracks.
#[derive(Clone, Copy, Debug, PartialEq, Eq, Structural)]
pub struct LaunchedApp {
    /// The identifier of the spawned process.
    pub process_id: u32,
    /// When the process was spawned, in unix seconds.
    pub launched_at: i64,
}

/// Whether some entry of `s` tracks `pid`.
pub open spec fn spec_pid_tracked(s: Seq<LaunchedApp>, pid: u32) -> bool {
    exists|i: int| 0 <= i < s.len() && s[i].process_id == pid
}

/// Whether no two entries of `s` share a process identifier.
pub open spec fn spec_entries_unique(s: Seq<LaunchedApp>) -> bool {
    forall|i: int, j: int| 0 <= i < j < s.len() ==> s[i].process_id != s[j].process_id
}

/// The entries after an insert: unchanged when `pid` is already tracked,
/// extended by one entry otherwise.
pub open spec fn spec_insert_entry(s: Seq<LaunchedApp>, pid: u32, launched_at: i64) -> Seq<
    LaunchedApp,
> {
    if spec_pid_tracked(s, pid) {
        s
    } else {
        s.push(LaunchedApp { process_id: pid, launched_at })
    }
}

/// Inserting keeps the entries unique.
pub proof fn lemma_insert_entry_unique(s: Seq<LaunchedApp>, pid: u32, launched_at: i64)
    requires
        spec_entries_unique(s),
    ensures
        spec_entries_unique(spec_insert_entry(s, pid, launched_at)),
        spec_pid_tracked(spec_insert_entry(s, pid, launched_at), pid),
        spec_insert_entry(s, pid, launched_at).len() >= s.len(),
{
    if !spec_pid_tracked(s, pid) {
        let s2 = spec_insert_entry(s, pid, launched_at);
        assert(s2[s.len() as int].process_id == pid);
        assert forall|i: int, j: int| 0 <= i < j < s2.len() implies s2[i].process_id
            != s2[j].process_id by {
            if j == s.len() {
                assert(s2[i] == s[i]);
            }
        }
    }
}

/// How many of the flags in `f` are set.
pub open spec fn spec_count_true(f: Seq<bool>) -> int
    decreases f.len(),
{
    if f.len() == 0 {
        0
    } else {
        spec_count_true(f.drop_last()) + if f.last() {
            1int
        } else {
            0int
        }
    }
}

/// The entries of `s` whose matching flag in `f` is set, in their
/// original order.
pub open spec fn spec_filter_alive(s: Seq<LaunchedApp>, f: Seq<bool>) -> Seq<LaunchedApp>
    recommends
        s.len() == f.len(),
    decreases s.len(),
{
    if s.len() == 0 {
        Seq::empty()
    } else {
        let rest = spec_filter_alive(s.drop_last(), f.drop_last());
        if f.last() {
            rest.push(s.last())
        } else {
            rest
        }
    }
}

/// The filtered sequence keeps exactly as many entries as there are set
/// flags.
pub proof fn lemma_filter_alive_len(s: Seq<LaunchedApp>, f: Seq<bool>)
    requires
        s.len() == f.len(),
    ensures
        spec_filter_alive(s, f).len() == spec_count_true(f),
        0 <= spec_count_true(f) <= f.len(),
    decreases s.len(),
{
    if s.len() > 0 {
        lemma_filter_alive_len(s.drop_last(), f.drop_last());
    }
}

/// An entry survives the filter if and only if it stood at some position
/// whose flag is set.
pub proof fn lemma_filter_alive_membership(s: Seq<LaunchedApp>, f: Seq<bool>, x: LaunchedApp)
    requires
        s.len() == f.len(),
    ensures
        spec_filter_alive(s, f).contains(x) <==> exists|i: int|
            0 <= i < s.len() && s[i] == x && f[i],
    decreases s.len(),
{
    if s.len() > 0 {
        lemma_filter_alive_membership(s.drop_last(), f.drop_last(), x);
        let sub = spec_filter_alive(s.drop_last(), f.drop_last());
        let all = spec_filter_alive(s, f);
        if all.contains(x) {
            if f.last() && x == s.last() {
                assert(s[s.len() - 1] == x && f[s.len() - 1]);
            } else {
                assert(sub.contains(x));
                let i = choose|i: int| 0 <= i < s.len() - 1 && s.drop_last()[i] == x
                    && f.drop_last()[i];
                assert(s[i] == x && f[i]);
            }
        }
        if exists|i: int| 0 <= i < s.len() && s[i] == x && f[i] {
            let i = choose|i: int| 0 <= i < s.len() && s[i] == x && f[i];
            if i == s.len() - 1 {
                assert(all.contains(x)) by {
                    if f.last() {
                        assert(all.last() == x);
                    }
                }
            } else {
                assert(s.drop_last()[i] == x && f.drop_last()[i]);
                assert(sub.contains(x));
                let j = choose|j: int| 0 <= j < sub.len() && sub[j] == x;
                assert(all[j] == x);
            }
        }
    }
}

/// The registry of launched processes. Entries are unique by process
/// identifier; mutation happens only through its operations.
#[verifier::ext_equal]
pub struct LaunchedProcessRegistry {
    /// The tracked entries. Read freely; mutate only through the
    /// registry's own operations, which keep the entries unique.
    pub apps: Vec<LaunchedApp>,
}

impl LaunchedProcessRegistry {
    /// The tracked entries, in order of insertion.
    pub open spec fn entries(self) -> Seq<LaunchedApp> {
        self.apps@
    }

    /// The tracked process identifiers, in order of insertion.
    pub open spec fn pids(self) -> Seq<u32> {
        self.apps@.map(|i: int, a: LaunchedApp| a.process_id)
    }

    /// Well-formedness: no two entries share a process identifier.
    pub open spec fn wf(self) -> bool {
        spec_entries_unique(self.apps@)
    }

    /// Whether some entry tracks `pid`.
    pub open spec fn spec_contains(self, pid: u32) -> bool {
        spec_pid_tracked(self.apps@, pid)
    }

    /// An empty registry.
    pub fn new() -> (r: Self)
        ensures
            r.entries() == Seq::<LaunchedApp>::empty(),
            r.wf(),
    {
        LaunchedProcessRegistry { apps: Vec::new() }
    }

    /// How many processes are tracked.
    pub fn count(&self) -> (r: usize)
        ensures
            r == self.entries().len(),
    {
        self.apps.len()
    }

    /// Whether nothing is tracked.
    pub fn is_empty(&self) -> (r: bool)
        ensures
            r <==> self.entries().len() == 0,
    {
        self.apps.len() == 0
    }

    /// The tracked entries, oldest first.
    pub fn snapshot(&self) -> (r: Vec<LaunchedApp>)
        ensures
            r@ == self.entries(),
    {
        let mut out: Vec<LaunchedApp> = Vec::new();
        let mut i: usize = 0;
        while i < self.apps.len()
            invariant
                i <= self.apps@.len(),
                out@ == self.apps@.take(i as int),
            decreases self.apps@.len() - i,
        {
            out.push(self.apps[i]);
            i = i + 1;
            proof {
                assert(out@ =~= self.apps@.take(i as int));
            }
        }
        proof {
            assert(out@ =~= self.apps@);
        }
        out
    }

    /// The entry at position `i`, oldest first.
    pub fn get(&self, i: usize) -> (r: LaunchedApp)
        requires
            i < self.entries().len(),
        ensures
            r == self.entries()[i as int],
    {
        self.apps[i]
    }

    /// Whether `pid` is tracked.
    pub fn contains(&self, pid: u32) -> (r: bool)
        ensures
            r == self.spec_contains(pid),
    {
        let mut i: usize = 0;
        while i < self.apps.len()
            invariant
                i <= self.apps@.len(),
                forall|j: int| 0 <= j < i ==> self.apps@[j].process_id != pid,
            decreases self.apps@.len() - i,
        {
            if self.apps[i].process_id == pid {
                return true;
            }
            i = i + 1;
        }
        false
    }

    /// The entries after an insert: unchanged when `pid` is already
    /// tracked, extended by one entry otherwise.
    pub open spec fn spec_add_entries(self, pid: u32, launched_at: i64) -> Seq<LaunchedApp> {
        spec_insert_entry(self.apps@, pid, launched_at)
    }

    /// Inserts `pid`. A duplicate insert of a tracked identifier is a
    /// no-op: the registry is a set, not a multiset.
    pub fn add(&mut self, pid: u32, launched_at: i64) -> (added: bool)
        requires
            old(self).wf(),
        ensures
            final(self).entries() == old(self).spec_add_entries(pid, launched_at),
            final(self).wf(),
            final(self).spec_contains(pid),
            added <==> !old(self).spec_contains(pid),
    {
        if self.contains(pid) {
            false
        } else {
            self.apps.push(LaunchedApp { process_id: pid, launched_at });
            proof {
                assert(self.apps@.last().process_id == pid);
                assert(self.spec_contains(pid));
            }
            true
        }
    }

    /// Removes every entry whose flag in `alive` is clear and reports
    /// `(removed, remaining)`. The flags are matched to the entries by
    /// position, oldest first.
    pub fn prune_with(&mut self, alive: &Vec<bool>) -> (counts: (usize, usize))
        requires
            old(self).wf(),
            alive@.len() == old(self).entries().len(),
        ensures
            final(self).entries() == spec_filter_alive(old(self).entries(), alive@),
            final(self).wf(),
            counts.1 == final(self).entries().len(),
            counts.0 + counts.1 == old(self).entries().len(),
            counts.1 == spec_count_true(alive@),
    {
        let ghost s0 = self.apps@;
        let mut kept: Vec<LaunchedApp> = Vec::new();
        let mut i: usize = 0;
        while i < self.apps.len()
            invariant
                i <= self.apps@.len(),
                self.apps@ == s0,
                alive@.len() == s0.len(),
                kept@ == spec_filter_alive(s0.take(i as int), alive@.take(i as int)),
            decreases self.apps@.len() - i,
        {
            proof {
                assert(s0.take(i + 1).drop_last() =~= s0.take(i as int));
                assert(alive@.take(i + 1).drop_last() =~= alive@.take(i as int));
                assert(s0.take(i + 1).last() == s0[i as int]);
            }
            if alive[i] {
                kept.push(self.apps[i]);
            }
            proof {
                assert(kept@ =~= spec_filter_alive(
                    s0.take(i + 1),
                    alive@.take(i + 1),
                ));
            }
            i = i + 1;
        }
        proof {
            assert(s0.take(s0.len() as int) =~= s0);
            assert(alive@.take(s0.len() as int) =~= alive@);
            lemma_filter_alive_len(s0, alive@);
            lemma_filter_alive_sub_wf(s0, alive@);
        }
        let total = self.apps.len();
        let remaining = kept.len();
        self.apps = kept;
        (total - remaining, remaining)
    }
}

/// Filtering keeps uniqueness of process identifiers, and every surviving
/// entry stood in the original sequence.
pub proof fn lemma_filter_alive_sub_wf(s: Seq<LaunchedApp>, f: Seq<bool>)
    requires
        s.len() == f.len(),
        spec_entries_unique(s),
    ensures
        spec_entries_unique(spec_filter_alive(s, f)),
        forall|i: int|
            0 <= i < spec_filter_alive(s, f).len() ==> s.contains(#[trigger] spec_filter_alive(
                s,
                f,
            )[i]),
    decreases s.len(),
{
    if s.len() > 0 {
        lemma_filter_alive_sub_wf(s.drop_last(), f.drop_last());
        let rest = spec_filter_alive(s.drop_last(), f.drop_last());
        let all = spec_filter_alive(s, f);
        assert(forall|i: int|
            0 <= i < rest.len() ==> s.drop_last().contains(#[trigger] rest[i]));
        assert(forall|i: int| 0 <= i < rest.len() ==> s.contains(#[trigger] rest[i])) by {
            assert(forall|i: int|
                0 <= i < s.len() - 1 ==> s.drop_last()[i] == #[trigger] s[i]);
            assert(forall|x: LaunchedApp| s.drop_last().contains(x) ==> s.contains(x)) by {
                assert forall|x: LaunchedApp| s.drop_last().contains(x) implies s.contains(
                    x,
                ) by {
                    let i = choose|i: int| 0 <= i < s.drop_last().len() && s.drop_last()[i] == x;
                    assert(s[i] == x);
                }
            }
        }
        if f.last() {
            assert forall|i: int, j: int| 0 <= i < j < all.len() implies all[i].process_id
                != all[j].process_id by {
                if j == all.len() - 1 {
                    assert(all[j] == s.last());
                    assert(rest[i] == all[i]);
                    assert(s.contains(rest[i]));
                    let k = choose|k: int| 0 <= k < s.len() && s[k] == rest[i];
                    assert(s.drop_last().contains(rest[i]));
                    let k2 = choose|k2: int|
                        0 <= k2 < s.drop_last().len() && s.drop_last()[k2] == rest[i];
                    assert(s[k2] == rest[i]);
                    assert(s[k2].process_id != s[s.len() - 1].process_id);
                }
            }
        }
    }
}

} // verus!
