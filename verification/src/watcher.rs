//! The per-stream segment watcher and upload dispatcher.
//!
//! A watcher runs the state machine `Running -> Draining -> Done`.  On
//! every pass it is handed the manifest's current entries and, for each
//! entry, whether the segment file already exists on disk.  Every entry
//! read in a pass is recorded as seen at once — whether or not its
//! upload is dispatched and whether or not that upload later succeeds —
//! so no filename is ever dispatched twice.  After the shutdown signal
//! the watcher performs exactly one more pass, waits for the uploads it
//! dispatched, and only then reports itself drained.

use vstd::prelude::*;

use crate::manifest::contains_entry;

verus! {

/// The watcher's place in its lifecycle.
#[derive(Clone, Copy, Debug, PartialEq, Eq, Structural)]
pub enum WatcherPhase {
    /// Polling the manifest at a fixed interval.
    Running,
    /// The shutdown signal arrived: one final pass is owed.
    Draining,
    /// The final pass and its uploads are complete; the stream's drain
    /// flag is set.
    Done,
}

/// A list without repeated elements.
pub open spec fn distinct_names(s: Seq<Seq<u8>>) -> bool {
    forall|i: int, j: int| 0 <= i < j < s.len() ==> s[i] != s[j]
}

/// The index of a name's first occurrence in an entry list (the list's
/// length when it does not occur).
pub open spec fn first_index(s: Seq<Seq<u8>>, x: Seq<u8>) -> int
    decreases s.len(),
{
    if s.len() == 0 {
        0
    } else if s[0] == x {
        0
    } else {
        1 + first_index(s.skip(1), x)
    }
}

/// For a name that occurs, `first_index` points at an occurrence and
/// nothing earlier is one.
pub proof fn lemma_first_index_occurs(s: Seq<Seq<u8>>, x: Seq<u8>)
    requires
        s.contains(x),
    ensures
        0 <= first_index(s, x) < s.len(),
        s[first_index(s, x)] == x,
        forall|j: int| 0 <= j < first_index(s, x) ==> s[j] != x,
    decreases s.len(),
{
    if s[0] == x {
    } else {
        assert(s.skip(1).contains(x)) by {
            let w = choose|i: int| 0 <= i < s.len() && s[i] == x;
            assert(s.skip(1)[w - 1] == x);
        }
        lemma_first_index_occurs(s.skip(1), x);
        assert forall|j: int| 0 <= j < first_index(s, x) implies s[j] != x by {
            if j > 0 {
                assert(s.skip(1)[j - 1] != x);
            }
        }
    }
}

/// Any index with the first-occurrence properties is the first
/// occurrence.
pub proof fn lemma_first_index_is(s: Seq<Seq<u8>>, x: Seq<u8>, i: int)
    requires
        0 <= i < s.len(),
        s[i] == x,
        forall|j: int| 0 <= j < i ==> s[j] != x,
    ensures
        first_index(s, x) == i,
    decreases s.len(),
{
    if s[0] == x {
    } else {
        assert(i > 0);
        lemma_first_index_is(s.skip(1), x, i - 1);
    }
}

/// What one discovery pass does: every entry read becomes seen;
/// dispatched are exactly the fresh entries whose file exists, each at
/// most once, in manifest order (by first occurrence).  The
/// completeness direction is stated for manifests without repeated
/// lines, which is what the parser delivers.
pub open spec fn pass_rel(
    pre_seen: Seq<Seq<u8>>,
    entries: Seq<Seq<u8>>,
    on_disk: Seq<bool>,
    dispatched: Seq<Seq<u8>>,
    post_seen: Seq<Seq<u8>>,
) -> bool {
    &&& forall|x: Seq<u8>|
        #[trigger] post_seen.contains(x) <==> pre_seen.contains(x) || entries.contains(x)
    &&& forall|x: Seq<u8>| #[trigger]
        dispatched.contains(x) ==> entries.contains(x) && !pre_seen.contains(x)
    &&& forall|x: Seq<u8>| #[trigger]
        dispatched.contains(x) ==> exists|i: int|
            0 <= i < entries.len() && entries[i] == x && on_disk[i]
    &&& forall|a: int, b: int|
        0 <= a < b < dispatched.len() ==> first_index(entries, #[trigger] dispatched[a])
            < first_index(entries, #[trigger] dispatched[b])
    &&& distinct_names(dispatched)
    &&& distinct_names(entries) ==> forall|i: int|
        0 <= i < entries.len() && on_disk[i] && !pre_seen.contains(entries[i])
            ==> dispatched.contains(#[trigger] entries[i])
}

/// What observing the shutdown flag at the top of the loop does.  The
/// watcher only moves — and in particular only reaches `Done`, the
/// state its drain flag reports — when no dispatched upload is still in
/// flight.
pub open spec fn poll_rel(
    pre_phase: WatcherPhase,
    pre_pending: nat,
    shutdown: bool,
    do_pass: bool,
    post_phase: WatcherPhase,
) -> bool {
    &&& pre_pending == 0
    &&& match pre_phase {
        WatcherPhase::Running => if shutdown {
            post_phase == WatcherPhase::Draining && do_pass
        } else {
            post_phase == WatcherPhase::Running && do_pass
        },
        WatcherPhase::Draining => if shutdown {
            post_phase == WatcherPhase::Done && !do_pass
        } else {
            post_phase == WatcherPhase::Draining && do_pass
        },
        WatcherPhase::Done => post_phase == WatcherPhase::Done && !do_pass,
    }
}

/// The per-stream watcher state: its phase, the filenames already
/// dispatched or skipped (the seen-set), and how many dispatched
/// uploads have not been awaited yet.
pub struct SegmentWatcher {
    phase: WatcherPhase,
    seen: Vec<Vec<u8>>,
    pending_uploads: usize,
}

impl SegmentWatcher {
    /// The watcher's phase.
    pub closed spec fn spec_phase(self) -> WatcherPhase {
        self.phase
    }

    /// The filenames recorded as seen.
    pub closed spec fn seen_names(self) -> Seq<Seq<u8>> {
        self.seen.deep_view()
    }

    /// Uploads dispatched and not yet awaited.
    pub closed spec fn pending(self) -> nat {
        self.pending_uploads as nat
    }

    /// A fresh watcher: running, nothing seen, nothing in flight.
    pub fn new() -> (r: SegmentWatcher)
        ensures
            r.spec_phase() == WatcherPhase::Running,
            r.seen_names() =~= Seq::<Seq<u8>>::empty(),
            r.pending() == 0,
    {
        SegmentWatcher { phase: WatcherPhase::Running, seen: Vec::new(), pending_uploads: 0 }
    }

    /// The watcher's phase, for the loop around it.
    pub fn phase(&self) -> (r: WatcherPhase)
        ensures
            r == self.spec_phase(),
    {
        self.phase
    }

    /// Whether the stream's drain flag is set.
    pub fn is_drained(&self) -> (r: bool)
        ensures
            r == (self.spec_phase() == WatcherPhase::Done),
    {
        match self.phase {
            WatcherPhase::Done => true,
            _ => false,
        }
    }

    /// One discovery pass over the manifest's current entries.
    /// `on_disk[i]` says whether the file named by `entries[i]` exists;
    /// a listed file may not be flushed yet, and such an entry is
    /// recorded as seen without an upload.  Returns the filenames to
    /// upload, each of which counts as in flight until
    /// `settle_uploads`.
    pub fn run_pass(&mut self, entries: &Vec<Vec<u8>>, on_disk: &Vec<bool>) -> (dispatched: Vec<
        Vec<u8>,
    >)
        requires
            old(self).spec_phase() != WatcherPhase::Done,
            on_disk@.len() == entries@.len(),
            old(self).pending() + entries@.len() <= usize::MAX,
        ensures
            final(self).spec_phase() == old(self).spec_phase(),
            pass_rel(
                old(self).seen_names(),
                entries.deep_view(),
                on_disk@,
                dispatched.deep_view(),
                final(self).seen_names(),
            ),
            final(self).pending() == old(self).pending() + dispatched@.len(),
    {
        let ghost pre_seen = self.seen.deep_view();
        let ghost all = entries.deep_view();
        let mut dispatched: Vec<Vec<u8>> = Vec::new();
        let mut k: usize = 0;
        while k < entries.len()
            invariant
                k <= entries@.len(),
                all == entries.deep_view(),
                all.len() == entries@.len(),
                on_disk@.len() == entries@.len(),
                self.phase == old(self).spec_phase(),
                self.pending_uploads == old(self).pending(),
                dispatched@.len() <= k,
                forall|x: Seq<u8>|
                    #[trigger] self.seen.deep_view().contains(x) <==> pre_seen.contains(x)
                        || all.take(k as int).contains(x),
                forall|x: Seq<u8>| #[trigger]
                    dispatched.deep_view().contains(x) ==> all.take(k as int).contains(x)
                        && !pre_seen.contains(x),
                forall|x: Seq<u8>| #[trigger]
                    dispatched.deep_view().contains(x) ==> self.seen.deep_view().contains(x),
                forall|x: Seq<u8>| #[trigger]
                    dispatched.deep_view().contains(x) ==> exists|i: int|
                        0 <= i < k && all[i] == x && on_disk@[i],
                forall|idx: int|
                    0 <= idx < dispatched.deep_view().len() ==> 0 <= first_index(
                        all,
                        #[trigger] dispatched.deep_view()[idx],
                    ) < k,
                forall|a: int, b: int|
                    0 <= a < b < dispatched.deep_view().len() ==> first_index(
                        all,
                        #[trigger] dispatched.deep_view()[a],
                    ) < first_index(all, #[trigger] dispatched.deep_view()[b]),
                distinct_names(dispatched.deep_view()),
                forall|i: int|
                    0 <= i < k && on_disk@[i] && !pre_seen.contains(all[i]) && (forall|j: int|
                        0 <= j < i ==> all[j] != all[i]) ==> dispatched.deep_view().contains(
                        #[trigger] all[i],
                    ),
            decreases entries@.len() - k,
        {
            let ghost seen_before = self.seen.deep_view();
            let ghost disp_before = dispatched.deep_view();
            let e = entries[k].clone();
            proof {
                assert(e@ =~= entries@[k as int]@);
                assert(all[k as int] == entries@[k as int]@);
            }
            let fresh = !contains_entry(&self.seen, &e);
            if fresh {
                if on_disk[k] {
                    dispatched.push(e.clone());
                    proof {
                        assert(dispatched.deep_view() =~~= disp_before.push(all[k as int]));
                    }
                }
                self.seen.push(e);
                proof {
                    assert(self.seen.deep_view() =~~= seen_before.push(all[k as int]));
                }
            }
            proof {
                broadcast use vstd::seq_lib::lemma_seq_contains_after_push;

                let here = all[k as int];
                assert(all.take(k + 1) =~= all.take(k as int).push(here));
                if fresh {
                    assert(!seen_before.contains(here));
                    assert(!all.take(k as int).contains(here));
                    if on_disk[k as int] {
                        assert(!disp_before.contains(here));
                        assert(first_index(all, here) == k) by {
                            assert forall|j: int| 0 <= j < k implies all[j] != here by {
                                if all[j] == here {
                                    assert(all.take(k as int)[j] == here);
                                    assert(all.take(k as int).contains(here));
                                }
                            }
                            lemma_first_index_is(all, here, k as int);
                        }
                        assert forall|idx: int|
                            0 <= idx < dispatched.deep_view().len() implies 0 <= first_index(
                            all,
                            #[trigger] dispatched.deep_view()[idx],
                        ) < k + 1 by {
                            if idx < dispatched.deep_view().len() - 1 {
                                assert(dispatched.deep_view()[idx] == disp_before[idx]);
                            } else {
                                assert(dispatched.deep_view()[idx] == here);
                            }
                        }
                        assert forall|a: int, b: int|
                            0 <= a < b < dispatched.deep_view().len() implies first_index(
                            all,
                            #[trigger] dispatched.deep_view()[a],
                        ) < first_index(all, #[trigger] dispatched.deep_view()[b]) by {
                            if b < dispatched.deep_view().len() - 1 {
                                assert(dispatched.deep_view()[a] == disp_before[a]);
                                assert(dispatched.deep_view()[b] == disp_before[b]);
                            } else {
                                assert(dispatched.deep_view()[a] == disp_before[a]);
                                assert(dispatched.deep_view()[b] == here);
                                assert(first_index(all, disp_before[a]) < k);
                            }
                        }
                        assert(distinct_names(dispatched.deep_view())) by {
                            assert forall|i: int, j: int|
                                0 <= i < j < dispatched.deep_view().len() implies dispatched
                                .deep_view()[i] != dispatched.deep_view()[j] by {
                                if j == dispatched.deep_view().len() - 1 {
                                    if disp_before[i] == here {
                                        assert(disp_before.contains(here));
                                    }
                                }
                            }
                        }
                    }
                } else {
                    assert(seen_before.contains(here));
                }
                assert forall|x: Seq<u8>| #[trigger]
                    dispatched.deep_view().contains(x) implies exists|i: int|
                    0 <= i < k + 1 && all[i] == x && on_disk@[i] by {
                    if disp_before.contains(x) {
                        let w = choose|i: int| 0 <= i < k && all[i] == x && on_disk@[i];
                        assert(0 <= w < k + 1 && all[w] == x && on_disk@[w]);
                    } else {
                        assert(x == here && on_disk@[k as int]);
                        assert(0 <= k < k + 1 && all[k as int] == x && on_disk@[k as int]);
                    }
                }
                assert forall|i: int|
                    0 <= i < k + 1 && on_disk@[i] && !pre_seen.contains(all[i]) && (forall|j: int|
                        0 <= j < i ==> all[j] != all[i]) implies dispatched.deep_view().contains(
                    #[trigger] all[i],
                ) by {
                    if i == k {
                        assert(!all.take(k as int).contains(here)) by {
                            if all.take(k as int).contains(here) {
                                let w = choose|j: int|
                                    0 <= j < k && all.take(k as int)[j] == here;
                                assert(all[w] == all[i]);
                            }
                        }
                        assert(fresh);
                    }
                }
            }
            k = k + 1;
        }
        proof {
            assert(all.take(entries@.len() as int) =~= all);
        }
        self.pending_uploads = self.pending_uploads + dispatched.len();
        dispatched
    }

    /// Await the uploads dispatched so far: afterwards none is in
    /// flight.  The caller performs the actual waiting; this records
    /// its completion.
    pub fn settle_uploads(&mut self)
        ensures
            final(self).spec_phase() == old(self).spec_phase(),
            final(self).seen_names() == old(self).seen_names(),
            final(self).pending() == 0,
    {
        self.pending_uploads = 0;
    }

    /// Observe the shutdown flag at the top of the loop and move the
    /// state machine: a running watcher keeps passing until shutdown,
    /// then owes exactly one draining pass, and only after that pass —
    /// with no upload left in flight — becomes done.
    pub fn poll(&mut self, shutdown: bool) -> (do_pass: bool)
        requires
            old(self).pending() == 0,
        ensures
            final(self).seen_names() == old(self).seen_names(),
            final(self).pending() == 0,
            poll_rel(
                old(self).spec_phase(),
                old(self).pending(),
                shutdown,
                do_pass,
                final(self).spec_phase(),
            ),
    {
        match self.phase {
            WatcherPhase::Running => {
                if shutdown {
                    self.phase = WatcherPhase::Draining;
                }
                true
            },
            WatcherPhase::Draining => {
                if shutdown {
                    self.phase = WatcherPhase::Done;
                    false
                } else {
                    true
                }
            },
            WatcherPhase::Done => false,
        }
    }
}

/// What the manifest parser delivers always satisfies the
/// distinctness hypothesis of `pass_rel`'s completeness direction: a
/// pass over parsed manifest entries dispatches every fresh on-disk
/// segment.
pub proof fn lemma_manifest_entries_are_distinct(s: Seq<u8>)
    ensures
        distinct_names(crate::manifest::manifest_entries(s)),
{
    crate::manifest::lemma_entries_distinct(crate::manifest::raw_lines(s));
}

/// Once a filename is seen, it stays seen and no later pass dispatches
/// it again.  A pass acts the same in every phase, so this holds in
/// particular across the `Running -> Draining` transition.
pub proof fn lemma_seen_is_monotonic(
    pre_seen: Seq<Seq<u8>>,
    entries1: Seq<Seq<u8>>,
    on_disk1: Seq<bool>,
    dispatched1: Seq<Seq<u8>>,
    mid_seen: Seq<Seq<u8>>,
    entries2: Seq<Seq<u8>>,
    on_disk2: Seq<bool>,
    dispatched2: Seq<Seq<u8>>,
    post_seen: Seq<Seq<u8>>,
    name: Seq<u8>,
)
    requires
        pass_rel(pre_seen, entries1, on_disk1, dispatched1, mid_seen),
        pass_rel(mid_seen, entries2, on_disk2, dispatched2, post_seen),
        mid_seen.contains(name),
    ensures
        post_seen.contains(name),
        !dispatched2.contains(name),
{
}

/// A draining pass over a manifest with no new lines dispatches
/// nothing and leaves the seen-set as it was.
pub proof fn lemma_drain_is_idempotent(
    pre_seen: Seq<Seq<u8>>,
    entries: Seq<Seq<u8>>,
    on_disk: Seq<bool>,
    dispatched: Seq<Seq<u8>>,
    post_seen: Seq<Seq<u8>>,
)
    requires
        pass_rel(pre_seen, entries, on_disk, dispatched, post_seen),
        forall|i: int| 0 <= i < entries.len() ==> pre_seen.contains(#[trigger] entries[i]),
    ensures
        dispatched.len() == 0,
        forall|x: Seq<u8>| #[trigger] post_seen.contains(x) <==> pre_seen.contains(x),
{
    if dispatched.len() > 0 {
        let x = dispatched[0];
        assert(dispatched.contains(x));
        let w = choose|j: int| 0 <= j < entries.len() && entries[j] == x;
        assert(pre_seen.contains(x));
    }
    assert forall|x: Seq<u8>| #[trigger] post_seen.contains(x) <==> pre_seen.contains(x) by {
        if post_seen.contains(x) && !pre_seen.contains(x) {
            let w = choose|j: int| 0 <= j < entries.len() && entries[j] == x;
        }
    }
}

/// The drain flag is reported only from `Done`, and the watcher enters
/// `Done` only when no dispatched upload is still in flight: a stop
/// that blocks on the drain flags therefore waits for every in-flight
/// upload.
pub proof fn lemma_drained_only_after_uploads_settled(
    pre_phase: WatcherPhase,
    pre_pending: nat,
    shutdown: bool,
    do_pass: bool,
    post_phase: WatcherPhase,
)
    requires
        poll_rel(pre_phase, pre_pending, shutdown, do_pass, post_phase),
        post_phase == WatcherPhase::Done,
    ensures
        pre_pending == 0,
        pre_phase == WatcherPhase::Draining || pre_phase == WatcherPhase::Done,
{
}

} // verus!
