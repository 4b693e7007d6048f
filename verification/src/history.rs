//! Undo and redo: two bounded stacks of project snapshots.

use vstd::prelude::*;
use std::collections::HashSet;
use crate::midi::project::{Project, ProjectView};

verus! {

broadcast use vstd::std_specs::hash::group_hash_axioms;

/// Most snapshots that either stack keeps; the oldest goes first.
pub const MAX_HISTORY_SIZE: usize = 8;

/// The state of the editor at one moment: what an undo or redo brings back.
#[derive(Debug)]
pub struct StateSnapshot {
    /// A deep copy of the project.
    pub project: Project,
    /// Index of the selected track.
    pub selected_track_index: usize,
    /// Raw identifiers of the selected notes.
    pub selected_notes: HashSet<u64>,
    /// What the user did next, for the status line.
    pub description: String,
}

/// What a snapshot holds, as mathematical values.
pub struct SnapshotView {
    pub project: ProjectView,
    pub selected_track_index: usize,
    pub selected_notes: Set<u64>,
    pub description: Seq<char>,
}

/// The two stacks as sequences, the most recent snapshot last.
pub struct HistoryView {
    pub undo: Seq<SnapshotView>,
    pub redo: Seq<SnapshotView>,
}

/// History of edits: snapshots to go back to, and snapshots to go forward to.
#[derive(Debug)]
pub struct HistoryManager {
    undo_stack: Vec<StateSnapshot>,
    redo_stack: Vec<StateSnapshot>,
}

/// The views of the snapshots of `s`, in order.
pub open spec fn snapshot_views(s: Seq<StateSnapshot>) -> Seq<SnapshotView> {
    s.map_values(|snap: StateSnapshot| snap@)
}

/// `stack` with `snap` on top, without its oldest entries where it would
/// otherwise hold more than `MAX_HISTORY_SIZE`.
pub open spec fn bounded_push(stack: Seq<SnapshotView>, snap: SnapshotView) -> Seq<SnapshotView> {
    let grown = stack.push(snap);
    if grown.len() > MAX_HISTORY_SIZE {
        grown.subrange(grown.len() - MAX_HISTORY_SIZE, grown.len() as int)
    } else {
        grown
    }
}

/// The history after a new edit is recorded: `snap` on the undo stack, the
/// redo stack empty.
pub open spec fn after_push_undo(h: HistoryView, snap: SnapshotView) -> HistoryView {
    HistoryView { undo: bounded_push(h.undo, snap), redo: Seq::empty() }
}

/// The history after `snap` is put on the undo stack during a redo: the
/// redo stack stays.
pub open spec fn after_push_undo_preserve_redo(h: HistoryView, snap: SnapshotView) -> HistoryView {
    HistoryView { undo: bounded_push(h.undo, snap), redo: h.redo }
}

/// The history after `snap` is put on the redo stack.
pub open spec fn after_push_redo(h: HistoryView, snap: SnapshotView) -> HistoryView {
    HistoryView { undo: h.undo, redo: bounded_push(h.redo, snap) }
}

/// The history after the top of the undo stack is taken off.
pub open spec fn after_pop_undo(h: HistoryView) -> HistoryView {
    if h.undo.len() > 0 {
        HistoryView { undo: h.undo.drop_last(), redo: h.redo }
    } else {
        h
    }
}

/// The history after the top of the redo stack is taken off.
pub open spec fn after_pop_redo(h: HistoryView) -> HistoryView {
    if h.redo.len() > 0 {
        HistoryView { undo: h.undo, redo: h.redo.drop_last() }
    } else {
        h
    }
}

/// One undo as the editor performs it: the top of the undo stack comes off
/// and `current` goes onto the redo stack. Nothing changes if there is
/// nothing to undo.
pub open spec fn after_undo(h: HistoryView, current: SnapshotView) -> HistoryView {
    if h.undo.len() > 0 {
        after_push_redo(after_pop_undo(h), current)
    } else {
        h
    }
}

/// One redo as the editor performs it: the top of the redo stack comes off
/// and `current` goes onto the undo stack, the rest of the redo stack
/// staying. Nothing changes if there is nothing to redo.
pub open spec fn after_redo(h: HistoryView, current: SnapshotView) -> HistoryView {
    if h.redo.len() > 0 {
        after_push_undo_preserve_redo(after_pop_redo(h), current)
    } else {
        h
    }
}

/// `n` undos in a row; `current[i]` is the state the editor was in at the `i`th.
pub open spec fn after_undos(h: HistoryView, current: Seq<SnapshotView>, n: nat) -> HistoryView
    decreases n,
{
    if n == 0 {
        h
    } else {
        after_undo(after_undos(h, current, (n - 1) as nat), current[n - 1])
    }
}

/// `n` redos in a row; `current[i]` is the state the editor was in at the `i`th.
pub open spec fn after_redos(h: HistoryView, current: Seq<SnapshotView>, n: nat) -> HistoryView
    decreases n,
{
    if n == 0 {
        h
    } else {
        after_redo(after_redos(h, current, (n - 1) as nat), current[n - 1])
    }
}

/// Both stacks are within the bound.
pub open spec fn within_bound(h: HistoryView) -> bool {
    h.undo.len() <= MAX_HISTORY_SIZE && h.redo.len() <= MAX_HISTORY_SIZE
}

/// A push onto a stack within the bound adds one entry, up to the bound,
/// and the pushed snapshot is on top.
pub proof fn lemma_bounded_push(stack: Seq<SnapshotView>, snap: SnapshotView)
    requires
        stack.len() <= MAX_HISTORY_SIZE,
    ensures
        bounded_push(stack, snap).len() == (if stack.len() < MAX_HISTORY_SIZE {
            stack.len() + 1
        } else {
            MAX_HISTORY_SIZE as nat
        }),
        bounded_push(stack, snap).last() == snap,
        stack.len() < MAX_HISTORY_SIZE ==> bounded_push(stack, snap) == stack.push(snap),
        stack.len() == MAX_HISTORY_SIZE ==> bounded_push(stack, snap) == stack.drop_first().push(snap),
{
    if stack.len() == MAX_HISTORY_SIZE {
        assert(bounded_push(stack, snap) =~= stack.drop_first().push(snap));
    }
}

/// A new edit after an undo discards what could have been redone: after
/// recording an edit, undoing it and recording another edit, the redo
/// stack is empty.
pub proof fn lemma_branching_clears_redo(
    h: HistoryView,
    first: SnapshotView,
    current: SnapshotView,
    second: SnapshotView,
)
    ensures
        after_push_undo(after_push_redo(after_pop_undo(after_push_undo(h, first)), current), second).redo.len() == 0,
        after_push_undo(h, second).redo.len() == 0,
{
}

/// `n` undos take `n` snapshots off the undo stack and put `n` on the redo
/// stack, as long as both fit.
pub proof fn lemma_undos(h: HistoryView, current: Seq<SnapshotView>, n: nat)
    requires
        within_bound(h),
        n <= h.undo.len(),
        h.redo.len() + n <= MAX_HISTORY_SIZE,
        current.len() >= n,
    ensures
        after_undos(h, current, n).undo == h.undo.subrange(0, h.undo.len() - n),
        after_undos(h, current, n).redo.len() == h.redo.len() + n,
    decreases n,
{
    if n > 0 {
        lemma_undos(h, current, (n - 1) as nat);
        let prev = after_undos(h, current, (n - 1) as nat);
        lemma_bounded_push(prev.redo, current[n - 1]);
        assert(prev.undo.drop_last() =~= h.undo.subrange(0, h.undo.len() - n));
    } else {
        assert(h.undo =~= h.undo.subrange(0, h.undo.len() as int));
    }
}

/// `n` redos take `n` snapshots off the redo stack and put `n` on the undo
/// stack, as long as both fit.
pub proof fn lemma_redos(h: HistoryView, current: Seq<SnapshotView>, n: nat)
    requires
        within_bound(h),
        n <= h.redo.len(),
        h.undo.len() + n <= MAX_HISTORY_SIZE,
        current.len() >= n,
    ensures
        after_redos(h, current, n).redo == h.redo.subrange(0, h.redo.len() - n),
        after_redos(h, current, n).undo.len() == h.undo.len() + n,
    decreases n,
{
    if n > 0 {
        lemma_redos(h, current, (n - 1) as nat);
        let prev = after_redos(h, current, (n - 1) as nat);
        lemma_bounded_push(prev.undo, current[n - 1]);
        assert(prev.redo.drop_last() =~= h.redo.subrange(0, h.redo.len() - n));
    } else {
        assert(h.redo =~= h.redo.subrange(0, h.redo.len() as int));
    }
}

/// Undoing `n` edits and then redoing `n` times, each redo keeping the
/// rest of the redo stack, leaves `n` snapshots to undo and none to redo.
pub proof fn lemma_undo_then_redo(
    h: HistoryView,
    undone: Seq<SnapshotView>,
    redone: Seq<SnapshotView>,
    n: nat,
)
    requires
        h.undo.len() == n,
        n <= MAX_HISTORY_SIZE,
        h.redo.len() == 0,
        undone.len() >= n,
        redone.len() >= n,
    ensures
        after_redos(after_undos(h, undone, n), redone, n).undo.len() == n,
        after_redos(after_undos(h, undone, n), redone, n).redo.len() == 0,
{
    lemma_undos(h, undone, n);
    let mid = after_undos(h, undone, n);
    lemma_redos(mid, redone, n);
}

impl View for StateSnapshot {
    type V = SnapshotView;

    open spec fn view(&self) -> SnapshotView {
        SnapshotView {
            project: self.project@,
            selected_track_index: self.selected_track_index,
            selected_notes: self.selected_notes@,
            description: self.description@,
        }
    }
}

impl View for HistoryManager {
    type V = HistoryView;

    closed spec fn view(&self) -> HistoryView {
        HistoryView { undo: snapshot_views(self.undo_stack@), redo: snapshot_views(self.redo_stack@) }
    }
}

/// A copy of a set of raw identifiers, made by `HashSet::clone` of std: the
/// copy holds the same identifiers.
#[verifier::external_body]
fn copy_of_ids(ids: &HashSet<u64>) -> (copy: HashSet<u64>)
    ensures
        copy@ == ids@,
{
    ids.clone()
}

/// Some note of `notes` has the raw identifier `raw`.
pub open spec fn holds_raw_id(notes: Seq<crate::midi::note::Note>, raw: u64) -> bool {
    exists|i: int| 0 <= i < notes.len() && (#[trigger] notes[i]).id.0 == raw
}

/// Puts `snap` on `stack` and drops the oldest entries beyond the bound.
fn push_bounded(stack: &mut Vec<StateSnapshot>, snap: StateSnapshot)
    ensures
        snapshot_views(final(stack)@) == bounded_push(snapshot_views(old(stack)@), snap@),
        final(stack)@.len() <= MAX_HISTORY_SIZE,
{
    stack.push(snap);
    let ghost grown = snapshot_views(stack@);
    assert(grown =~= snapshot_views(old(stack)@).push(snap@));
    while stack.len() > MAX_HISTORY_SIZE
        invariant
            stack@.len() <= grown.len(),
            stack@.len() >= MAX_HISTORY_SIZE || stack@.len() == grown.len(),
            snapshot_views(stack@) == grown.subrange(grown.len() - stack@.len(), grown.len() as int),
        decreases stack@.len(),
    {
        let ghost before = snapshot_views(stack@);
        let _ = stack.remove(0);
        assert(snapshot_views(stack@) =~= before.subrange(1, before.len() as int));
        assert(snapshot_views(stack@) =~= grown.subrange(
            grown.len() - stack@.len(),
            grown.len() as int,
        ));
    }
    assert(snapshot_views(stack@) =~= bounded_push(snapshot_views(old(stack)@), snap@));
}

/// A snapshot can be restored: its selected track exists, or its project
/// has no track at all.
pub open spec fn restorable(snap: SnapshotView) -> bool {
    snap.project.tracks.len() == 0 || snap.selected_track_index < snap.project.tracks.len()
}

/// The selected identifiers of a snapshot that belong to a note of its
/// selected track; none if the selected track does not exist.
pub open spec fn restored_selection(snap: SnapshotView) -> Set<u64> {
    if snap.selected_track_index < snap.project.tracks.len() {
        let notes = snap.project.tracks[snap.selected_track_index as int].notes;
        Set::new(|raw: u64| snap.selected_notes.contains(raw) && holds_raw_id(notes, raw))
    } else {
        Set::empty()
    }
}

impl StateSnapshot {
    /// The selected track exists, or the project has no track at all.
    pub open spec fn spec_is_valid(&self) -> bool {
        restorable(self@)
    }

    /// The selected identifiers that belong to a note of the selected track;
    /// none if the selected track does not exist.
    pub open spec fn spec_valid_selected_notes(&self) -> Set<u64> {
        restored_selection(self@)
    }

    /// Takes a snapshot: a deep copy of `project`, with the selection and a
    /// description.
    pub fn new(
        project: &Project,
        selected_track_index: usize,
        selected_notes: &HashSet<u64>,
        description: &str,
    ) -> (snap: Self)
        ensures
            snap@ == (SnapshotView {
                project: project@,
                selected_track_index,
                selected_notes: selected_notes@,
                description: description@,
            }),
    {
        StateSnapshot {
            project: project.clone(),
            selected_track_index,
            selected_notes: copy_of_ids(selected_notes),
            description: description.to_owned(),
        }
    }

    /// Whether the snapshot can be restored: its selected track exists, or
    /// its project has no track.
    #[verifier::when_used_as_spec(spec_is_valid)]
    pub fn is_valid(&self) -> (valid: bool)
        ensures
            valid == self.spec_is_valid(),
    {
        let count = self.project.track_count();
        !(count > 0 && self.selected_track_index >= count)
    }

    /// The selection without the identifiers that no note of the selected
    /// track has.
    pub fn valid_selected_notes(&self) -> (kept: HashSet<u64>)
        ensures
            kept@ == self.spec_valid_selected_notes(),
    {
        let mut kept: HashSet<u64> = HashSet::new();
        match self.project.track_at(self.selected_track_index) {
            Some(track) => {
                let notes = track.notes();
                let mut i: usize = 0;
                while i < notes.len()
                    invariant
                        i <= notes@.len(),
                        kept@ == Set::new(
                            |raw: u64|
                                self.selected_notes@.contains(raw) && holds_raw_id(
                                    notes@.subrange(0, i as int),
                                    raw,
                                ),
                        ),
                    decreases notes@.len() - i,
                {
                    let raw: u64 = notes[i].id.as_u64();
                    let ghost before = kept@;
                    if self.selected_notes.contains(&raw) {
                        kept.insert(raw);
                    }
                    proof {
                        let front = notes@.subrange(0, i as int);
                        let next = notes@.subrange(0, i + 1);
                        assert(next[i as int].id.0 == raw);
                        assert forall|r: u64| holds_raw_id(next, r) <==> (holds_raw_id(front, r)
                            || r == raw) by {
                            if holds_raw_id(front, r) {
                                let w = choose|k: int| 0 <= k < front.len() && (#[trigger] front[k]).id.0 == r;
                                assert(next[w].id.0 == r);
                            }
                            if holds_raw_id(next, r) && r != raw {
                                let w = choose|k: int| 0 <= k < next.len() && (#[trigger] next[k]).id.0 == r;
                                assert(front[w].id.0 == r);
                            }
                        }
                        assert(kept@ =~= Set::new(
                            |r: u64| self.selected_notes@.contains(r) && holds_raw_id(next, r),
                        ));
                    }
                    i += 1;
                }
                proof {
                    assert(notes@.subrange(0, i as int) =~= notes@);
                    assert(self.project@.tracks[self.selected_track_index as int] == track@);
                    assert(kept@ =~= self.spec_valid_selected_notes());
                }
            },
            None => {
                assert(kept@ =~= self.spec_valid_selected_notes());
            },
        }
        kept
    }
}

impl HistoryManager {
    /// Creates an empty history.
    pub fn new() -> (history: Self)
        ensures
            history@.undo.len() == 0,
            history@.redo.len() == 0,
    {
        HistoryManager {
            undo_stack: Vec::with_capacity(MAX_HISTORY_SIZE),
            redo_stack: Vec::with_capacity(MAX_HISTORY_SIZE),
        }
    }

    /// Records `snap` before a new edit: it goes on the undo stack, and
    /// everything that could have been redone is discarded.
    pub fn push_undo(&mut self, snap: StateSnapshot)
        ensures
            final(self)@ == after_push_undo(old(self)@, snap@),
            final(self)@.undo.len() <= MAX_HISTORY_SIZE,
    {
        push_bounded(&mut self.undo_stack, snap);
        self.redo_stack.clear();
        assert(self@.redo =~= Seq::<SnapshotView>::empty());
    }

    /// Puts `snap` on the undo stack and leaves the redo stack alone: for
    /// use while redoing.
    pub fn push_undo_preserve_redo(&mut self, snap: StateSnapshot)
        ensures
            final(self)@ == after_push_undo_preserve_redo(old(self)@, snap@),
            final(self)@.undo.len() <= MAX_HISTORY_SIZE,
    {
        push_bounded(&mut self.undo_stack, snap);
    }

    /// Takes the most recent snapshot off the undo stack.
    pub fn pop_undo(&mut self) -> (snap: Option<StateSnapshot>)
        ensures
            snap.is_some() == (old(self)@.undo.len() > 0),
            snap matches Some(s) ==> s@ == old(self)@.undo.last(),
            final(self)@ == after_pop_undo(old(self)@),
    {
        let snap = self.undo_stack.pop();
        assert(self@.undo =~= after_pop_undo(old(self)@).undo);
        snap
    }

    /// Puts `snap` on the redo stack.
    pub fn push_redo(&mut self, snap: StateSnapshot)
        ensures
            final(self)@ == after_push_redo(old(self)@, snap@),
            final(self)@.redo.len() <= MAX_HISTORY_SIZE,
    {
        push_bounded(&mut self.redo_stack, snap);
    }

    /// Takes the most recent snapshot off the redo stack.
    pub fn pop_redo(&mut self) -> (snap: Option<StateSnapshot>)
        ensures
            snap.is_some() == (old(self)@.redo.len() > 0),
            snap matches Some(s) ==> s@ == old(self)@.redo.last(),
            final(self)@ == after_pop_redo(old(self)@),
    {
        let snap = self.redo_stack.pop();
        assert(self@.redo =~= after_pop_redo(old(self)@).redo);
        snap
    }

    /// Empties both stacks.
    pub fn clear(&mut self)
        ensures
            final(self)@.undo.len() == 0,
            final(self)@.redo.len() == 0,
    {
        self.undo_stack.clear();
        self.redo_stack.clear();
    }

    /// Whether there is a snapshot to undo to.
    pub fn can_undo(&self) -> (some: bool)
        ensures
            some == (self@.undo.len() > 0),
    {
        self.undo_stack.len() > 0
    }

    /// Whether there is a snapshot to redo to.
    pub fn can_redo(&self) -> (some: bool)
        ensures
            some == (self@.redo.len() > 0),
    {
        self.redo_stack.len() > 0
    }

    /// Number of snapshots on the undo stack.
    pub fn undo_count(&self) -> (count: usize)
        ensures
            count == self@.undo.len(),
    {
        self.undo_stack.len()
    }

    /// Number of snapshots on the redo stack.
    pub fn redo_count(&self) -> (count: usize)
        ensures
            count == self@.redo.len(),
    {
        self.redo_stack.len()
    }
}

} // verus!
