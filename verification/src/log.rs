//! The log store: an append-only ordered sequence of received entries plus a
//! wraparound navigation cursor (a selected index, a remembered last
//! selection, and a viewport scroll offset).

use vstd::prelude::*;

use crate::listener::SourceAddr;

verus! {

/// A decoded, timestamped, source-tagged record. Immutable once created.
pub struct LogEntry {
    /// Milliseconds of local wall-clock time at which the entry was created.
    pub timestamp: i64,
    pub packet: rosc::OscPacket,
    pub source: SourceAddr,
}

impl LogEntry {
    /// Relies on rosc::OscPacket's Debug implementation for the one-line
    /// textual rendering of an entry in the list pane.
    #[verifier::external_body]
    pub fn to_list_item(&self, _i: usize) -> String {
        format!("{:?}", self.packet)
    }
}

/// The mathematical model of a `StatefulLog`.
#[verifier::ext_equal]
pub ghost struct LogView {
    pub items: Seq<LogEntry>,
    pub selected: Option<int>,
    pub last_selected: Option<int>,
    pub offset: int,
}

impl LogView {
    /// The navigation invariant: a cursor, when set, points inside the log.
    pub open spec fn wf(self) -> bool {
        &&& (self.selected matches Some(i) ==> 0 <= i < self.items.len())
        &&& (self.last_selected matches Some(j) ==> 0 <= j < self.items.len())
        &&& self.offset >= 0
    }

    /// Appending grows the log by one entry at the end and never touches the
    /// cursor: the selection is stable under growth, even from empty.
    pub open spec fn append_spec(self, entry: LogEntry) -> LogView {
        LogView { items: self.items.push(entry), ..self }
    }

    /// One circular forward step. An empty log is left untouched; from no
    /// selection the cursor resumes at the remembered selection, or at the
    /// first entry; from the last entry it wraps around to the first.
    pub open spec fn next_spec(self) -> LogView {
        if self.items.len() == 0 {
            self
        } else {
            let i: int = match self.selected {
                Some(i) => if i == self.items.len() - 1 {
                    0
                } else {
                    i + 1
                },
                None => match self.last_selected {
                    Some(j) => j,
                    None => 0,
                },
            };
            LogView { selected: Some(i), ..self }
        }
    }

    /// One circular backward step, symmetric to `next_spec`: from the first
    /// entry the cursor wraps around to the last.
    pub open spec fn previous_spec(self) -> LogView {
        if self.items.len() == 0 {
            self
        } else {
            let i: int = match self.selected {
                Some(i) => if i == 0 {
                    self.items.len() - 1
                } else {
                    i - 1
                },
                None => match self.last_selected {
                    Some(j) => j,
                    None => 0,
                },
            };
            LogView { selected: Some(i), ..self }
        }
    }

    /// Clears the selection. A present selection is remembered for later
    /// restoration; clearing with nothing selected forgets nothing. The
    /// scroll offset is preserved.
    pub open spec fn unselect_spec(self) -> LogView {
        LogView {
            selected: None,
            last_selected: if self.selected is Some {
                self.selected
            } else {
                self.last_selected
            },
            ..self
        }
    }

    /// Jumps directly to the first entry; an empty log is left untouched.
    pub open spec fn select_first_spec(self) -> LogView {
        if self.items.len() == 0 {
            self
        } else {
            LogView { selected: Some(0), ..self }
        }
    }

    /// Jumps directly to the last entry; an empty log is left untouched.
    pub open spec fn select_last_spec(self) -> LogView {
        if self.items.len() == 0 {
            self
        } else {
            LogView { selected: Some(self.items.len() - 1), ..self }
        }
    }

    /// Appends a whole sequence of entries, one `append_spec` at a time.
    pub open spec fn append_all_spec(self, entries: Seq<LogEntry>) -> LogView
        decreases entries.len(),
    {
        if entries.len() == 0 {
            self
        } else {
            self.append_spec(entries[0]).append_all_spec(entries.drop_first())
        }
    }
}

/// Law: any sequence of appends grows the log by exactly the appended
/// entries, in call order — no reordering, no drops — and leaves the whole
/// cursor state untouched; well-formedness is preserved.
pub proof fn lemma_append_order(v: LogView, entries: Seq<LogEntry>)
    ensures
        v.append_all_spec(entries).items == v.items + entries,
        v.append_all_spec(entries).selected == v.selected,
        v.append_all_spec(entries).last_selected == v.last_selected,
        v.append_all_spec(entries).offset == v.offset,
        v.wf() ==> v.append_all_spec(entries).wf(),
    decreases entries.len(),
{
    if entries.len() == 0 {
        assert(v.items + entries =~= v.items);
    } else {
        let v1 = v.append_spec(entries[0]);
        lemma_append_order(v1, entries.drop_first());
        assert(v1.items + entries.drop_first() =~= v.items + entries);
    }
}

/// Law: navigation is circular. From `Selected(i)` a forward step lands on
/// `Selected((i + 1) % len)` and a backward step on
/// `Selected((i - 1 + len) % len)`: stepping past the last entry wraps
/// around to the first, and past the first back to the last.
pub proof fn lemma_wraparound(v: LogView, i: int)
    requires
        v.wf(),
        v.selected == Some(i),
    ensures
        v.next_spec().selected == Some((i + 1) % (v.items.len() as int)),
        v.previous_spec().selected == Some((i - 1 + v.items.len()) % (v.items.len() as int)),
{
    let n = v.items.len() as int;
    if i == n - 1 {
        assert((i + 1) % n == 0) by (nonlinear_arith)
            requires i + 1 == n && n > 0;
    } else {
        assert((i + 1) % n == i + 1) by (nonlinear_arith)
            requires 0 <= i + 1 < n;
    }
    if i == 0 {
        assert((i - 1 + n) % n == n - 1) by (nonlinear_arith)
            requires i == 0 && n > 0;
    } else {
        assert((i - 1 + n) % n == i - 1 + n - n) by (nonlinear_arith)
            requires 0 < i < n;
    }
}

/// Law: after clearing the selection, the next navigation step resumes at
/// the remembered selection — the selection just cleared, or failing that the
/// one remembered before — not at the first entry.
pub proof fn lemma_unselect_then_next_resumes(v: LogView)
    requires
        v.wf(),
        v.items.len() > 0,
        v.selected is Some || v.last_selected is Some,
    ensures
        v.unselect_spec().next_spec().selected == (if v.selected is Some {
            v.selected
        } else {
            v.last_selected
        }),
        v.unselect_spec().previous_spec().selected == (if v.selected is Some {
            v.selected
        } else {
            v.last_selected
        }),
{
}

/// Law: clearing the selection is idempotent — a second `unselect` changes
/// nothing at all, the remembered selection included.
pub proof fn lemma_unselect_idempotent(v: LogView)
    ensures
        v.unselect_spec().unselect_spec() == v.unselect_spec(),
{
}

/// Law: on an empty log the state is necessarily unselected, and every
/// navigation transition is a no-op.
pub proof fn lemma_empty_log_navigation(v: LogView)
    requires
        v.wf(),
        v.items.len() == 0,
    ensures
        v.selected is None,
        v.next_spec() == v,
        v.previous_spec() == v,
        v.select_first_spec() == v,
        v.select_last_spec() == v,
{
}

/// The append-only entry log with its navigation cursor. Owned exclusively
/// by the interactive loop; entries are kept for the process lifetime.
pub struct StatefulLog {
    pub items: Vec<LogEntry>,
    pub selected: Option<usize>,
    pub last_selected: Option<usize>,
    pub offset: usize,
}

impl View for StatefulLog {
    type V = LogView;

    open spec fn view(&self) -> LogView {
        LogView {
            items: self.items@,
            selected: match self.selected {
                Some(i) => Some(i as int),
                None => None,
            },
            last_selected: match self.last_selected {
                Some(j) => Some(j as int),
                None => None,
            },
            offset: self.offset as int,
        }
    }
}

impl StatefulLog {
    pub open spec fn wf(&self) -> bool {
        self@.wf()
    }

    /// An empty log with no selection and no remembered selection.
    pub fn new() -> (r: StatefulLog)
        ensures
            r@.items == Seq::<LogEntry>::empty(),
            r@.selected is None,
            r@.last_selected is None,
            r@.offset == 0,
            r.wf(),
    {
        StatefulLog { items: Vec::new(), selected: None, last_selected: None, offset: 0 }
    }

    /// Appends one entry at the end of the log; the cursor does not move.
    pub fn append(&mut self, entry: LogEntry)
        requires
            old(self).wf(),
        ensures
            final(self).wf(),
            final(self)@ == old(self)@.append_spec(entry),
    {
        self.items.push(entry);
    }

    /// Moves the selection one entry forward, wrapping around at the end;
    /// see `LogView::next_spec` for the exact transition.
    pub fn next(&mut self)
        requires
            old(self).wf(),
        ensures
            final(self).wf(),
            final(self)@ == old(self)@.next_spec(),
    {
        if self.items.len() > 0 {
            let i: usize = match self.selected {
                Some(i) => if i >= self.items.len() - 1 {
                    0
                } else {
                    i + 1
                },
                None => match self.last_selected {
                    Some(j) => j,
                    None => 0,
                },
            };
            self.selected = Some(i);
        }
    }

    /// Moves the selection one entry backward, wrapping around at the start;
    /// see `LogView::previous_spec` for the exact transition.
    pub fn previous(&mut self)
        requires
            old(self).wf(),
        ensures
            final(self).wf(),
            final(self)@ == old(self)@.previous_spec(),
    {
        if self.items.len() > 0 {
            let i: usize = match self.selected {
                Some(i) => if i == 0 {
                    self.items.len() - 1
                } else {
                    i - 1
                },
                None => match self.last_selected {
                    Some(j) => j,
                    None => 0,
                },
            };
            self.selected = Some(i);
        }
    }

    /// Clears the selection, remembering a present one; the scroll offset is
    /// preserved across the transition.
    pub fn unselect(&mut self)
        requires
            old(self).wf(),
        ensures
            final(self).wf(),
            final(self)@ == old(self)@.unselect_spec(),
    {
        if self.selected.is_some() {
            self.last_selected = self.selected;
        }
        self.selected = None;
    }

    /// Jumps the selection to the first entry, if there is one.
    pub fn select_first(&mut self)
        requires
            old(self).wf(),
        ensures
            final(self).wf(),
            final(self)@ == old(self)@.select_first_spec(),
    {
        if self.items.len() > 0 {
            self.selected = Some(0);
        }
    }

    /// Jumps the selection to the last entry, if there is one.
    pub fn select_last(&mut self)
        requires
            old(self).wf(),
        ensures
            final(self).wf(),
            final(self)@ == old(self)@.select_last_spec(),
    {
        if self.items.len() > 0 {
            self.selected = Some(self.items.len() - 1);
        }
    }

    /// How many entries the log holds.
    pub fn len(&self) -> (r: usize)
        ensures
            r == self@.items.len(),
    {
        self.items.len()
    }
}

impl Default for StatefulLog {
    fn default() -> (r: StatefulLog)
        ensures
            r@.items == Seq::<LogEntry>::empty(),
            r@.selected is None,
            r@.last_selected is None,
            r@.offset == 0,
            r.wf(),
    {
        StatefulLog::new()
    }
}

} // verus!
