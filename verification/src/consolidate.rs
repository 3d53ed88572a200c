//! Consolidation of a change feed into a final per-entity state.
//!
//! A delta sync yields an append-only log of create / update / delete /
//! read-flag events, possibly many for the same entity. The caller needs one
//! verdict per entity, and order is significant: a later event supersedes an
//! earlier one. A delete supersedes everything before it; an entity first
//! seen as created stays "created" even after later updates, since a
//! creation-then-update within one unconfirmed sync horizon is still a
//! net-new entity from the caller's perspective; read-flag changes are
//! tracked separately, last value wins.

use vstd::prelude::*;

verus! {

/// One entry of a change feed.
#[derive(Debug, Clone, PartialEq, Eq)]
pub enum ChangeEvent {
    /// The entity was created.
    Create { id: String },
    /// The entity was updated.
    Update { id: String },
    /// The entity was deleted.
    Delete { id: String },
    /// The entity's read flag changed.
    ReadFlagChange { id: String, is_read: bool },
}

/// How an entity first entered the feed: as a creation or as an update.
#[derive(Debug, Clone, Copy, PartialEq, Eq, Structural)]
pub enum EntryKind {
    Created,
    Updated,
}

/// The verdict on one entity after consolidation.
#[derive(Debug, Clone, Copy, PartialEq, Eq, Structural)]
pub enum EntryFate {
    /// Net-new: hydrate and create locally.
    Created,
    /// Existing entity with changes: hydrate and update locally.
    Updated,
    /// Gone from the server: only the bare id is reported.
    Deleted,
}

/// The running state kept for one entity while the feed is consolidated.
#[derive(Debug, Clone, Copy, PartialEq, Eq, Structural)]
pub struct EntryState {
    /// The kind of the first create/update event seen for the entity.
    pub first_kind: Option<EntryKind>,
    /// Whether the latest create/update/delete event was a delete.
    pub deleted: bool,
}

/// The id a change event concerns.
pub open spec fn spec_event_id(ev: ChangeEvent) -> Seq<char> {
    match ev {
        ChangeEvent::Create { id } => id@,
        ChangeEvent::Update { id } => id@,
        ChangeEvent::Delete { id } => id@,
        ChangeEvent::ReadFlagChange { id, .. } => id@,
    }
}

/// The state of an entity no event has touched yet.
pub open spec fn spec_blank_entry() -> EntryState {
    EntryState { first_kind: None, deleted: false }
}

/// The state of one entity after one more event for it.
pub open spec fn spec_entry_after(cur: EntryState, ev: ChangeEvent) -> EntryState {
    match ev {
        ChangeEvent::Create { .. } => EntryState {
            first_kind: match cur.first_kind {
                Some(k) => Some(k),
                None => Some(EntryKind::Created),
            },
            deleted: false,
        },
        ChangeEvent::Update { .. } => EntryState {
            first_kind: match cur.first_kind {
                Some(k) => Some(k),
                None => Some(EntryKind::Updated),
            },
            deleted: false,
        },
        ChangeEvent::Delete { .. } => EntryState { first_kind: cur.first_kind, deleted: true },
        ChangeEvent::ReadFlagChange { .. } => cur,
    }
}

/// The per-entity states after one more event of the feed.
pub open spec fn spec_apply_to_states(
    m: Map<Seq<char>, EntryState>,
    ev: ChangeEvent,
) -> Map<Seq<char>, EntryState> {
    match ev {
        ChangeEvent::ReadFlagChange { .. } => m,
        _ => {
            let id = spec_event_id(ev);
            let cur = if m.dom().contains(id) {
                m[id]
            } else {
                spec_blank_entry()
            };
            m.insert(id, spec_entry_after(cur, ev))
        },
    }
}

/// The per-entity read flags after one more event of the feed.
pub open spec fn spec_apply_to_flags(m: Map<Seq<char>, bool>, ev: ChangeEvent) -> Map<
    Seq<char>,
    bool,
> {
    match ev {
        ChangeEvent::ReadFlagChange { id, is_read } => m.insert(id@, is_read),
        _ => m,
    }
}

/// The per-entity states after a whole feed, first event applied first.
pub open spec fn spec_states_after(events: Seq<ChangeEvent>) -> Map<Seq<char>, EntryState>
    decreases events.len(),
{
    if events.len() == 0 {
        Map::empty()
    } else {
        spec_apply_to_states(spec_states_after(events.drop_last()), events.last())
    }
}

/// The per-entity read flags after a whole feed, first event applied first.
pub open spec fn spec_flags_after(events: Seq<ChangeEvent>) -> Map<Seq<char>, bool>
    decreases events.len(),
{
    if events.len() == 0 {
        Map::empty()
    } else {
        spec_apply_to_flags(spec_flags_after(events.drop_last()), events.last())
    }
}

/// The verdict a consolidated state yields: a delete supersedes everything
/// before it; otherwise the first-seen kind decides.
pub open spec fn spec_fate(st: EntryState) -> EntryFate {
    if st.deleted {
        EntryFate::Deleted
    } else if st.first_kind == Some(EntryKind::Created) {
        EntryFate::Created
    } else {
        EntryFate::Updated
    }
}

/// The running per-entity state of one consolidation, one slot per entity.
#[derive(Debug, Clone, PartialEq, Eq)]
pub struct IdEntry {
    /// The entity's id.
    pub id: String,
    /// The kind of the first create/update event seen for it.
    pub first_kind: Option<EntryKind>,
    /// Whether its latest create/update/delete event was a delete.
    pub deleted: bool,
}

/// The last read flag reported for one entity.
#[derive(Debug, Clone, PartialEq, Eq)]
pub struct IdFlag {
    /// The entity's id.
    pub id: String,
    /// The flag's latest value.
    pub is_read: bool,
}

/// Whether a sequence of entries holds the given id.
pub open spec fn spec_has_id(s: Seq<IdEntry>, k: Seq<char>) -> bool {
    exists|i: int| 0 <= i < s.len() && s[i].id@ == k
}

/// The state stored for an id (meaningful only when the id is present and
/// ids are distinct).
pub open spec fn spec_entry_at(s: Seq<IdEntry>, k: Seq<char>) -> EntryState {
    let i = choose|i: int| 0 <= i < s.len() && s[i].id@ == k;
    EntryState { first_kind: s[i].first_kind, deleted: s[i].deleted }
}

/// Whether a sequence of flag slots holds the given id.
pub open spec fn spec_has_flag(s: Seq<IdFlag>, k: Seq<char>) -> bool {
    exists|i: int| 0 <= i < s.len() && s[i].id@ == k
}

/// The flag stored for an id (meaningful only when the id is present and ids
/// are distinct).
pub open spec fn spec_flag_at(s: Seq<IdFlag>, k: Seq<char>) -> bool {
    let i = choose|i: int| 0 <= i < s.len() && s[i].id@ == k;
    s[i].is_read
}

/// An in-progress consolidation: one state slot per entity seen so far, one
/// flag slot per entity whose read flag changed.
#[derive(Debug, Clone, PartialEq, Eq)]
pub struct ChangeConsolidation {
    /// Per-entity create/update/delete state, ids distinct.
    pub entries: Vec<IdEntry>,
    /// Per-entity latest read flag, ids distinct.
    pub flags: Vec<IdFlag>,
}

impl ChangeConsolidation {
    /// Ids are distinct in both slot lists.
    pub open spec fn wf(self) -> bool {
        &&& forall|i: int, j: int|
            0 <= i < j < self.entries@.len() ==> self.entries@[i].id@ != self.entries@[j].id@
        &&& forall|i: int, j: int|
            0 <= i < j < self.flags@.len() ==> self.flags@[i].id@ != self.flags@[j].id@
    }

    /// The per-entity states this consolidation has reached.
    pub open spec fn states_map(self) -> Map<Seq<char>, EntryState> {
        Map::new(
            |k: Seq<char>| spec_has_id(self.entries@, k),
            |k: Seq<char>| spec_entry_at(self.entries@, k),
        )
    }

    /// The per-entity read flags this consolidation has reached.
    pub open spec fn flags_map(self) -> Map<Seq<char>, bool> {
        Map::new(
            |k: Seq<char>| spec_has_flag(self.flags@, k),
            |k: Seq<char>| spec_flag_at(self.flags@, k),
        )
    }

    /// Starts a consolidation with no entities on record.
    pub fn new() -> (r: ChangeConsolidation)
        ensures
            r.wf(),
            r.states_map() == Map::<Seq<char>, EntryState>::empty(),
            r.flags_map() == Map::<Seq<char>, bool>::empty(),
            r.entries@.len() == 0,
            r.flags@.len() == 0,
    {
        let r = ChangeConsolidation { entries: Vec::new(), flags: Vec::new() };
        proof {
            assert(r.states_map() =~= Map::<Seq<char>, EntryState>::empty());
            assert(r.flags_map() =~= Map::<Seq<char>, bool>::empty());
        }
        r
    }

    /// Applies one event of the feed: a later event for an entity supersedes
    /// an earlier one, as `spec_apply_to_states` and `spec_apply_to_flags`
    /// say.
    pub fn apply(&mut self, event: ChangeEvent)
        requires
            old(self).wf(),
        ensures
            final (self).wf(),
            final (self).states_map() == spec_apply_to_states(old(self).states_map(), event),
            final (self).flags_map() == spec_apply_to_flags(old(self).flags_map(), event),
    {
        match &event {
            ChangeEvent::ReadFlagChange { id, is_read } => {
                let id = id.clone();
                let is_read = *is_read;
                self.apply_flag(id, is_read);
            },
            _ => {
                self.apply_entry(event);
            },
        }
    }

    /// Updates the state slot for one create/update/delete event.
    fn apply_entry(&mut self, event: ChangeEvent)
        requires
            old(self).wf(),
            !(event matches ChangeEvent::ReadFlagChange { .. }),
        ensures
            final (self).wf(),
            final (self).states_map() == spec_apply_to_states(old(self).states_map(), event),
            final (self).flags_map() == old(self).flags_map(),
    {
        let id = event_id_ref(&event).clone();
        proof {
            assert(id@ == spec_event_id(event));
        }
        let ghost before = self.entries@;
        let mut i: usize = 0;
        let n = self.entries.len();
        while i < n
            invariant
                n == self.entries@.len(),
                i <= n,
                forall|j: int| 0 <= j < i ==> self.entries@[j].id@ != id@,
                *self == *old(self),
                old(self).wf(),
                !(event matches ChangeEvent::ReadFlagChange { .. }),
                id@ == spec_event_id(event),
            decreases n - i,
        {
            if self.entries[i].id == id {
                let cur = EntryState {
                    first_kind: self.entries[i].first_kind,
                    deleted: self.entries[i].deleted,
                };
                let next = entry_after(cur, &event);
                let slot = IdEntry {
                    id,
                    first_kind: next.first_kind,
                    deleted: next.deleted,
                };
                self.entries[i] = slot;
                proof {
                    lemma_entry_at_key(old(self).entries@, id@, i as int);
                    assert forall|j: int|
                        0 <= j < self.entries@.len() implies #[trigger] self.entries@[j].id@
                        == old(self).entries@[j].id@ by {
                        if j != i {
                            assert(self.entries@[j] == old(self).entries@[j]);
                        }
                    }
                    assert forall|k: Seq<char>| spec_has_id(self.entries@, k)
                        <==> spec_has_id(old(self).entries@, k) by {
                        if spec_has_id(self.entries@, k) {
                            let w = choose|w: int|
                                0 <= w < self.entries@.len() && self.entries@[w].id@ == k;
                            assert(old(self).entries@[w].id@ == k);
                        }
                        if spec_has_id(old(self).entries@, k) {
                            let w = choose|w: int|
                                0 <= w < old(self).entries@.len() && old(self).entries@[w].id@
                                    == k;
                            assert(self.entries@[w].id@ == k);
                        }
                    }
                    assert forall|k: Seq<char>|
                        spec_has_id(self.entries@, k) && k != id@ implies spec_entry_at(
                        self.entries@,
                        k,
                    ) == spec_entry_at(old(self).entries@, k) by {
                        let w = choose|w: int|
                            0 <= w < self.entries@.len() && self.entries@[w].id@ == k;
                        assert(w != i);
                        lemma_entry_at_key(self.entries@, k, w);
                        lemma_entry_at_key(old(self).entries@, k, w);
                    }
                    lemma_entry_at_key(self.entries@, id@, i as int);
                    assert(self.states_map() =~= spec_apply_to_states(
                        old(self).states_map(),
                        event,
                    ));
                    assert(self.flags_map() =~= old(self).flags_map());
                }
                return ;
            }
            i = i + 1;
        }
        let next = entry_after(
            EntryState { first_kind: None, deleted: false },
            &event,
        );
        let slot = IdEntry { id, first_kind: next.first_kind, deleted: next.deleted };
        self.entries.push(slot);
        proof {
            assert(!spec_has_id(before, id@));
            assert forall|k: Seq<char>|
                spec_has_id(self.entries@, k) && k != id@ implies spec_has_id(before, k)
                && spec_entry_at(self.entries@, k) == spec_entry_at(before, k) by {
                let w = choose|w: int| 0 <= w < self.entries@.len() && self.entries@[w].id@ == k;
                assert(w < before.len());
                assert(before[w].id@ == k);
                lemma_entry_at_key(self.entries@, k, w);
                lemma_entry_at_key(before, k, w);
            }
            assert forall|k: Seq<char>|
                spec_has_id(before, k) implies spec_has_id(self.entries@, k) by {
                let w = choose|w: int| 0 <= w < before.len() && before[w].id@ == k;
                assert(self.entries@[w].id@ == k);
            }
            lemma_entry_at_key(self.entries@, id@, before.len() as int);
            assert(self.states_map() =~= spec_apply_to_states(old(self).states_map(), event));
            assert(self.flags_map() =~= old(self).flags_map());
        }
    }

    /// Updates the flag slot for one read-flag event, last value winning.
    fn apply_flag(&mut self, id: String, is_read: bool)
        requires
            old(self).wf(),
        ensures
            final (self).wf(),
            final (self).states_map() == old(self).states_map(),
            final (self).flags_map() == old(self).flags_map().insert(id@, is_read),
    {
        let ghost before = self.flags@;
        let mut i: usize = 0;
        let n = self.flags.len();
        while i < n
            invariant
                n == self.flags@.len(),
                i <= n,
                forall|j: int| 0 <= j < i ==> self.flags@[j].id@ != id@,
                *self == *old(self),
                old(self).wf(),
            decreases n - i,
        {
            if self.flags[i].id == id {
                let slot = IdFlag { id, is_read };
                self.flags[i] = slot;
                proof {
                    assert forall|j: int|
                        0 <= j < self.flags@.len() implies #[trigger] self.flags@[j].id@ == old(
                        self,
                    ).flags@[j].id@ by {
                        if j != i {
                            assert(self.flags@[j] == old(self).flags@[j]);
                        }
                    }
                    assert forall|k: Seq<char>| spec_has_flag(self.flags@, k)
                        <==> spec_has_flag(old(self).flags@, k) by {
                        if spec_has_flag(self.flags@, k) {
                            let w = choose|w: int|
                                0 <= w < self.flags@.len() && self.flags@[w].id@ == k;
                            assert(old(self).flags@[w].id@ == k);
                        }
                        if spec_has_flag(old(self).flags@, k) {
                            let w = choose|w: int|
                                0 <= w < old(self).flags@.len() && old(self).flags@[w].id@ == k;
                            assert(self.flags@[w].id@ == k);
                        }
                    }
                    assert forall|k: Seq<char>|
                        spec_has_flag(self.flags@, k) && k != id@ implies spec_flag_at(
                        self.flags@,
                        k,
                    ) == spec_flag_at(old(self).flags@, k) by {
                        let w = choose|w: int|
                            0 <= w < self.flags@.len() && self.flags@[w].id@ == k;
                        assert(w != i);
                        lemma_flag_at_key(self.flags@, k, w);
                        lemma_flag_at_key(old(self).flags@, k, w);
                    }
                    lemma_flag_at_key(self.flags@, id@, i as int);
                    assert(self.flags_map() =~= old(self).flags_map().insert(id@, is_read));
                    assert(self.states_map() =~= old(self).states_map());
                }
                return ;
            }
            i = i + 1;
        }
        let slot = IdFlag { id, is_read };
        self.flags.push(slot);
        proof {
            assert(!spec_has_flag(before, id@));
            assert forall|k: Seq<char>|
                spec_has_flag(self.flags@, k) && k != id@ implies spec_has_flag(before, k)
                && spec_flag_at(self.flags@, k) == spec_flag_at(before, k) by {
                let w = choose|w: int| 0 <= w < self.flags@.len() && self.flags@[w].id@ == k;
                assert(w < before.len());
                assert(before[w].id@ == k);
                lemma_flag_at_key(self.flags@, k, w);
                lemma_flag_at_key(before, k, w);
            }
            assert forall|k: Seq<char>|
                spec_has_flag(before, k) implies spec_has_flag(self.flags@, k) by {
                let w = choose|w: int| 0 <= w < before.len() && before[w].id@ == k;
                assert(self.flags@[w].id@ == k);
            }
            lemma_flag_at_key(self.flags@, id@, before.len() as int);
            assert(self.flags_map() =~= old(self).flags_map().insert(id@, is_read));
            assert(self.states_map() =~= old(self).states_map());
        }
    }
}

impl ChangeConsolidation {
    /// Consolidates a whole feed, first event applied first.
    pub fn consolidate_events(events: Vec<ChangeEvent>) -> (r: ChangeConsolidation)
        ensures
            r.wf(),
            r.states_map() == spec_states_after(events@),
            r.flags_map() == spec_flags_after(events@),
    {
        let ghost full = events@;
        let mut events = events;
        let mut r = ChangeConsolidation::new();
        let mut taken: usize = 0;
        let total = events.len();
        proof {
            assert(full.take(0) =~= Seq::<ChangeEvent>::empty());
        }
        while taken < total
            invariant
                full.len() == total,
                taken <= total,
                events@ == full.skip(taken as int),
                r.wf(),
                r.states_map() == spec_states_after(full.take(taken as int)),
                r.flags_map() == spec_flags_after(full.take(taken as int)),
            decreases total - taken,
        {
            let event = events.remove(0);
            proof {
                assert(event == full[taken as int]);
                assert(full.skip(taken as int).drop_first() =~= full.skip(taken as int + 1));
                assert(full.take(taken as int + 1).drop_last() =~= full.take(taken as int));
                assert(full.take(taken as int + 1).last() == full[taken as int]);
            }
            r.apply(event);
            taken = taken + 1;
        }
        proof {
            assert(full.take(total as int) =~= full);
        }
        r
    }

    /// The ids consolidated to the given fate, in the order the entities
    /// first appeared in the feed.
    pub fn ids_with_fate(&self, fate: EntryFate) -> (r: Vec<String>)
        ensures
            r@.map_values(|s: String| s@) == spec_ids_with_fate(self.entries@, fate),
    {
        let mut r: Vec<String> = Vec::new();
        let n = self.entries.len();
        let mut i: usize = 0;
        proof {
            assert(self.entries@.take(0) =~= Seq::<IdEntry>::empty());
            assert(r@.map_values(|s: String| s@) =~= spec_ids_with_fate(
                self.entries@.take(0),
                fate,
            ));
        }
        while i < n
            invariant
                n == self.entries@.len(),
                i <= n,
                r@.map_values(|s: String| s@) == spec_ids_with_fate(
                    self.entries@.take(i as int),
                    fate,
                ),
            decreases n - i,
        {
            let ghost r_before = r@;
            let e = &self.entries[i];
            let state = EntryState { first_kind: e.first_kind, deleted: e.deleted };
            if entry_fate(state) == fate {
                r.push(e.id.clone());
                proof {
                    assert(r@.map_values(|s: String| s@) =~= r_before.map_values(
                        |s: String| s@,
                    ).push(self.entries@[i as int].id@));
                }
            }
            proof {
                assert(self.entries@.take(i + 1).drop_last() =~= self.entries@.take(i as int));
                assert(self.entries@.take(i + 1).last() == self.entries@[i as int]);
            }
            i = i + 1;
        }
        proof {
            assert(self.entries@.take(n as int) =~= self.entries@);
        }
        r
    }

    /// The latest read flag of every entity whose flag changed, as id/value
    /// pairs in the order the entities first appeared.
    pub fn read_flag_pairs(&self) -> (r: Vec<IdFlag>)
        ensures
            r@ == self.flags@,
    {
        let mut r: Vec<IdFlag> = Vec::new();
        let n = self.flags.len();
        let mut i: usize = 0;
        while i < n
            invariant
                n == self.flags@.len(),
                i <= n,
                r@ =~= self.flags@.take(i as int),
            decreases n - i,
        {
            let f = &self.flags[i];
            r.push(IdFlag { id: f.id.clone(), is_read: f.is_read });
            proof {
                assert(r@ =~= self.flags@.take(i + 1));
            }
            i = i + 1;
        }
        proof {
            assert(self.flags@.take(n as int) =~= self.flags@);
        }
        r
    }
}

/// The ids among the entries whose consolidated state yields the given fate,
/// in slot order.
pub open spec fn spec_ids_with_fate(entries: Seq<IdEntry>, fate: EntryFate) -> Seq<Seq<char>>
    decreases entries.len(),
{
    if entries.len() == 0 {
        Seq::empty()
    } else {
        let rest = spec_ids_with_fate(entries.drop_last(), fate);
        let e = entries.last();
        if spec_fate(EntryState { first_kind: e.first_kind, deleted: e.deleted }) == fate {
            rest.push(e.id@)
        } else {
            rest
        }
    }
}

/// The verdict a consolidated state yields, computed.
pub fn entry_fate(st: EntryState) -> (r: EntryFate)
    ensures
        r == spec_fate(st),
{
    if st.deleted {
        EntryFate::Deleted
    } else {
        match st.first_kind {
            Some(EntryKind::Created) => EntryFate::Created,
            _ => EntryFate::Updated,
        }
    }
}

/// With distinct ids, an id is listed under a fate exactly when its
/// consolidated state yields that fate: every entity lands in exactly one of
/// the created / updated / deleted lists.
pub proof fn lemma_fate_ids_membership(entries: Seq<IdEntry>, fate: EntryFate, k: Seq<char>)
    requires
        forall|a: int, b: int| 0 <= a < b < entries.len() ==> entries[a].id@ != entries[b].id@,
    ensures
        spec_ids_with_fate(entries, fate).contains(k) <==> (spec_has_id(entries, k) && spec_fate(
            spec_entry_at(entries, k),
        ) == fate),
    decreases entries.len(),
{
    if entries.len() > 0 {
        let e = entries.last();
        let rest = entries.drop_last();
        let state = EntryState { first_kind: e.first_kind, deleted: e.deleted };
        assert(forall|a: int, b: int| 0 <= a < b < rest.len() ==> rest[a].id@ != rest[b].id@);
        lemma_fate_ids_membership(rest, fate, k);
        if e.id@ == k {
            lemma_entry_at_key(entries, k, entries.len() - 1);
            if spec_has_id(rest, k) {
                let w = choose|w: int| 0 <= w < rest.len() && rest[w].id@ == k;
                assert(entries[w].id@ != entries[entries.len() - 1].id@);
                assert(false);
            }
            if spec_fate(state) == fate {
                assert(spec_ids_with_fate(entries, fate).last() == k);
                assert(spec_ids_with_fate(entries, fate).contains(k));
            } else {
                if spec_ids_with_fate(entries, fate).contains(k) {
                    assert(spec_ids_with_fate(rest, fate).contains(k));
                }
            }
        } else {
            if spec_has_id(entries, k) {
                let w = choose|w: int| 0 <= w < entries.len() && entries[w].id@ == k;
                assert(w < rest.len());
                assert(rest[w].id@ == k);
                lemma_entry_at_key(entries, k, w);
                lemma_entry_at_key(rest, k, w);
            }
            if spec_has_id(rest, k) {
                let w = choose|w: int| 0 <= w < rest.len() && rest[w].id@ == k;
                assert(entries[w].id@ == k);
            }
            if spec_fate(state) == fate {
                assert(spec_ids_with_fate(entries, fate) == spec_ids_with_fate(rest, fate).push(
                    e.id@,
                ));
                if spec_ids_with_fate(rest, fate).contains(k) {
                    let w = choose|w: int|
                        0 <= w < spec_ids_with_fate(rest, fate).len() && spec_ids_with_fate(
                            rest,
                            fate,
                        )[w] == k;
                    assert(spec_ids_with_fate(entries, fate)[w] == k);
                }
                if spec_ids_with_fate(entries, fate).contains(k) {
                    let w = choose|w: int|
                        0 <= w < spec_ids_with_fate(entries, fate).len() && spec_ids_with_fate(
                            entries,
                            fate,
                        )[w] == k;
                    assert(w < spec_ids_with_fate(rest, fate).len());
                    assert(spec_ids_with_fate(rest, fate)[w] == k);
                }
            }
        }
    }
}

/// Whether every event of a feed concerns the one given entity.
pub open spec fn spec_all_for_id(events: Seq<ChangeEvent>, id: Seq<char>) -> bool {
    forall|i: int| 0 <= i < events.len() ==> spec_event_id(#[trigger] events[i]) == id
}

/// Whether a feed holds any create, update or delete event.
pub open spec fn spec_has_cud(events: Seq<ChangeEvent>) -> bool
    decreases events.len(),
{
    if events.len() == 0 {
        false
    } else {
        match events.last() {
            ChangeEvent::ReadFlagChange { .. } => spec_has_cud(events.drop_last()),
            _ => true,
        }
    }
}

/// The kind of the first create/update event of a feed, if any.
pub open spec fn spec_first_kind(events: Seq<ChangeEvent>) -> Option<EntryKind>
    decreases events.len(),
{
    if events.len() == 0 {
        None
    } else {
        match spec_first_kind(events.drop_last()) {
            Some(k) => Some(k),
            None => match events.last() {
                ChangeEvent::Create { .. } => Some(EntryKind::Created),
                ChangeEvent::Update { .. } => Some(EntryKind::Updated),
                _ => None,
            },
        }
    }
}

/// Whether the last create/update/delete event of a feed is a delete.
pub open spec fn spec_last_cud_is_delete(events: Seq<ChangeEvent>) -> bool
    decreases events.len(),
{
    if events.len() == 0 {
        false
    } else {
        match events.last() {
            ChangeEvent::Delete { .. } => true,
            ChangeEvent::ReadFlagChange { .. } => spec_last_cud_is_delete(events.drop_last()),
            _ => false,
        }
    }
}

/// What a feed for a single entity consolidates to: the entity is on record
/// exactly when some create/update/delete event occurred; its first-seen
/// kind is the kind of the first create/update event; it counts as deleted
/// exactly when the last create/update/delete event was a delete. No other
/// entity is touched.
pub proof fn lemma_single_id_state(events: Seq<ChangeEvent>, id: Seq<char>)
    requires
        spec_all_for_id(events, id),
    ensures
        forall|k: Seq<char>|
            k != id ==> !#[trigger] spec_states_after(events).dom().contains(k),
        spec_states_after(events).dom().contains(id) <==> spec_has_cud(events),
        spec_has_cud(events) ==> spec_states_after(events)[id].first_kind == spec_first_kind(
            events,
        ) && (spec_states_after(events)[id].deleted <==> spec_last_cud_is_delete(events)),
        !spec_has_cud(events) ==> spec_first_kind(events) is None,
    decreases events.len(),
{
    if events.len() > 0 {
        let rest = events.drop_last();
        assert(forall|i: int|
            0 <= i < rest.len() ==> spec_event_id(#[trigger] rest[i]) == id);
        lemma_single_id_state(rest, id);
        assert(spec_event_id(events.last()) == id);
        match events.last() {
            ChangeEvent::ReadFlagChange { .. } => {},
            ChangeEvent::Delete { .. } => {},
            ChangeEvent::Create { .. } => {},
            ChangeEvent::Update { .. } => {},
        }
    }
}

/// A feed for one entity that ends in a delete consolidates the entity as
/// deleted.
pub proof fn lemma_delete_supersedes(events: Seq<ChangeEvent>, id: Seq<char>)
    requires
        spec_all_for_id(events, id),
        events.len() > 0,
        events.last() matches ChangeEvent::Delete { .. },
    ensures
        spec_states_after(events).dom().contains(id),
        spec_fate(spec_states_after(events)[id]) == EntryFate::Deleted,
{
    assert(spec_event_id(events.last()) == id);
}

/// A feed for one entity whose last event is an update (so no later delete)
/// consolidates the entity by its first-seen kind: created when it first
/// appeared as a creation, updated when it first appeared as an update.
pub proof fn lemma_update_keeps_first_kind(events: Seq<ChangeEvent>, id: Seq<char>)
    requires
        spec_all_for_id(events, id),
        events.len() > 0,
        events.last() matches ChangeEvent::Update { .. },
    ensures
        spec_states_after(events).dom().contains(id),
        spec_fate(spec_states_after(events)[id]) == (if spec_first_kind(events) == Some(
            EntryKind::Created,
        ) {
            EntryFate::Created
        } else {
            EntryFate::Updated
        }),
{
    lemma_single_id_state(events, id);
    assert(spec_event_id(events.last()) == id);
    assert(spec_has_cud(events));
    assert(!spec_last_cud_is_delete(events));
}

/// A consolidation of a single-entity feed ending in a delete lists the
/// entity under `deleted` and never under `created` or `updated`.
pub proof fn lemma_result_delete_wins(
    c: ChangeConsolidation,
    events: Seq<ChangeEvent>,
    id: Seq<char>,
)
    requires
        c.wf(),
        c.states_map() == spec_states_after(events),
        spec_all_for_id(events, id),
        events.len() > 0,
        events.last() matches ChangeEvent::Delete { .. },
    ensures
        spec_ids_with_fate(c.entries@, EntryFate::Deleted).contains(id),
        !spec_ids_with_fate(c.entries@, EntryFate::Created).contains(id),
        !spec_ids_with_fate(c.entries@, EntryFate::Updated).contains(id),
{
    lemma_delete_supersedes(events, id);
    assert(spec_has_id(c.entries@, id));
    assert(spec_entry_at(c.entries@, id) == spec_states_after(events)[id]);
    lemma_fate_ids_membership(c.entries@, EntryFate::Deleted, id);
    lemma_fate_ids_membership(c.entries@, EntryFate::Created, id);
    lemma_fate_ids_membership(c.entries@, EntryFate::Updated, id);
}

/// A consolidation of a single-entity feed whose last event is an update
/// lists the entity under exactly one of `created` / `updated`, by the kind
/// of the first event seen for it.
pub proof fn lemma_result_first_kind_wins(
    c: ChangeConsolidation,
    events: Seq<ChangeEvent>,
    id: Seq<char>,
)
    requires
        c.wf(),
        c.states_map() == spec_states_after(events),
        spec_all_for_id(events, id),
        events.len() > 0,
        events.last() matches ChangeEvent::Update { .. },
    ensures
        spec_first_kind(events) == Some(EntryKind::Created) ==> spec_ids_with_fate(
            c.entries@,
            EntryFate::Created,
        ).contains(id) && !spec_ids_with_fate(c.entries@, EntryFate::Updated).contains(id),
        spec_first_kind(events) != Some(EntryKind::Created) ==> spec_ids_with_fate(
            c.entries@,
            EntryFate::Updated,
        ).contains(id) && !spec_ids_with_fate(c.entries@, EntryFate::Created).contains(id),
        !spec_ids_with_fate(c.entries@, EntryFate::Deleted).contains(id),
{
    lemma_update_keeps_first_kind(events, id);
    assert(spec_has_id(c.entries@, id));
    assert(spec_entry_at(c.entries@, id) == spec_states_after(events)[id]);
    lemma_fate_ids_membership(c.entries@, EntryFate::Deleted, id);
    lemma_fate_ids_membership(c.entries@, EntryFate::Created, id);
    lemma_fate_ids_membership(c.entries@, EntryFate::Updated, id);
}

/// The id a change event concerns, borrowed.
fn event_id_ref(event: &ChangeEvent) -> (r: &String)
    ensures
        r@ == spec_event_id(*event),
{
    match event {
        ChangeEvent::Create { id } => id,
        ChangeEvent::Update { id } => id,
        ChangeEvent::Delete { id } => id,
        ChangeEvent::ReadFlagChange { id, .. } => id,
    }
}

/// The state of one entity after one more event, computed.
fn entry_after(cur: EntryState, event: &ChangeEvent) -> (r: EntryState)
    requires
        !(event matches ChangeEvent::ReadFlagChange { .. }),
    ensures
        r == spec_entry_after(cur, *event),
{
    match event {
        ChangeEvent::Create { .. } => EntryState {
            first_kind: match cur.first_kind {
                Some(k) => Some(k),
                None => Some(EntryKind::Created),
            },
            deleted: false,
        },
        ChangeEvent::Update { .. } => EntryState {
            first_kind: match cur.first_kind {
                Some(k) => Some(k),
                None => Some(EntryKind::Updated),
            },
            deleted: false,
        },
        ChangeEvent::Delete { .. } => EntryState { first_kind: cur.first_kind, deleted: true },
        ChangeEvent::ReadFlagChange { .. } => cur,
    }
}

/// With distinct ids, the state read for a key is the one at its slot.
proof fn lemma_entry_at_key(s: Seq<IdEntry>, k: Seq<char>, i: int)
    requires
        forall|a: int, b: int| 0 <= a < b < s.len() ==> s[a].id@ != s[b].id@,
        0 <= i < s.len(),
        s[i].id@ == k,
    ensures
        spec_has_id(s, k),
        spec_entry_at(s, k) == (EntryState {
            first_kind: s[i].first_kind,
            deleted: s[i].deleted,
        }),
{
    let w = choose|w: int| 0 <= w < s.len() && s[w].id@ == k;
    if w != i {
        if w < i {
            assert(s[w].id@ != s[i].id@);
        } else {
            assert(s[i].id@ != s[w].id@);
        }
    }
}

/// With distinct ids, the flag read for a key is the one at its slot.
proof fn lemma_flag_at_key(s: Seq<IdFlag>, k: Seq<char>, i: int)
    requires
        forall|a: int, b: int| 0 <= a < b < s.len() ==> s[a].id@ != s[b].id@,
        0 <= i < s.len(),
        s[i].id@ == k,
    ensures
        spec_has_flag(s, k),
        spec_flag_at(s, k) == s[i].is_read,
{
    let w = choose|w: int| 0 <= w < s.len() && s[w].id@ == k;
    if w != i {
        if w < i {
            assert(s[w].id@ != s[i].id@);
        } else {
            assert(s[i].id@ != s[w].id@);
        }
    }
}

} // verus!
