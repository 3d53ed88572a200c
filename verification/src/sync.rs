//! The delta-sync session: a state machine drained one page at a time.
//!
//! A sync session starts with the caller's token (or none, at the start of
//! history), applies the change feed of each page to a running
//! consolidation, records the page's new token, and finishes when the server
//! signals that the last page is in. The token of page N is supplied
//! verbatim with request N+1; the surrounding loop that performs the
//! requests hands each decoded page to the session.

use vstd::prelude::*;

use crate::consolidate::{
    spec_apply_to_flags, spec_apply_to_states, ChangeConsolidation, ChangeEvent, EntryFate,
    EntryState, IdFlag,
};
use crate::folders::{FolderInfo, WellKnownFolder};

verus! {

/// The most changes one message-sync page asks the server for.
pub const MAX_SYNC_MESSAGE_CHANGES: usize = 100;

/// One decoded page of a delta sync.
#[derive(Debug, Clone, PartialEq, Eq)]
pub struct SyncPage {
    /// The page's change feed, in server order.
    pub events: Vec<ChangeEvent>,
    /// The token identifying the feed position after this page.
    pub sync_state: String,
    /// Whether the server signalled that no more pages remain.
    pub includes_last: bool,
}

/// The per-entity states after a run of events is applied on top of an
/// earlier consolidation, first event applied first.
pub open spec fn spec_states_then(
    m: Map<Seq<char>, EntryState>,
    events: Seq<ChangeEvent>,
) -> Map<Seq<char>, EntryState>
    decreases events.len(),
{
    if events.len() == 0 {
        m
    } else {
        spec_apply_to_states(spec_states_then(m, events.drop_last()), events.last())
    }
}

/// The per-entity read flags after a run of events is applied on top of an
/// earlier consolidation, first event applied first.
pub open spec fn spec_flags_then(m: Map<Seq<char>, bool>, events: Seq<ChangeEvent>) -> Map<
    Seq<char>,
    bool,
>
    decreases events.len(),
{
    if events.len() == 0 {
        m
    } else {
        spec_apply_to_flags(spec_flags_then(m, events.drop_last()), events.last())
    }
}

/// Folding a feed on top of the empty consolidation is consolidating the
/// whole feed: a session that starts fresh and applies every page reaches
/// the same per-entity states and flags as one consolidation of all the
/// pages' events in order.
pub proof fn lemma_session_folds_whole_feed(events: Seq<ChangeEvent>)
    ensures
        spec_states_then(Map::empty(), events) == crate::consolidate::spec_states_after(events),
        spec_flags_then(Map::empty(), events) == crate::consolidate::spec_flags_after(events),
    decreases events.len(),
{
    if events.len() > 0 {
        lemma_session_folds_whole_feed(events.drop_last());
    }
}

/// Folding two runs of events one after the other is folding their
/// concatenation: applying a sync's pages one at a time loses nothing
/// against consolidating the whole feed at once.
pub proof fn lemma_fold_splits(
    m: Map<Seq<char>, EntryState>,
    flags: Map<Seq<char>, bool>,
    first: Seq<ChangeEvent>,
    second: Seq<ChangeEvent>,
)
    ensures
        spec_states_then(spec_states_then(m, first), second) == spec_states_then(m, first + second),
        spec_flags_then(spec_flags_then(flags, first), second) == spec_flags_then(
            flags,
            first + second,
        ),
    decreases second.len(),
{
    if second.len() == 0 {
        assert(first + second =~= first);
    } else {
        lemma_fold_splits(m, flags, first, second.drop_last());
        assert((first + second).drop_last() =~= first + second.drop_last());
        assert((first + second).last() == second.last());
    }
}

/// Whether a sync invocation is a true first sync: the caller supplied no
/// token at all, so the feed starts at the beginning of history and the
/// folder variant additionally resolves the well-known folders first.
pub fn is_first_sync(sync_state: &Option<String>) -> (r: bool)
    ensures
        r == (sync_state is None),
{
    match sync_state {
        None => true,
        Some(_) => false,
    }
}

/// One sync invocation's running state.
#[derive(Debug, Clone, PartialEq, Eq)]
pub struct SyncSession {
    /// The consolidation of every event seen so far in this session.
    pub consolidation: ChangeConsolidation,
    /// The token to carry with the next page request; the caller's token at
    /// the start, the latest page's token afterwards.
    pub sync_state: Option<String>,
    /// Whether the server has signalled the last page.
    pub done: bool,
}

impl SyncSession {
    /// The session's slot lists hold each entity once.
    pub open spec fn wf(self) -> bool {
        self.consolidation.wf()
    }

    /// Starts a session from the caller's token, or from the start of
    /// history when there is none.
    pub fn new(initial_state: Option<String>) -> (r: SyncSession)
        ensures
            r.wf(),
            r.consolidation.states_map() == Map::<Seq<char>, EntryState>::empty(),
            r.consolidation.flags_map() == Map::<Seq<char>, bool>::empty(),
            r.sync_state == initial_state,
            !r.done,
    {
        SyncSession {
            consolidation: ChangeConsolidation::new(),
            sync_state: initial_state,
            done: false,
        }
    }

    /// Applies one page: folds its change feed into the consolidation,
    /// records its token for the next request, and finishes the session when
    /// the server signalled the last page.
    pub fn apply_page(&mut self, page: SyncPage)
        requires
            old(self).wf(),
            !old(self).done,
        ensures
            final (self).wf(),
            final (self).consolidation.states_map() == spec_states_then(
                old(self).consolidation.states_map(),
                page.events@,
            ),
            final (self).consolidation.flags_map() == spec_flags_then(
                old(self).consolidation.flags_map(),
                page.events@,
            ),
            final (self).sync_state == Some(page.sync_state),
            final (self).done == page.includes_last,
    {
        let ghost full = page.events@;
        let ghost states0 = self.consolidation.states_map();
        let ghost flags0 = self.consolidation.flags_map();
        let mut events = page.events;
        let mut taken: usize = 0;
        let total = events.len();
        proof {
            assert(full.take(0) =~= Seq::<ChangeEvent>::empty());
        }
        while taken < total
            invariant
                full.len() == total,
                taken <= total,
                events@ == full.skip(taken as int),
                self.consolidation.wf(),
                self.consolidation.states_map() == spec_states_then(
                    states0,
                    full.take(taken as int),
                ),
                self.consolidation.flags_map() == spec_flags_then(
                    flags0,
                    full.take(taken as int),
                ),
            decreases total - taken,
        {
            let event = events.remove(0);
            proof {
                assert(event == full[taken as int]);
                assert(full.skip(taken as int).drop_first() =~= full.skip(taken as int + 1));
                assert(full.take(taken as int + 1).drop_last() =~= full.take(taken as int));
                assert(full.take(taken as int + 1).last() == full[taken as int]);
            }
            self.consolidation.apply(event);
            taken = taken + 1;
        }
        proof {
            assert(full.take(total as int) =~= full);
        }
        self.sync_state = Some(page.sync_state);
        self.done = page.includes_last;
    }
}

/// Result of syncing the messages of one folder.
#[derive(Debug, Clone, PartialEq, Eq)]
pub struct SyncMessagesResult {
    /// Ids of messages consolidated as created.
    pub created: Vec<String>,
    /// Ids of messages consolidated as updated.
    pub updated: Vec<String>,
    /// Ids of messages consolidated as deleted.
    pub deleted: Vec<String>,
    /// The latest read flag of each message whose flag changed.
    pub read_status_changed: Vec<(String, bool)>,
    /// The token for the next sync.
    pub sync_state: String,
    /// Whether the server signalled that no more changes remain.
    pub includes_last_item: bool,
}

/// Detailed message information gathered during a sync.
#[derive(Debug, Clone, PartialEq, Eq)]
pub struct SyncMessageInfo {
    /// The message's id.
    pub item_id: String,
    /// Whether the message has been read, when known.
    pub is_read: Option<bool>,
    /// The message-id header value, when known.
    pub internet_message_id: Option<String>,
    /// The send time as a Unix timestamp in seconds, when known.
    pub date_time_sent: Option<i64>,
    /// The sender's address, when known.
    pub from: Option<String>,
    /// The subject, when known.
    pub subject: Option<String>,
    /// Whether the message has attachments, when known.
    pub has_attachments: Option<bool>,
    /// The message size in bytes, when known.
    pub size: Option<usize>,
}

/// The result of a folder hierarchy sync.
#[derive(Debug, Clone, PartialEq, Eq)]
pub struct FolderHierarchySyncResult {
    /// The token for the next sync.
    pub sync_state: String,
    /// Details of folders consolidated as created.
    pub created_folders: Vec<FolderInfo>,
    /// Details of folders consolidated as updated.
    pub updated_folders: Vec<FolderInfo>,
    /// Ids of folders consolidated as deleted.
    pub deleted_folder_ids: Vec<String>,
    /// On a first sync, the resolved well-known folders; absent otherwise.
    pub well_known_folders: Option<Vec<WellKnownFolder>>,
}

/// Extracts a finished message-sync session into the caller-facing result:
/// the per-fate id lists, the read-flag changes, and the final token. Every
/// entity lands in exactly one list — in particular an id consolidated as
/// deleted never appears under updated.
pub fn message_sync_result(session: SyncSession) -> (r: SyncMessagesResult)
    requires
        session.wf(),
        session.done,
        session.sync_state is Some,
    ensures
        r.created@.map_values(|s: String| s@) == crate::consolidate::spec_ids_with_fate(
            session.consolidation.entries@,
            EntryFate::Created,
        ),
        r.updated@.map_values(|s: String| s@) == crate::consolidate::spec_ids_with_fate(
            session.consolidation.entries@,
            EntryFate::Updated,
        ),
        r.deleted@.map_values(|s: String| s@) == crate::consolidate::spec_ids_with_fate(
            session.consolidation.entries@,
            EntryFate::Deleted,
        ),
        r.read_status_changed@.map_values(|p: (String, bool)| (p.0@, p.1))
            == session.consolidation.flags@.map_values(|f: IdFlag| (f.id@, f.is_read)),
        Some(r.sync_state) == session.sync_state,
        r.includes_last_item,
{
    let created = session.consolidation.ids_with_fate(EntryFate::Created);
    let updated = session.consolidation.ids_with_fate(EntryFate::Updated);
    let deleted = session.consolidation.ids_with_fate(EntryFate::Deleted);
    let flags = session.consolidation.read_flag_pairs();
    let mut read_status_changed: Vec<(String, bool)> = Vec::new();
    let ghost flag_seq = flags@;
    let mut flags = flags;
    let mut taken: usize = 0;
    let total = flags.len();
    proof {
        assert(flag_seq.take(0) =~= Seq::<IdFlag>::empty());
        assert(read_status_changed@.map_values(|p: (String, bool)| (p.0@, p.1)) =~= flag_seq.take(
            0,
        ).map_values(|f: IdFlag| (f.id@, f.is_read)));
    }
    while taken < total
        invariant
            flag_seq.len() == total,
            taken <= total,
            flags@ == flag_seq.skip(taken as int),
            read_status_changed@.map_values(|p: (String, bool)| (p.0@, p.1)) == flag_seq.take(
                taken as int,
            ).map_values(|f: IdFlag| (f.id@, f.is_read)),
        decreases total - taken,
    {
        let flag = flags.remove(0);
        proof {
            assert(flag == flag_seq[taken as int]);
            assert(flag_seq.skip(taken as int).drop_first() =~= flag_seq.skip(taken as int + 1));
        }
        let ghost before = read_status_changed@;
        let ghost pair_view = (flag_seq[taken as int].id@, flag_seq[taken as int].is_read);
        read_status_changed.push((flag.id, flag.is_read));
        proof {
            assert(read_status_changed@.map_values(|p: (String, bool)| (p.0@, p.1))
                =~= before.map_values(|p: (String, bool)| (p.0@, p.1)).push(pair_view));
            assert(flag_seq.take(taken as int + 1).map_values(|f: IdFlag| (f.id@, f.is_read))
                =~= flag_seq.take(taken as int).map_values(|f: IdFlag| (f.id@, f.is_read)).push(
                pair_view,
            ));
        }
        taken = taken + 1;
    }
    proof {
        assert(flag_seq.take(total as int) =~= flag_seq);
    }
    let sync_state = match session.sync_state {
        Some(state) => state,
        None => String::new(),
    };
    SyncMessagesResult {
        created,
        updated,
        deleted,
        read_status_changed,
        sync_state,
        includes_last_item: true,
    }
}

/// Extracts the per-fate id lists of a finished folder-hierarchy session,
/// ready for hydration: created and updated ids are fetched in full, deleted
/// ids are reported bare. An id consolidated as deleted never appears under
/// updated: the delete wins over the stale update within the session.
pub fn folder_sync_fate_ids(session: &SyncSession) -> (r: (Vec<String>, Vec<String>, Vec<String>))
    requires
        session.wf(),
    ensures
        r.0@.map_values(|s: String| s@) == crate::consolidate::spec_ids_with_fate(
            session.consolidation.entries@,
            EntryFate::Created,
        ),
        r.1@.map_values(|s: String| s@) == crate::consolidate::spec_ids_with_fate(
            session.consolidation.entries@,
            EntryFate::Updated,
        ),
        r.2@.map_values(|s: String| s@) == crate::consolidate::spec_ids_with_fate(
            session.consolidation.entries@,
            EntryFate::Deleted,
        ),
{
    let created = session.consolidation.ids_with_fate(EntryFate::Created);
    let updated = session.consolidation.ids_with_fate(EntryFate::Updated);
    let deleted = session.consolidation.ids_with_fate(EntryFate::Deleted);
    (created, updated, deleted)
}

} // verus!
