//! Generic operation adapters: per-operation response mapping and
//! partial-failure policy.
//!
//! Mutation operations carry all target ids in one exchange and get one
//! response unit per id back. The adapters check that count, then apply the
//! operation's policy: deletes tolerate "not found" (the target is already
//! gone, which is the desired end state); read-status and update calls
//! return the ids that succeeded and leave the caller to diff for omissions;
//! copy/move calls fail on any per-id error.

use vstd::prelude::*;

use crate::error::{EwsError, ResponseCode};
use crate::response::{process_response_message_class, ResponseClass};
use crate::text::{decimal_string, spec_decimal_digits};
use crate::version::ExchangeServerVersion;

verus! {

/// The flag value marking a stored message as read.
pub const MSGFLAG_READ: i32 = 0x0001;

/// The flag value marking a stored message as unmodified.
pub const MSGFLAG_UNMODIFIED: i32 = 0x0002;

/// The flag value marking a stored message as not yet sent.
pub const MSGFLAG_UNSENT: i32 = 0x0008;

/// The message-flag property value a stored message is created with: read,
/// and either still unsent (a draft) or unmodified (anything else). Without
/// it the server would store the message as an unsent draft.
pub fn message_flags(is_draft: bool) -> (r: i32)
    ensures
        is_draft ==> r == MSGFLAG_READ | MSGFLAG_UNSENT,
        !is_draft ==> r == MSGFLAG_READ | MSGFLAG_UNMODIFIED,
{
    if is_draft {
        MSGFLAG_READ | MSGFLAG_UNSENT
    } else {
        MSGFLAG_READ | MSGFLAG_UNMODIFIED
    }
}

/// One decoded mutation response unit's payload: the ids of the items it
/// reports, each possibly omitted by the server.
#[derive(Debug, Clone, PartialEq, Eq)]
pub struct MutationMessage {
    /// The reported items' ids, in response order.
    pub item_ids: Vec<Option<String>>,
}

/// The ids present in one payload, omissions skipped.
pub open spec fn spec_present_ids(ids: Seq<Option<String>>) -> Seq<Seq<char>>
    decreases ids.len(),
{
    if ids.len() == 0 {
        Seq::empty()
    } else {
        let rest = spec_present_ids(ids.drop_last());
        match ids.last() {
            Some(id) => rest.push(id@),
            None => rest,
        }
    }
}

/// The ids that the successful units of a mutation response report, in
/// response order; failed units contribute nothing.
pub open spec fn spec_mutation_success_ids(units: Seq<ResponseClass<MutationMessage>>) -> Seq<
    Seq<char>,
>
    decreases units.len(),
{
    if units.len() == 0 {
        Seq::empty()
    } else {
        let rest = spec_mutation_success_ids(units.drop_last());
        match units.last() {
            ResponseClass::Success(m) => rest + spec_present_ids(m.item_ids@),
            ResponseClass::Warning(m) => rest + spec_present_ids(m.item_ids@),
            ResponseClass::Error(..) => rest,
        }
    }
}

/// Collects the ids that a mutation operation succeeded on.
///
/// The response must carry one unit per submitted id; a count mismatch is an
/// error, never silently truncated or padded. Per-id failures do not abort
/// the call: the ids of the units that succeeded are returned, and a caller
/// that must detect omissions diffs them against its request.
pub fn collect_mutation_successes(
    units: Vec<ResponseClass<MutationMessage>>,
    expected_len: usize,
) -> (r: Result<Vec<String>, EwsError>)
    ensures
        units@.len() != expected_len ==> r == Err::<Vec<String>, EwsError>(
            EwsError::UnexpectedResponseMessageCount {
                expected: expected_len,
                actual: units@.len() as usize,
            },
        ),
        units@.len() == expected_len ==> (r matches Ok(ids) && ids@.map_values(|s: String| s@)
            == spec_mutation_success_ids(units@)),
{
    if units.len() != expected_len {
        return Err(
            EwsError::UnexpectedResponseMessageCount { expected: expected_len, actual: units.len() },
        );
    }
    let mut ids: Vec<String> = Vec::new();
    let ghost full = units@;
    let mut remaining = units;
    let mut taken: usize = 0;
    let total = remaining.len();
    proof {
        assert(full.take(0) =~= Seq::<ResponseClass<MutationMessage>>::empty());
        assert(ids@.map_values(|s: String| s@) =~= spec_mutation_success_ids(full.take(0)));
    }
    while taken < total
        invariant
            full == units@,
            full.len() == total,
            taken <= total,
            remaining@ == full.skip(taken as int),
            ids@.map_values(|s: String| s@) == spec_mutation_success_ids(full.take(taken as int)),
        decreases total - taken,
    {
        let unit = remaining.remove(0);
        proof {
            assert(unit == full[taken as int]);
            assert(full.skip(taken as int).drop_first() =~= full.skip(taken as int + 1));
            assert(full.take(taken as int + 1).drop_last() =~= full.take(taken as int));
            assert(full.take(taken as int + 1).last() == full[taken as int]);
        }
        match process_response_message_class(unit) {
            Ok(message) => {
                let ghost ids_before = ids@;
                let mut item_ids = message.item_ids;
                let ghost payload = item_ids@;
                let mut j: usize = 0;
                let m = item_ids.len();
                proof {
                    assert(payload.take(0) =~= Seq::<Option<String>>::empty());
                    assert(ids@.map_values(|s: String| s@) =~= ids_before.map_values(
                        |s: String| s@,
                    ) + spec_present_ids(payload.take(0)));
                }
                while j < m
                    invariant
                        m == payload.len(),
                        j <= m,
                        item_ids@ == payload.skip(j as int),
                        ids@.map_values(|s: String| s@) == ids_before.map_values(|s: String| s@)
                            + spec_present_ids(payload.take(j as int)),
                    decreases m - j,
                {
                    let entry = item_ids.remove(0);
                    proof {
                        assert(entry == payload[j as int]);
                        assert(payload.skip(j as int).drop_first() =~= payload.skip(j as int + 1));
                        assert(payload.take(j as int + 1).drop_last() =~= payload.take(j as int));
                        assert(payload.take(j as int + 1).last() == payload[j as int]);
                    }
                    let ghost ids_mid = ids@;
                    if let Some(id) = entry {
                        ids.push(id);
                        proof {
                            assert(ids@.map_values(|s: String| s@) =~= ids_mid.map_values(
                                |s: String| s@,
                            ).push(payload[j as int]->0@));
                        }
                    }
                    j = j + 1;
                }
                proof {
                    assert(payload.take(m as int) =~= payload);
                }
            },
            Err(_) => {
                // Per-id failures are reported through the returned id set:
                // an id missing from it failed.
            },
        }
        taken = taken + 1;
    }
    proof {
        assert(full.take(total as int) =~= full);
    }
    Ok(ids)
}

/// Whether a delete-response unit is acceptable: a success, or the report
/// that the target was not found — the target being already gone is the
/// desired end state.
pub open spec fn spec_delete_unit_ok(unit: ResponseClass<()>) -> bool {
    match unit {
        ResponseClass::Success(..) => true,
        ResponseClass::Warning(..) => true,
        ResponseClass::Error(f) => f.response_code matches ResponseCode::ErrorItemNotFound,
    }
}

/// Judges a message-delete response: one unit per submitted id, each a
/// success or a tolerated "not found"; any other per-id error aborts the
/// whole call, naming the id it struck.
pub fn delete_messages_outcome(
    units: Vec<ResponseClass<()>>,
    item_ids: &Vec<String>,
) -> (r: Result<(), EwsError>)
    ensures
        units@.len() != item_ids@.len() ==> (r matches Err(e) && e matches EwsError::Processing {
            message,
        } && message@ == crate::response::spec_count_mismatch_message(
            item_ids@.len() as int,
            units@.len() as int,
        )),
        units@.len() == item_ids@.len() ==> ((r matches Ok(())) <==> (forall|i: int|
            0 <= i < units@.len() ==> spec_delete_unit_ok(#[trigger] units@[i]))),
        units@.len() == item_ids@.len() ==> (r matches Err(e) ==> e matches EwsError::Processing {
            message,
        } && exists|i: int|
            0 <= i < units@.len() && !spec_delete_unit_ok(#[trigger] units@[i]) && (forall|j: int|
                0 <= j < i ==> spec_delete_unit_ok(#[trigger] units@[j])) && ((#[trigger] units@[i])
                matches ResponseClass::Error(f) && message@
                == "error while attempting to delete message "@ + item_ids@[i]@ + ": "@
                + f.message@)),
{
    if let Err(e) = crate::response::validate_response_message_count(&units, item_ids.len()) {
        return Err(e);
    }
    let ghost full = units@;
    let mut remaining = units;
    let mut taken: usize = 0;
    let total = remaining.len();
    while taken < total
        invariant
            full == units@,
            full.len() == total,
            total == item_ids@.len(),
            taken <= total,
            remaining@ == full.skip(taken as int),
            forall|i: int| 0 <= i < taken ==> spec_delete_unit_ok(#[trigger] full[i]),
        decreases total - taken,
    {
        let unit = remaining.remove(0);
        proof {
            assert(unit == full[taken as int]);
            assert(full.skip(taken as int).drop_first() =~= full.skip(taken as int + 1));
        }
        match process_response_message_class(unit) {
            Ok(_) => {},
            Err(e) => {
                match &e {
                    EwsError::ResponseError(fault) => match &fault.response_code {
                        ResponseCode::ErrorItemNotFound => {},
                        _ => {
                            proof {
                                assert(!spec_delete_unit_ok(full[taken as int]));
                            }
                            let mut message = String::from_str(
                                "error while attempting to delete message ",
                            );
                            message.append(item_ids[taken].as_str());
                            message.append(": ");
                            message.append(fault.message.as_str());
                            return Err(EwsError::Processing { message });
                        },
                    },
                    _ => {
                        proof {
                            assert(false);
                        }
                    },
                }
            },
        }
        taken = taken + 1;
    }
    Ok(())
}

/// Judges a folder-delete response: every unit a success or a tolerated
/// "not found" for a folder already deleted remotely; any other per-unit
/// fault aborts the call with that fault.
pub fn delete_folder_outcome(units: Vec<ResponseClass<()>>) -> (r: Result<(), EwsError>)
    ensures
        (r matches Ok(())) <==> (forall|i: int|
            0 <= i < units@.len() ==> spec_delete_unit_ok(#[trigger] units@[i])),
        r matches Err(e) ==> exists|i: int|
            0 <= i < units@.len() && ((#[trigger] units@[i]) matches ResponseClass::Error(f) && e
                == EwsError::ResponseError(f)),
{
    let ghost full = units@;
    let mut remaining = units;
    let mut taken: usize = 0;
    let total = remaining.len();
    while taken < total
        invariant
            full == units@,
            full.len() == total,
            taken <= total,
            remaining@ == full.skip(taken as int),
            forall|i: int| 0 <= i < taken ==> spec_delete_unit_ok(#[trigger] full[i]),
        decreases total - taken,
    {
        let unit = remaining.remove(0);
        proof {
            assert(unit == full[taken as int]);
            assert(full.skip(taken as int).drop_first() =~= full.skip(taken as int + 1));
        }
        match process_response_message_class(unit) {
            Ok(_) => {},
            Err(e) => {
                let not_found = match &e {
                    EwsError::ResponseError(fault) => match &fault.response_code {
                        ResponseCode::ErrorItemNotFound => true,
                        _ => false,
                    },
                    _ => false,
                };
                if !not_found {
                    return Err(e);
                }
            },
        }
        taken = taken + 1;
    }
    Ok(())
}

/// The id of the first item of each unit's payload, for units that report
/// one; copy and move responses report the moved or copied entity there.
pub open spec fn spec_first_item_ids(units: Seq<ResponseClass<MutationMessage>>) -> Seq<Seq<char>>
    decreases units.len(),
{
    if units.len() == 0 {
        Seq::empty()
    } else {
        let rest = spec_first_item_ids(units.drop_last());
        let payload_ids = match units.last() {
            ResponseClass::Success(m) => m.item_ids@,
            ResponseClass::Warning(m) => m.item_ids@,
            ResponseClass::Error(..) => Seq::empty(),
        };
        if payload_ids.len() > 0 && payload_ids[0] is Some {
            rest.push(payload_ids[0]->0@)
        } else {
            rest
        }
    }
}

/// Collects the new ids a copy or move operation reports.
///
/// The response must carry one unit per submitted id; a count mismatch is an
/// error, never silently truncated or padded. Per-id failures do not abort
/// the call: each successful unit contributes the id of its first reported
/// item, when the server included one, and a caller that must detect
/// omissions diffs the result against its request.
pub fn copy_move_new_ids(units: Vec<ResponseClass<MutationMessage>>, expected_len: usize) -> (r:
    Result<Vec<String>, EwsError>)
    ensures
        units@.len() != expected_len ==> r == Err::<Vec<String>, EwsError>(
            EwsError::UnexpectedResponseMessageCount {
                expected: expected_len,
                actual: units@.len() as usize,
            },
        ),
        units@.len() == expected_len ==> (r matches Ok(ids) && ids@.map_values(|s: String| s@)
            == spec_first_item_ids(units@)),
{
    if units.len() != expected_len {
        return Err(
            EwsError::UnexpectedResponseMessageCount { expected: expected_len, actual: units.len() },
        );
    }
    let mut ids: Vec<String> = Vec::new();
    let ghost full = units@;
    let mut remaining = units;
    let mut taken: usize = 0;
    let total = remaining.len();
    proof {
        assert(full.take(0) =~= Seq::<ResponseClass<MutationMessage>>::empty());
        assert(ids@.map_values(|s: String| s@) =~= spec_first_item_ids(full.take(0)));
    }
    while taken < total
        invariant
            full == units@,
            full.len() == total,
            total == expected_len,
            taken <= total,
            remaining@ == full.skip(taken as int),
            ids@.map_values(|s: String| s@) == spec_first_item_ids(full.take(taken as int)),
        decreases total - taken,
    {
        let unit = remaining.remove(0);
        proof {
            assert(unit == full[taken as int]);
            assert(full.skip(taken as int).drop_first() =~= full.skip(taken as int + 1));
            assert(full.take(taken as int + 1).drop_last() =~= full.take(taken as int));
            assert(full.take(taken as int + 1).last() == full[taken as int]);
        }
        let ghost ids_before = ids@;
        match process_response_message_class(unit) {
            Ok(message) => {
                let mut item_ids = message.item_ids;
                if item_ids.len() > 0 {
                    let first = item_ids.remove(0);
                    if let Some(id) = first {
                        ids.push(id);
                        proof {
                            assert(ids@.map_values(|s: String| s@) =~= ids_before.map_values(
                                |s: String| s@,
                            ).push(spec_first_item_ids(full.take(taken as int + 1)).last()));
                        }
                    }
                }
            },
            Err(_) => {
                // Per-id failures are reported through the returned id set:
                // an id missing from it failed.
            },
        }
        proof {
            assert(ids@.map_values(|s: String| s@) =~= spec_first_item_ids(
                full.take(taken as int + 1),
            ));
        }
        taken = taken + 1;
    }
    proof {
        assert(full.take(total as int) =~= full);
    }
    Ok(ids)
}

/// One decoded junk-marking response unit's payload: the id the entity moved
/// to.
#[derive(Debug, Clone, PartialEq, Eq)]
pub struct JunkMessage {
    /// The moved entity's new id.
    pub moved_item_id: String,
}

/// The moved ids that the successful units of a junk-marking response
/// report, in response order; failed units contribute nothing.
pub open spec fn spec_junk_moved_ids(units: Seq<ResponseClass<JunkMessage>>) -> Seq<Seq<char>>
    decreases units.len(),
{
    if units.len() == 0 {
        Seq::empty()
    } else {
        let rest = spec_junk_moved_ids(units.drop_last());
        match units.last() {
            ResponseClass::Success(m) => rest.push(m.moved_item_id@),
            ResponseClass::Warning(m) => rest.push(m.moved_item_id@),
            ResponseClass::Error(..) => rest,
        }
    }
}

/// Collects the moved ids of a junk-marking response: one unit per submitted
/// id, per-id failures skipped rather than aborting the call.
pub fn collect_junk_successes(units: Vec<ResponseClass<JunkMessage>>, expected_len: usize) -> (r:
    Result<Vec<String>, EwsError>)
    ensures
        units@.len() != expected_len ==> (r matches Err(e) && e matches EwsError::Processing {
            message,
        } && message@ == crate::response::spec_count_mismatch_message(
            expected_len as int,
            units@.len() as int,
        )),
        units@.len() == expected_len ==> (r matches Ok(ids) && ids@.map_values(|s: String| s@)
            == spec_junk_moved_ids(units@)),
{
    if let Err(e) = crate::response::validate_response_message_count(&units, expected_len) {
        return Err(e);
    }
    let mut ids: Vec<String> = Vec::new();
    let ghost full = units@;
    let mut remaining = units;
    let mut taken: usize = 0;
    let total = remaining.len();
    proof {
        assert(full.take(0) =~= Seq::<ResponseClass<JunkMessage>>::empty());
        assert(ids@.map_values(|s: String| s@) =~= spec_junk_moved_ids(full.take(0)));
    }
    while taken < total
        invariant
            full == units@,
            full.len() == total,
            taken <= total,
            remaining@ == full.skip(taken as int),
            ids@.map_values(|s: String| s@) == spec_junk_moved_ids(full.take(taken as int)),
        decreases total - taken,
    {
        let unit = remaining.remove(0);
        proof {
            assert(unit == full[taken as int]);
            assert(full.skip(taken as int).drop_first() =~= full.skip(taken as int + 1));
            assert(full.take(taken as int + 1).drop_last() =~= full.take(taken as int));
            assert(full.take(taken as int + 1).last() == full[taken as int]);
        }
        let ghost ids_before = ids@;
        match process_response_message_class(unit) {
            Ok(message) => {
                ids.push(message.moved_item_id);
                proof {
                    assert(ids@.map_values(|s: String| s@) =~= ids_before.map_values(
                        |s: String| s@,
                    ).push(spec_junk_moved_ids(full.take(taken as int + 1)).last()));
                }
            },
            Err(_) => {
                // Per-id failures are skipped; the id is absent from the
                // result.
            },
        }
        taken = taken + 1;
    }
    proof {
        assert(full.take(total as int) =~= full);
    }
    Ok(ids)
}

/// How a junk-marking request is carried out for a given server version.
#[derive(Debug, Clone, Copy, PartialEq, Eq, Structural)]
pub enum JunkStrategy {
    /// The dedicated junk-marking operation, available on servers that
    /// support it.
    Modern,
    /// Moving the entities into the junk folder, for older servers.
    LegacyMove,
}

/// Picks how to mark entities as junk on a server of the given version.
///
/// The dedicated operation needs a new enough server; older servers fall
/// back to moving into the caller's junk folder, and without a junk folder
/// id the request cannot be honored at all.
pub fn junk_strategy(version: ExchangeServerVersion, legacy_junk_folder_id: &String) -> (r: Result<
    JunkStrategy,
    EwsError,
>)
    ensures
        version.spec_rank() >= ExchangeServerVersion::Exchange2013.spec_rank() ==> r == Ok::<
            JunkStrategy,
            EwsError,
        >(JunkStrategy::Modern),
        version.spec_rank() < ExchangeServerVersion::Exchange2013.spec_rank()
            && legacy_junk_folder_id@.len() > 0 ==> r == Ok::<JunkStrategy, EwsError>(
            JunkStrategy::LegacyMove,
        ),
        version.spec_rank() < ExchangeServerVersion::Exchange2013.spec_rank()
            && legacy_junk_folder_id@.len() == 0 ==> (r matches Err(e) && e matches
            EwsError::Processing { message } && message@
            == "junk marking is not supported on this server version and no junk folder id was provided"@),
{
    let modern = ExchangeServerVersion::Exchange2013;
    if modern.le(&version) {
        Ok(JunkStrategy::Modern)
    } else if legacy_junk_folder_id.as_str().unicode_len() > 0 {
        Ok(JunkStrategy::LegacyMove)
    } else {
        Err(
            EwsError::Processing {
                message: String::from_str(
                    "junk marking is not supported on this server version and no junk folder id was provided",
                ),
            },
        )
    }
}

/// Whether a server version supports requesting the new ids of moved or
/// copied entities; older servers must not be sent the field at all.
pub fn return_new_item_ids_field(version: ExchangeServerVersion) -> (r: Option<bool>)
    ensures
        version.spec_rank() <= ExchangeServerVersion::Exchange2010.spec_rank() ==> r is None,
        version.spec_rank() > ExchangeServerVersion::Exchange2010.spec_rank() ==> r == Some(true),
{
    if version.le(&ExchangeServerVersion::Exchange2010) {
        None
    } else {
        Some(true)
    }
}

/// Checks that a server version supports marking a whole folder as read;
/// the operation cannot be expressed to older servers.
pub fn ensure_mark_all_read_supported(version: ExchangeServerVersion) -> (r: Result<(), EwsError>)
    ensures
        version.spec_rank() >= ExchangeServerVersion::Exchange2013.spec_rank() ==> r matches Ok(
            (),
        ),
        version.spec_rank() < ExchangeServerVersion::Exchange2013.spec_rank() ==> (r matches Err(
            e,
        ) && e matches EwsError::Processing { message } && message@
            == "marking all entries as read requires a newer server version"@),
{
    let modern = ExchangeServerVersion::Exchange2013;
    if modern.le(&version) {
        Ok(())
    } else {
        Err(
            EwsError::Processing {
                message: String::from_str(
                    "marking all entries as read requires a newer server version",
                ),
            },
        )
    }
}

/// Judges a message-send response: exactly one unit must have come back —
/// any other count is an error, never silently truncated or padded — and
/// that unit's class decides.
pub fn send_message_outcome(units: Vec<ResponseClass<()>>) -> (r: Result<(), EwsError>)
    ensures
        units@.len() != 1 ==> (r matches Err(e) && e matches EwsError::Processing { message }
            && message@ == "expected exactly one response message for SendMessage, got "@
            + spec_decimal_digits(units@.len() as int)),
        units@.len() == 1 ==> r == crate::response::spec_process_unit(units@[0]),
{
    if units.len() != 1 {
        let mut message = String::from_str(
            "expected exactly one response message for SendMessage, got ",
        );
        message.append(decimal_string(units.len() as u64).as_str());
        return Err(EwsError::Processing { message });
    }
    let mut units = units;
    let unit = units.remove(0);
    match process_response_message_class(unit) {
        Ok(_) => Ok(()),
        Err(e) => Err(e),
    }
}

/// Judges a response that should carry exactly one unit with no payload to
/// read, as whole-folder read-marking and folder renaming do: the first
/// unit's class decides, extra units beyond the first being ignored.
pub fn single_unit_outcome(units: Vec<ResponseClass<()>>) -> (r: Result<(), EwsError>)
    ensures
        units@.len() == 0 ==> (r matches Err(e) && e matches EwsError::Processing { message }
            && message@ == "expected 1 response message, got none"@),
        units@.len() > 0 ==> r == crate::response::spec_process_unit(units@[0]),
{
    let unit = match crate::response::single_response_or_error(units) {
        Ok(unit) => unit,
        Err(e) => {
            return Err(e);
        },
    };
    match process_response_message_class(unit) {
        Ok(_) => Ok(()),
        Err(e) => Err(e),
    }
}

/// The result of creating a message on the server.
#[derive(Debug, Clone, PartialEq, Eq)]
pub struct CreateMessageResult {
    /// The id of the newly created message.
    pub item_id: String,
}

/// Extracts the id of the one item a message-creation response reports.
pub fn created_message_result(message: MutationMessage) -> (r: Result<
    CreateMessageResult,
    EwsError,
>)
    ensures
        message.item_ids@.len() != 1 ==> (r matches Err(e) && e matches EwsError::Processing {
            message: text,
        } && text@ == "expected exactly one item in CreateItem response, got "@
            + spec_decimal_digits(message.item_ids@.len() as int)),
        message.item_ids@.len() == 1 && message.item_ids@[0] is None ==> r == Err::<
            CreateMessageResult,
            EwsError,
        >(EwsError::MissingIdInResponse),
        message.item_ids@.len() == 1 ==> (match message.item_ids@[0] {
            Some(id) => r matches Ok(result) && result.item_id == id,
            None => true,
        }),
{
    if message.item_ids.len() != 1 {
        let mut text = String::from_str("expected exactly one item in CreateItem response, got ");
        text.append(decimal_string(message.item_ids.len() as u64).as_str());
        return Err(EwsError::Processing { message: text });
    }
    let mut message = message;
    match message.item_ids.remove(0) {
        Some(item_id) => Ok(CreateMessageResult { item_id }),
        None => Err(EwsError::MissingIdInResponse),
    }
}

} // verus!
