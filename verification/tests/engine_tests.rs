//! Engine behavior: consolidation, batching, dispatch retries, partial
//! failure policies, version gating, and the version registry.

use ews_client_core::batch::{chunk_ids, concat_all, BATCH_CHUNK_SIZE};
use ews_client_core::consolidate::{ChangeConsolidation, ChangeEvent, EntryFate};
use ews_client_core::credentials::Credentials;
use ews_client_core::dispatch::{
    dispatch_decision, run_dispatch_script, AttemptOutcome, DispatchDecision,
    OperationRequestOptions,
};
use ews_client_core::endpoint::host_is_office365;
use ews_client_core::error::{EwsError, ResponseCode, ResponseFault};
use ews_client_core::folders::{
    collect_mail_folders, created_folder_id, folder_details, is_distinguished_folder_id,
    resolve_well_known_folders, validate_get_folder_response_message, well_known_folder_names,
    FolderData, GetFolderMessage,
};
use ews_client_core::items::{collect_item_payloads, extract_message_content, GetItemMessage, ItemData};
use ews_client_core::ops::{
    collect_junk_successes, collect_mutation_successes, copy_move_new_ids, created_message_result,
    delete_folder_outcome, delete_messages_outcome, ensure_mark_all_read_supported, junk_strategy,
    message_flags, return_new_item_ids_field, send_message_outcome, single_unit_outcome,
    JunkMessage, JunkStrategy, MutationMessage,
};
use ews_client_core::registry::VersionRegistry;
use ews_client_core::response::{
    process_response_message_class, single_response_or_error, validate_response_message_count,
    ResponseClass,
};
use ews_client_core::sync::{message_sync_result, SyncPage, SyncSession};
use ews_client_core::text::{decimal_string, str_eq};
use ews_client_core::version::{version_from_wire, ExchangeServerVersion};

fn fault(code: ResponseCode) -> ResponseFault {
    ResponseFault {
        response_code: code,
        message: "server-reported failure".to_string(),
        back_off_milliseconds: None,
    }
}

fn create(id: &str) -> ChangeEvent {
    ChangeEvent::Create { id: id.to_string() }
}

fn update(id: &str) -> ChangeEvent {
    ChangeEvent::Update { id: id.to_string() }
}

fn delete(id: &str) -> ChangeEvent {
    ChangeEvent::Delete { id: id.to_string() }
}

fn flag(id: &str, is_read: bool) -> ChangeEvent {
    ChangeEvent::ReadFlagChange { id: id.to_string(), is_read }
}

fn fates(events: Vec<ChangeEvent>) -> (Vec<String>, Vec<String>, Vec<String>) {
    let c = ChangeConsolidation::consolidate_events(events);
    (
        c.ids_with_fate(EntryFate::Created),
        c.ids_with_fate(EntryFate::Updated),
        c.ids_with_fate(EntryFate::Deleted),
    )
}

// ---------------------------------------------------------------------------
// Consolidation
// ---------------------------------------------------------------------------

#[test]
fn consolidation_delete_wins_over_everything() {
    let (created, updated, deleted) = fates(vec![create("a"), update("a"), delete("a")]);
    assert!(created.is_empty());
    assert!(updated.is_empty());
    assert_eq!(deleted, vec!["a".to_string()]);
}

#[test]
fn consolidation_create_then_update_stays_created() {
    let (created, updated, deleted) = fates(vec![create("a"), update("a")]);
    assert_eq!(created, vec!["a".to_string()]);
    assert!(updated.is_empty());
    assert!(deleted.is_empty());
}

#[test]
fn consolidation_update_only_stays_updated() {
    let (created, updated, deleted) = fates(vec![update("b"), update("b")]);
    assert!(created.is_empty());
    assert_eq!(updated, vec!["b".to_string()]);
    assert!(deleted.is_empty());
}

#[test]
fn consolidation_mixes_ids_independently() {
    let (created, updated, deleted) = fates(vec![
        create("a"),
        update("b"),
        delete("c"),
        update("a"),
        delete("b"),
    ]);
    assert_eq!(created, vec!["a".to_string()]);
    assert!(updated.is_empty());
    assert_eq!(deleted, vec!["b".to_string(), "c".to_string()]);
}

#[test]
fn consolidation_read_flags_last_value_wins() {
    let c = ChangeConsolidation::consolidate_events(vec![
        flag("a", true),
        flag("b", false),
        flag("a", false),
    ]);
    let pairs = c.read_flag_pairs();
    assert_eq!(pairs.len(), 2);
    assert_eq!(pairs[0].id, "a");
    assert!(!pairs[0].is_read);
    assert_eq!(pairs[1].id, "b");
    assert!(!pairs[1].is_read);
}

#[test]
fn consolidation_recreate_after_delete_is_alive() {
    let (created, _updated, deleted) = fates(vec![delete("a"), create("a")]);
    assert_eq!(created, vec!["a".to_string()]);
    assert!(deleted.is_empty());
}

// ---------------------------------------------------------------------------
// Sync session
// ---------------------------------------------------------------------------

#[test]
fn sync_session_pages_consolidate_across_pages() {
    let mut session = SyncSession::new(Some("start-token".to_string()));
    session.apply_page(SyncPage {
        events: vec![create("a"), create("b"), flag("b", true)],
        sync_state: "token-1".to_string(),
        includes_last: false,
    });
    assert!(!session.done);
    assert_eq!(session.sync_state, Some("token-1".to_string()));
    session.apply_page(SyncPage {
        events: vec![delete("a"), update("b")],
        sync_state: "token-2".to_string(),
        includes_last: true,
    });
    assert!(session.done);
    let result = message_sync_result(session);
    assert_eq!(result.created, vec!["b".to_string()]);
    assert!(result.updated.is_empty());
    assert_eq!(result.deleted, vec!["a".to_string()]);
    assert_eq!(result.read_status_changed, vec![("b".to_string(), true)]);
    assert_eq!(result.sync_state, "token-2");
    assert!(result.includes_last_item);
}

#[test]
fn sync_session_deleted_never_under_updated() {
    let mut session = SyncSession::new(None);
    session.apply_page(SyncPage {
        events: vec![update("x"), delete("x")],
        sync_state: "t".to_string(),
        includes_last: true,
    });
    let result = message_sync_result(session);
    assert!(result.updated.is_empty());
    assert_eq!(result.deleted, vec!["x".to_string()]);
}

// ---------------------------------------------------------------------------
// Batching
// ---------------------------------------------------------------------------

#[test]
fn chunking_makes_ceil_n_over_10_chunks() {
    let ids: Vec<String> = (0..25).map(|i| format!("id-{i}")).collect();
    let chunks = chunk_ids(ids.clone(), BATCH_CHUNK_SIZE);
    assert_eq!(chunks.len(), 3);
    assert_eq!(chunks[0].len(), 10);
    assert_eq!(chunks[1].len(), 10);
    assert_eq!(chunks[2].len(), 5);
    let flattened: Vec<String> = chunks.into_iter().flatten().collect();
    assert_eq!(flattened, ids);
}

#[test]
fn chunking_exact_multiple_and_empty() {
    let ids: Vec<String> = (0..20).map(|i| format!("id-{i}")).collect();
    assert_eq!(chunk_ids(ids, 10).len(), 2);
    assert_eq!(chunk_ids(Vec::new(), 10).len(), 0);
    assert_eq!(chunk_ids(vec!["one".to_string()], 10).len(), 1);
}

#[test]
fn concat_preserves_per_chunk_results_in_order() {
    let parts = vec![
        vec![1, 2, 3],
        vec![],
        vec![4, 5],
    ];
    assert_eq!(concat_all(parts), vec![1, 2, 3, 4, 5]);
}

// ---------------------------------------------------------------------------
// Dispatch and throttling
// ---------------------------------------------------------------------------

#[test]
fn dispatch_throttles_twice_then_succeeds_in_three_attempts() {
    let script = vec![
        AttemptOutcome::Decoded { first_unit_back_off_milliseconds: Some(50) },
        AttemptOutcome::DecodeFault { back_off_milliseconds: Some(25), detail: "busy".to_string() },
        AttemptOutcome::Decoded { first_unit_back_off_milliseconds: None },
    ];
    let run = run_dispatch_script(&OperationRequestOptions::default(), script).unwrap();
    assert_eq!(run.attempts, 3);
    assert_eq!(run.total_delay_milliseconds, 75);
    assert_eq!(run.verdict, DispatchDecision::Deliver);
}

#[test]
fn dispatch_stops_at_first_non_throttling_outcome() {
    let script = vec![
        AttemptOutcome::Decoded { first_unit_back_off_milliseconds: Some(10) },
        AttemptOutcome::AuthenticationFailed,
        AttemptOutcome::Decoded { first_unit_back_off_milliseconds: None },
    ];
    let run = run_dispatch_script(&OperationRequestOptions::default(), script).unwrap();
    assert_eq!(run.attempts, 2);
    assert_eq!(run.total_delay_milliseconds, 10);
    assert_eq!(run.verdict, DispatchDecision::Fail(EwsError::Authentication));
}

#[test]
fn dispatch_all_throttling_script_never_settles() {
    let script = vec![
        AttemptOutcome::Decoded { first_unit_back_off_milliseconds: Some(5) },
        AttemptOutcome::DecodeFault { back_off_milliseconds: Some(5), detail: "busy".to_string() },
    ];
    assert!(run_dispatch_script(&OperationRequestOptions::default(), script).is_none());
}

#[test]
fn dispatch_decode_fault_without_backoff_is_protocol_error() {
    let decision = dispatch_decision(
        &OperationRequestOptions::default(),
        AttemptOutcome::DecodeFault { back_off_milliseconds: None, detail: "bad xml".to_string() },
    );
    assert_eq!(
        decision,
        DispatchDecision::Fail(EwsError::Protocol { detail: "bad xml".to_string() })
    );
}

#[test]
fn dispatch_http_failure_carries_status_in_message() {
    let decision = dispatch_decision(
        &OperationRequestOptions::default(),
        AttemptOutcome::HttpFailure { status: 503 },
    );
    match decision {
        DispatchDecision::Fail(EwsError::Processing { message }) => {
            assert_eq!(message, "HTTP request failed with status: 503");
        }
        other => panic!("unexpected decision: {other:?}"),
    }
}

#[test]
fn decimal_rendering_is_exact() {
    assert_eq!(decimal_string(0), "0");
    assert_eq!(decimal_string(7), "7");
    assert_eq!(decimal_string(10), "10");
    assert_eq!(decimal_string(90210), "90210");
    assert_eq!(decimal_string(u64::MAX), "18446744073709551615");
}

// ---------------------------------------------------------------------------
// Delete partial failure
// ---------------------------------------------------------------------------

#[test]
fn delete_tolerates_not_found_in_the_middle() {
    let ids: Vec<String> = vec!["m1".to_string(), "m2".to_string(), "m3".to_string()];
    let units: Vec<ResponseClass<()>> = vec![
        ResponseClass::Success(()),
        ResponseClass::Error(fault(ResponseCode::ErrorItemNotFound)),
        ResponseClass::Success(()),
    ];
    assert_eq!(delete_messages_outcome(units, &ids), Ok(()));
}

#[test]
fn delete_aborts_on_other_errors_naming_the_id() {
    let ids: Vec<String> = vec!["m1".to_string(), "m2".to_string()];
    let units: Vec<ResponseClass<()>> = vec![
        ResponseClass::Success(()),
        ResponseClass::Error(fault(ResponseCode::ErrorServerBusy)),
    ];
    match delete_messages_outcome(units, &ids) {
        Err(EwsError::Processing { message }) => {
            assert_eq!(
                message,
                "error while attempting to delete message m2: server-reported failure"
            );
        }
        other => panic!("unexpected outcome: {other:?}"),
    }
}

#[test]
fn delete_rejects_count_mismatch_reporting_counts() {
    let ids: Vec<String> = vec!["m1".to_string(), "m2".to_string()];
    let units: Vec<ResponseClass<()>> = vec![ResponseClass::Success(())];
    match delete_messages_outcome(units, &ids) {
        Err(EwsError::Processing { message }) => {
            assert_eq!(
                message,
                "response contained an unexpected number of response messages: expected 2, got 1"
            );
        }
        other => panic!("unexpected outcome: {other:?}"),
    }
}

#[test]
fn delete_folder_tolerates_remote_deletion() {
    let units: Vec<ResponseClass<()>> = vec![
        ResponseClass::Error(fault(ResponseCode::ErrorItemNotFound)),
        ResponseClass::Success(()),
    ];
    assert_eq!(delete_folder_outcome(units), Ok(()));

    let units: Vec<ResponseClass<()>> = vec![
        ResponseClass::Error(fault(ResponseCode::ErrorFolderNotFound)),
    ];
    assert!(matches!(
        delete_folder_outcome(units),
        Err(EwsError::ResponseError(_))
    ));
}

// ---------------------------------------------------------------------------
// Mutation partial failure
// ---------------------------------------------------------------------------

fn mutation_unit(ids: &[&str]) -> ResponseClass<MutationMessage> {
    ResponseClass::Success(MutationMessage {
        item_ids: ids.iter().map(|id| Some(id.to_string())).collect(),
    })
}

#[test]
fn mutation_returns_successful_ids_and_does_not_raise() {
    let units = vec![
        mutation_unit(&["a"]),
        ResponseClass::Error(fault(ResponseCode::ErrorServerBusy)),
    ];
    let ids = collect_mutation_successes(units, 2).unwrap();
    assert_eq!(ids, vec!["a".to_string()]);
}

#[test]
fn mutation_count_mismatch_is_a_processing_error() {
    let units = vec![mutation_unit(&["a"])];
    assert_eq!(
        collect_mutation_successes(units, 2),
        Err(EwsError::UnexpectedResponseMessageCount { expected: 2, actual: 1 })
    );
}

#[test]
fn mutation_skips_omitted_ids() {
    let units = vec![ResponseClass::Success(MutationMessage {
        item_ids: vec![Some("a".to_string()), None, Some("b".to_string())],
    })];
    let ids = collect_mutation_successes(units, 1).unwrap();
    assert_eq!(ids, vec!["a".to_string(), "b".to_string()]);
}

// ---------------------------------------------------------------------------
// Copy/move and version gating
// ---------------------------------------------------------------------------

#[test]
fn copy_move_collects_new_ids() {
    let units = vec![mutation_unit(&["new-1"]), mutation_unit(&["new-2"])];
    assert_eq!(
        copy_move_new_ids(units, 2).unwrap(),
        vec!["new-1".to_string(), "new-2".to_string()]
    );
}

#[test]
fn copy_move_returns_successful_ids_and_does_not_raise() {
    let units = vec![
        mutation_unit(&["new-1"]),
        ResponseClass::Error(fault(ResponseCode::ErrorItemNotFound)),
    ];
    assert_eq!(copy_move_new_ids(units, 2).unwrap(), vec!["new-1".to_string()]);
}

#[test]
fn copy_move_count_mismatch_is_rejected() {
    let units = vec![mutation_unit(&["new-1"])];
    assert_eq!(
        copy_move_new_ids(units, 2),
        Err(EwsError::UnexpectedResponseMessageCount { expected: 2, actual: 1 })
    );
}

#[test]
fn return_new_ids_field_is_omitted_below_minimum_version() {
    assert_eq!(return_new_item_ids_field(ExchangeServerVersion::Exchange2007), None);
    assert_eq!(return_new_item_ids_field(ExchangeServerVersion::Exchange2010), None);
    assert_eq!(
        return_new_item_ids_field(ExchangeServerVersion::Exchange2010_SP1),
        Some(true)
    );
    assert_eq!(
        return_new_item_ids_field(ExchangeServerVersion::Exchange2013_SP1),
        Some(true)
    );
}

#[test]
fn junk_strategy_follows_server_version() {
    let junk_folder = "junk-folder-id".to_string();
    let no_folder = String::new();
    assert_eq!(
        junk_strategy(ExchangeServerVersion::Exchange2013, &no_folder),
        Ok(JunkStrategy::Modern)
    );
    assert_eq!(
        junk_strategy(ExchangeServerVersion::Exchange2010_SP2, &junk_folder),
        Ok(JunkStrategy::LegacyMove)
    );
    assert!(matches!(
        junk_strategy(ExchangeServerVersion::Exchange2010_SP2, &no_folder),
        Err(EwsError::Processing { .. })
    ));
}

#[test]
fn junk_successes_skip_failed_units() {
    let units = vec![
        ResponseClass::Success(JunkMessage { moved_item_id: "m1".to_string() }),
        ResponseClass::Error(fault(ResponseCode::ErrorItemNotFound)),
        ResponseClass::Warning(JunkMessage { moved_item_id: "m3".to_string() }),
    ];
    assert_eq!(
        collect_junk_successes(units, 3).unwrap(),
        vec!["m1".to_string(), "m3".to_string()]
    );
}

#[test]
fn mark_all_read_requires_new_enough_server() {
    assert_eq!(ensure_mark_all_read_supported(ExchangeServerVersion::Exchange2013), Ok(()));
    assert!(matches!(
        ensure_mark_all_read_supported(ExchangeServerVersion::Exchange2010_SP2),
        Err(EwsError::Processing { .. })
    ));
}

#[test]
fn message_flags_distinguish_drafts() {
    assert_eq!(message_flags(true), 0x0001 | 0x0008);
    assert_eq!(message_flags(false), 0x0001 | 0x0002);
}

// ---------------------------------------------------------------------------
// Single-unit responses and creation results
// ---------------------------------------------------------------------------

#[test]
fn send_outcome_requires_exactly_one_unit() {
    assert_eq!(send_message_outcome(vec![ResponseClass::Success(())]), Ok(()));
    match send_message_outcome(vec![ResponseClass::Success(()), ResponseClass::Success(())]) {
        Err(EwsError::Processing { message }) => {
            assert_eq!(message, "expected exactly one response message for SendMessage, got 2");
        }
        other => panic!("unexpected outcome: {other:?}"),
    }
    match send_message_outcome(vec![]) {
        Err(EwsError::Processing { message }) => {
            assert_eq!(message, "expected exactly one response message for SendMessage, got 0");
        }
        other => panic!("unexpected outcome: {other:?}"),
    }
    assert!(matches!(
        send_message_outcome(vec![ResponseClass::<()>::Error(fault(
            ResponseCode::ErrorServerBusy
        ))]),
        Err(EwsError::ResponseError(_))
    ));
}

#[test]
fn single_unit_outcome_classifies_the_unit() {
    assert_eq!(single_unit_outcome(vec![ResponseClass::Success(())]), Ok(()));
    assert!(matches!(
        single_unit_outcome(vec![]),
        Err(EwsError::Processing { .. })
    ));
    assert!(matches!(
        single_unit_outcome(vec![ResponseClass::<()>::Error(fault(ResponseCode::ErrorServerBusy))]),
        Err(EwsError::ResponseError(_))
    ));
}

#[test]
fn created_message_result_needs_exactly_one_id() {
    let ok = created_message_result(MutationMessage {
        item_ids: vec![Some("new-message".to_string())],
    })
    .unwrap();
    assert_eq!(ok.item_id, "new-message");

    assert_eq!(
        created_message_result(MutationMessage { item_ids: vec![None] }),
        Err(EwsError::MissingIdInResponse)
    );
    match created_message_result(MutationMessage { item_ids: vec![] }) {
        Err(EwsError::Processing { message }) => {
            assert_eq!(message, "expected exactly one item in CreateItem response, got 0");
        }
        other => panic!("unexpected outcome: {other:?}"),
    }
}

#[test]
fn response_unit_classification() {
    assert_eq!(process_response_message_class(ResponseClass::Success(7)), Ok(7));
    assert_eq!(process_response_message_class(ResponseClass::Warning(7)), Ok(7));
    assert!(matches!(
        process_response_message_class(ResponseClass::<u32>::Error(fault(ResponseCode::NoError))),
        Err(EwsError::ResponseError(_))
    ));
    assert_eq!(single_response_or_error(vec![1, 2]), Ok(1));
    assert!(validate_response_message_count(&vec![ResponseClass::Success(1)], 1).is_ok());
    assert!(validate_response_message_count(&vec![ResponseClass::Success(1)], 2).is_err());
}

// ---------------------------------------------------------------------------
// Folder payloads and well-known folder resolution
// ---------------------------------------------------------------------------

fn plain_folder(id: &str, parent: &str, name: &str, class: Option<&str>) -> FolderData {
    FolderData {
        is_folder: true,
        folder_id: Some(id.to_string()),
        parent_folder_id: Some(parent.to_string()),
        display_name: Some(name.to_string()),
        folder_class: class.map(|c| c.to_string()),
        total_count: Some(0),
        unread_count: Some(0),
        child_folder_count: Some(0),
    }
}

fn folder_unit(id: &str, class: Option<&str>) -> ResponseClass<GetFolderMessage> {
    ResponseClass::Success(GetFolderMessage {
        folders: vec![plain_folder(id, "root", "Folder", class)],
    })
}

#[test]
fn validate_folder_payload_rules() {
    let valid = GetFolderMessage { folders: vec![plain_folder("f1", "root", "A", None)] };
    assert_eq!(validate_get_folder_response_message(&valid).unwrap(), "f1");

    let empty = GetFolderMessage { folders: vec![] };
    assert!(matches!(
        validate_get_folder_response_message(&empty),
        Err(EwsError::Processing { .. })
    ));

    let mut no_id = plain_folder("x", "root", "A", None);
    no_id.folder_id = None;
    let no_id_message = GetFolderMessage { folders: vec![no_id] };
    assert_eq!(
        validate_get_folder_response_message(&no_id_message),
        Err(EwsError::MissingIdInResponse)
    );

    let mut other_kind = plain_folder("x", "root", "A", None);
    other_kind.is_folder = false;
    let other_kind_message = GetFolderMessage { folders: vec![other_kind] };
    assert!(matches!(
        validate_get_folder_response_message(&other_kind_message),
        Err(EwsError::Processing { .. })
    ));
}

#[test]
fn mail_folder_filter_keeps_mail_classes_only() {
    let units = vec![
        folder_unit("f1", Some("IPF.Note")),
        folder_unit("f2", Some("IPF.Note.Custom")),
        folder_unit("f3", Some("IPF.Appointment")),
        folder_unit("f4", None),
    ];
    let folders = collect_mail_folders(units).unwrap();
    let ids: Vec<_> = folders.iter().map(|f| f.folder_id.clone().unwrap()).collect();
    assert_eq!(ids, vec!["f1".to_string(), "f2".to_string()]);
}

#[test]
fn mail_folder_collection_aborts_on_unit_error() {
    let units = vec![
        folder_unit("f1", Some("IPF.Note")),
        ResponseClass::Error(fault(ResponseCode::ErrorFolderNotFound)),
    ];
    assert!(collect_mail_folders(units).is_err());
}

#[test]
fn folder_details_require_ids_and_names() {
    let details = folder_details(vec![plain_folder("f1", "p1", "Inbox", Some("IPF.Note"))]).unwrap();
    assert_eq!(details.len(), 1);
    assert_eq!(details[0].folder_id, "f1");
    assert_eq!(details[0].parent_folder_id, "p1");
    assert_eq!(details[0].display_name, "Inbox");

    let mut missing_parent = plain_folder("f1", "p1", "Inbox", None);
    missing_parent.parent_folder_id = None;
    assert_eq!(
        folder_details(vec![missing_parent]),
        Err(EwsError::MissingIdInResponse)
    );

    let mut missing_name = plain_folder("f1", "p1", "Inbox", None);
    missing_name.display_name = None;
    assert!(matches!(
        folder_details(vec![missing_name]),
        Err(EwsError::Processing { .. })
    ));
}

#[test]
fn created_folder_id_rules() {
    let message = GetFolderMessage { folders: vec![plain_folder("new-folder", "p", "N", None)] };
    assert_eq!(created_folder_id(message).unwrap(), "new-folder");
}

#[test]
fn well_known_resolution_tolerates_missing_optional_folders() {
    let names: Vec<String> = vec!["msgfolderroot", "inbox", "archive"]
        .into_iter()
        .map(|s| s.to_string())
        .collect();
    let units = vec![
        folder_unit("root-id", None),
        folder_unit("inbox-id", None),
        ResponseClass::Error(fault(ResponseCode::ErrorFolderNotFound)),
    ];
    let resolved = resolve_well_known_folders(units, &names).unwrap();
    assert_eq!(resolved.len(), 1);
    assert_eq!(resolved[0].folder_id, "inbox-id");
    assert_eq!(resolved[0].distinguished_id, "inbox");
}

#[test]
fn well_known_resolution_root_failure_is_fatal() {
    let names: Vec<String> = vec!["msgfolderroot", "inbox"]
        .into_iter()
        .map(|s| s.to_string())
        .collect();
    let units = vec![
        ResponseClass::Error(fault(ResponseCode::ErrorFolderNotFound)),
        folder_unit("inbox-id", None),
    ];
    assert!(matches!(
        resolve_well_known_folders(units, &names),
        Err(EwsError::ResponseError(_))
    ));
}

#[test]
fn well_known_resolution_other_errors_abort() {
    let names: Vec<String> = vec!["msgfolderroot", "inbox"]
        .into_iter()
        .map(|s| s.to_string())
        .collect();
    let units = vec![
        folder_unit("root-id", None),
        ResponseClass::Error(fault(ResponseCode::Other("ErrorAccessDenied".to_string()))),
    ];
    assert!(resolve_well_known_folders(units, &names).is_err());
}

#[test]
fn well_known_names_start_with_root() {
    let names = well_known_folder_names();
    assert_eq!(names[0], "msgfolderroot");
    assert_eq!(names.len(), 8);
    assert!(names.contains(&"archive".to_string()));
}

// ---------------------------------------------------------------------------
// Item payloads and message content
// ---------------------------------------------------------------------------

fn item(id: &str, mime: Option<&str>) -> ItemData {
    ItemData {
        item_id: Some(id.to_string()),
        mime_content: mime.map(|m| m.to_string()),
        is_read: None,
        internet_message_id: None,
        date_time_sent: None,
        from: None,
        subject: None,
        has_attachments: None,
        size: None,
    }
}

#[test]
fn item_collection_flattens_units() {
    let units = vec![
        ResponseClass::Success(GetItemMessage { items: vec![item("i1", None)] }),
        ResponseClass::Success(GetItemMessage { items: vec![item("i2", None), item("i3", None)] }),
    ];
    let items = collect_item_payloads(units).unwrap();
    let ids: Vec<_> = items.iter().map(|i| i.item_id.clone().unwrap()).collect();
    assert_eq!(ids, vec!["i1".to_string(), "i2".to_string(), "i3".to_string()]);
}

#[test]
fn stored_content_round_trips_through_the_encoding() {
    let credentials = Credentials::basic("user".to_string(), "password".to_string());
    let header = credentials.to_auth_header();
    let encoded = header.strip_prefix("Basic ").unwrap();
    let content = extract_message_content(vec![item("i1", Some(encoded))]).unwrap();
    assert_eq!(content, b"user:password");
}

#[test]
fn message_content_is_base64_decoded() {
    let content = extract_message_content(vec![item("i1", Some("SGVsbG8="))]).unwrap();
    assert_eq!(content, b"Hello");
}

#[test]
fn message_content_rejects_invalid_base64() {
    match extract_message_content(vec![item("i1", Some("!!!not-base64!!!"))]) {
        Err(EwsError::Processing { message }) => {
            assert_eq!(message, "MIME content for item is not validly base64 encoded");
        }
        other => panic!("unexpected outcome: {other:?}"),
    }
}

#[test]
fn message_content_requires_one_item_with_content() {
    match extract_message_content(vec![item("i1", None), item("i2", None)]) {
        Err(EwsError::Processing { message }) => {
            assert_eq!(message, "provided single ID to GetItem operation, got 2 responses");
        }
        other => panic!("unexpected outcome: {other:?}"),
    }
    assert!(matches!(
        extract_message_content(vec![item("i1", None)]),
        Err(EwsError::Processing { .. })
    ));
}

// ---------------------------------------------------------------------------
// Version registry
// ---------------------------------------------------------------------------

#[test]
fn test_read_default_version() {
    let endpoint = "https://test.example.com/EWS/Exchange.asmx".to_string();
    let registry = VersionRegistry::new();
    let version = registry.read_server_version(&endpoint);
    assert_eq!(version, ExchangeServerVersion::Exchange2007_SP1);
}

#[test]
fn test_store_and_read_version() {
    let endpoint = "https://test2.example.com/EWS/Exchange.asmx".to_string();
    let version = ExchangeServerVersion::Exchange2013_SP1;

    let mut registry = VersionRegistry::new();
    registry.store_server_version(&endpoint, version);
    let read_version = registry.read_server_version(&endpoint);

    assert_eq!(read_version, version);
}

#[test]
fn test_update_from_header() {
    let endpoint = "https://test3.example.com/EWS/Exchange.asmx".to_string();
    let mut registry = VersionRegistry::new();

    let header = Some("Exchange2013_SP1".to_string());
    let version = registry.update_server_version_from_header(&endpoint, header.as_ref());
    assert_eq!(version, ExchangeServerVersion::Exchange2013_SP1);

    let cached_version = registry.read_server_version(&endpoint);
    assert_eq!(cached_version, ExchangeServerVersion::Exchange2013_SP1);
}

#[test]
fn test_update_from_header_unknown_version() {
    let endpoint = "https://test4.example.com/EWS/Exchange.asmx".to_string();
    let mut registry = VersionRegistry::new();

    let header = Some("Exchange2025_Unknown".to_string());
    let version = registry.update_server_version_from_header(&endpoint, header.as_ref());
    // An unknown identifier records the most recent known version
    assert_eq!(version, ExchangeServerVersion::Exchange2013_SP1);
}

#[test]
fn test_update_from_header_empty_version() {
    let endpoint = "https://test5.example.com/EWS/Exchange.asmx".to_string();
    let mut registry = VersionRegistry::new();

    registry.store_server_version(&endpoint, ExchangeServerVersion::Exchange2010);

    let header = Some(String::new());
    let version = registry.update_server_version_from_header(&endpoint, header.as_ref());
    // A header without a version identifier leaves the record unchanged
    assert_eq!(version, ExchangeServerVersion::Exchange2010);
}

#[test]
fn version_wire_identifiers_parse_exactly() {
    assert_eq!(
        version_from_wire("Exchange2007_SP1"),
        Some(ExchangeServerVersion::Exchange2007_SP1)
    );
    assert_eq!(
        version_from_wire("Exchange2010_SP2"),
        Some(ExchangeServerVersion::Exchange2010_SP2)
    );
    assert_eq!(version_from_wire("Exchange2026"), None);
    assert_eq!(version_from_wire(""), None);
}

#[test]
fn version_order_is_total_and_increasing() {
    let versions = [
        ExchangeServerVersion::Exchange2007,
        ExchangeServerVersion::Exchange2007_SP1,
        ExchangeServerVersion::Exchange2010,
        ExchangeServerVersion::Exchange2010_SP1,
        ExchangeServerVersion::Exchange2010_SP2,
        ExchangeServerVersion::Exchange2013,
        ExchangeServerVersion::Exchange2013_SP1,
    ];
    for (i, a) in versions.iter().enumerate() {
        for (j, b) in versions.iter().enumerate() {
            assert_eq!(a.le(b), i <= j);
        }
    }
}

// ---------------------------------------------------------------------------
// Credentials, hosts, ids, helpers
// ---------------------------------------------------------------------------

#[test]
fn basic_credentials_encode_to_the_expected_header() {
    let credentials = Credentials::basic("user".to_string(), "password".to_string());
    assert_eq!(credentials.to_auth_header(), "Basic dXNlcjpwYXNzd29yZA==");
}

#[test]
fn oauth_credentials_use_the_bearer_scheme() {
    let credentials = Credentials::oauth2("token123".to_string());
    assert_eq!(credentials.to_auth_header(), "Bearer token123");
}

#[test]
fn office365_hosts_are_recognized_by_suffix() {
    assert!(host_is_office365("outlook.office365.com"));
    assert!(host_is_office365("tenant.onmicrosoft.com"));
    assert!(host_is_office365("mail.outlook.com"));
    assert!(host_is_office365("exchange.microsoft"));
    assert!(!host_is_office365("mail.example.com"));
    assert!(!host_is_office365("office365.com.evil.example"));
}

#[test]
fn distinguished_folder_ids_are_recognized() {
    assert!(is_distinguished_folder_id("inbox"));
    assert!(is_distinguished_folder_id("msgfolderroot"));
    assert!(is_distinguished_folder_id("archivemsgfolderroot"));
    assert!(is_distinguished_folder_id("favorites"));
    assert!(!is_distinguished_folder_id("Inbox"));
    assert!(!is_distinguished_folder_id("my-custom-folder"));
    assert!(!is_distinguished_folder_id(""));
}

#[test]
fn error_kind_labels_name_the_variant() {
    assert_eq!(EwsError::Authentication.kind_label(), "authentication");
    assert_eq!(
        EwsError::Processing { message: "m".to_string() }.kind_label(),
        "processing"
    );
    assert_eq!(EwsError::MissingIdInResponse.kind_label(), "missing id in response");
}

#[test]
fn str_eq_compares_by_characters() {
    assert!(str_eq("abc", "abc"));
    assert!(!str_eq("abc", "abd"));
    assert!(!str_eq("abc", "ab"));
    assert!(str_eq("", ""));
}
