//! Folder payload processing: validation, detail mapping, mail-folder
//! filtering, and well-known folder resolution.

use vstd::prelude::*;

use crate::error::{EwsError, ResponseCode};
use crate::response::{process_response_message_class, ResponseClass};
use crate::text::{decimal_string, spec_decimal_digits, spec_starts_with, str_eq, str_starts_with};

verus! {

/// The folder fields the engine reads from one decoded folder element.
///
/// `is_folder` tells a plain mail folder apart from the protocol's other
/// folder kinds (search folders, contacts and the like), whose details the
/// engine does not consume.
#[derive(Debug, Clone, PartialEq, Eq)]
pub struct FolderData {
    /// Whether the element is a plain folder, not a specialized kind.
    pub is_folder: bool,
    /// The folder's id, when the server included it.
    pub folder_id: Option<String>,
    /// The parent folder's id, when included.
    pub parent_folder_id: Option<String>,
    /// The display name, when included.
    pub display_name: Option<String>,
    /// The folder class, such as a mail-folder class, when included.
    pub folder_class: Option<String>,
    /// Total number of entries in the folder, when included.
    pub total_count: Option<u32>,
    /// Number of unread entries, when included.
    pub unread_count: Option<u32>,
    /// Number of child folders, when included.
    pub child_folder_count: Option<u32>,
}

/// One decoded folder-fetch response unit's payload: the folders it carries.
#[derive(Debug, Clone, PartialEq, Eq)]
pub struct GetFolderMessage {
    /// The folders of this response unit.
    pub folders: Vec<FolderData>,
}

/// Information about a folder, as reported to the caller.
#[derive(Debug, Clone, PartialEq, Eq)]
pub struct FolderInfo {
    /// The folder's id.
    pub folder_id: String,
    /// The parent folder's id.
    pub parent_folder_id: String,
    /// The display name of the folder.
    pub display_name: String,
    /// The folder class, when the server reported one.
    pub folder_class: Option<String>,
    /// Total number of entries in the folder, when reported.
    pub total_count: Option<u32>,
    /// Number of unread entries, when reported.
    pub unread_count: Option<u32>,
    /// Number of child folders, when reported.
    pub child_folder_count: Option<u32>,
}

/// Whether a folder-fetch response unit's payload is valid for a standard
/// folder: exactly one folder, of the plain kind, with an id.
pub open spec fn spec_valid_single_folder(message: GetFolderMessage) -> bool {
    &&& message.folders@.len() == 1
    &&& message.folders@[0].is_folder
    &&& message.folders@[0].folder_id is Some
}

/// The id of the one folder of a valid folder-fetch payload.
pub open spec fn spec_single_folder_id(message: GetFolderMessage) -> Seq<char> {
    message.folders@[0].folder_id->0@
}

/// Verifies that a folder-fetch response unit's payload is valid for a
/// standard folder, and returns the folder's id.
pub fn validate_get_folder_response_message(message: &GetFolderMessage) -> (r: Result<
    String,
    EwsError,
>)
    ensures
        r matches Ok(id) ==> spec_valid_single_folder(*message) && id@ == spec_single_folder_id(
            *message,
        ),
        spec_valid_single_folder(*message) ==> r is Ok,
        message.folders@.len() != 1 ==> (r matches Err(e) && e matches EwsError::Processing {
            message: text,
        } && text@ == "expected exactly one folder per response message, got "@
            + spec_decimal_digits(message.folders@.len() as int)),
        message.folders@.len() == 1 && !message.folders@[0].is_folder ==> (r matches Err(e) && e
            matches EwsError::Processing { message } && message@
            == "expected folder to be of type Folder"@),
        message.folders@.len() == 1 && message.folders@[0].is_folder
            && message.folders@[0].folder_id is None ==> r == Err::<String, EwsError>(
            EwsError::MissingIdInResponse,
        ),
{
    if message.folders.len() != 1 {
        let mut text = String::from_str("expected exactly one folder per response message, got ");
        text.append(decimal_string(message.folders.len() as u64).as_str());
        return Err(EwsError::Processing { message: text });
    }
    let folder = &message.folders[0];
    if !folder.is_folder {
        return Err(
            EwsError::Processing {
                message: String::from_str("expected folder to be of type Folder"),
            },
        );
    }
    match &folder.folder_id {
        Some(id) => Ok(id.clone()),
        None => Err(EwsError::MissingIdInResponse),
    }
}

/// Whether a folder class names a mail folder: the mail class itself or one
/// of its subclasses.
pub open spec fn spec_is_mail_folder_class(class: Option<String>) -> bool {
    match class {
        Some(c) => c@ == "IPF.Note"@ || spec_starts_with(c@, "IPF.Note."@),
        None => false,
    }
}

/// Checks whether a folder's class names a mail folder.
pub fn is_mail_folder_class(class: &Option<String>) -> (r: bool)
    ensures
        r == spec_is_mail_folder_class(*class),
{
    match class {
        Some(c) => {
            str_eq(c.as_str(), "IPF.Note") || str_starts_with(c.as_str(), "IPF.Note.")
        },
        None => false,
    }
}

/// What one folder-fetch unit contributes to a batched folder fetch: its one
/// validated folder when that folder is a mail folder, nothing when the
/// folder is of another class.
pub open spec fn spec_mail_folder_of_unit(message: GetFolderMessage) -> Seq<FolderData> {
    if spec_is_mail_folder_class(message.folders@[0].folder_class) {
        seq![message.folders@[0]]
    } else {
        Seq::empty()
    }
}

/// The mail folders that a run of folder-fetch units contributes, in unit
/// order, assuming every unit's payload is valid.
pub open spec fn spec_mail_folders(units: Seq<ResponseClass<GetFolderMessage>>) -> Seq<FolderData>
    decreases units.len(),
{
    if units.len() == 0 {
        Seq::empty()
    } else {
        let rest = spec_mail_folders(units.drop_last());
        match units.last() {
            ResponseClass::Success(m) => rest + spec_mail_folder_of_unit(m),
            ResponseClass::Warning(m) => rest + spec_mail_folder_of_unit(m),
            ResponseClass::Error(..) => rest,
        }
    }
}

/// Whether every unit of a folder fetch succeeded with a valid payload.
pub open spec fn spec_all_units_valid(units: Seq<ResponseClass<GetFolderMessage>>) -> bool {
    forall|i: int|
        0 <= i < units.len() ==> match #[trigger] units[i] {
            ResponseClass::Success(m) => spec_valid_single_folder(m),
            ResponseClass::Warning(m) => spec_valid_single_folder(m),
            ResponseClass::Error(..) => false,
        }
}

/// Collects the mail folders of a batched folder fetch.
///
/// Every unit must succeed and carry one valid folder; folders of non-mail
/// classes (or without a class) are filtered out rather than failing. A unit
/// that errors, or whose payload is invalid, aborts the whole call.
pub fn collect_mail_folders(units: Vec<ResponseClass<GetFolderMessage>>) -> (r: Result<
    Vec<FolderData>,
    EwsError,
>)
    ensures
        r matches Ok(folders) ==> spec_all_units_valid(units@) && folders@ == spec_mail_folders(
            units@,
        ),
        r is Err ==> !spec_all_units_valid(units@),
{
    let mut folders: Vec<FolderData> = Vec::new();
    let ghost full = units@;
    let mut remaining = units;
    let mut taken: usize = 0;
    let total = remaining.len();
    proof {
        assert(full.take(0) =~= Seq::<ResponseClass<GetFolderMessage>>::empty());
    }
    while taken < total
        invariant
            full == units@,
            full.len() == total,
            taken <= total,
            remaining@ == full.skip(taken as int),
            folders@ == spec_mail_folders(full.take(taken as int)),
            forall|i: int|
                0 <= i < taken ==> match #[trigger] full[i] {
                    ResponseClass::Success(m) => spec_valid_single_folder(m),
                    ResponseClass::Warning(m) => spec_valid_single_folder(m),
                    ResponseClass::Error(..) => false,
                },
        decreases total - taken,
    {
        let unit = remaining.remove(0);
        proof {
            assert(unit == full[taken as int]);
            assert(full.skip(taken as int).drop_first() =~= full.skip(taken as int + 1));
            assert(full.take(taken as int + 1).drop_last() =~= full.take(taken as int));
            assert(full.take(taken as int + 1).last() == full[taken as int]);
        }
        let message = match process_response_message_class(unit) {
            Ok(message) => message,
            Err(e) => {
                proof {
                    assert(!spec_all_units_valid(full));
                }
                return Err(e);
            },
        };
        if let Err(e) = validate_get_folder_response_message(&message) {
            proof {
                assert(!spec_valid_single_folder(message));
                assert(!spec_all_units_valid(full));
            }
            return Err(e);
        }
        let ghost folders_before = folders@;
        if is_mail_folder_class(&message.folders[0].folder_class) {
            let mut message = message;
            let folder = message.folders.remove(0);
            folders.push(folder);
            proof {
                assert(folders@ =~= folders_before + spec_mail_folder_of_unit(
                    spec_unit_payload(full[taken as int]),
                ));
            }
        } else {
            proof {
                assert(folders@ =~= folders_before + spec_mail_folder_of_unit(
                    spec_unit_payload(full[taken as int]),
                ));
            }
        }
        taken = taken + 1;
    }
    proof {
        assert(full.take(total as int) =~= full);
    }
    Ok(folders)
}

/// The payload of a successful unit (meaningful for successes and warnings).
pub open spec fn spec_unit_payload(unit: ResponseClass<GetFolderMessage>) -> GetFolderMessage {
    match unit {
        ResponseClass::Success(m) => m,
        ResponseClass::Warning(m) => m,
        ResponseClass::Error(..) => vstd::pervasive::arbitrary(),
    }
}

/// The folder details reported for one fetched folder, when it carries
/// everything the caller needs.
pub open spec fn spec_folder_info_ok(folder: FolderData, info: FolderInfo) -> bool {
    &&& folder.is_folder
    &&& folder.folder_id is Some
    &&& folder.parent_folder_id is Some
    &&& folder.display_name is Some
    &&& info.folder_id == folder.folder_id->0
    &&& info.parent_folder_id == folder.parent_folder_id->0
    &&& info.display_name == folder.display_name->0
    &&& info.folder_class == folder.folder_class
    &&& info.total_count == folder.total_count
    &&& info.unread_count == folder.unread_count
    &&& info.child_folder_count == folder.child_folder_count
}

/// Maps fetched folders to caller-facing folder details.
///
/// A folder of an unexpected kind, or one missing its id, parent id or
/// display name, aborts the whole call.
pub fn folder_details(folders: Vec<FolderData>) -> (r: Result<Vec<FolderInfo>, EwsError>)
    ensures
        r matches Ok(infos) ==> infos@.len() == folders@.len() && (forall|i: int|
            0 <= i < folders@.len() ==> spec_folder_info_ok(
                #[trigger] folders@[i],
                infos@[i],
            )),
        r is Err ==> exists|i: int|
            0 <= i < folders@.len() && !(#[trigger] folders@[i].is_folder
                && folders@[i].folder_id is Some && folders@[i].parent_folder_id is Some
                && folders@[i].display_name is Some),
{
    let mut infos: Vec<FolderInfo> = Vec::new();
    let ghost full = folders@;
    let mut remaining = folders;
    let mut taken: usize = 0;
    let total = remaining.len();
    while taken < total
        invariant
            full == folders@,
            full.len() == total,
            taken <= total,
            remaining@ == full.skip(taken as int),
            infos@.len() == taken,
            forall|i: int|
                0 <= i < taken ==> spec_folder_info_ok(#[trigger] full[i], infos@[i]),
        decreases total - taken,
    {
        let folder = remaining.remove(0);
        proof {
            assert(folder == full[taken as int]);
            assert(full.skip(taken as int).drop_first() =~= full.skip(taken as int + 1));
        }
        if !folder.is_folder {
            return Err(
                EwsError::Processing { message: String::from_str("unexpected folder type") },
            );
        }
        let folder_id = match folder.folder_id {
            Some(id) => id,
            None => {
                return Err(EwsError::MissingIdInResponse);
            },
        };
        let parent_folder_id = match folder.parent_folder_id {
            Some(id) => id,
            None => {
                return Err(EwsError::MissingIdInResponse);
            },
        };
        let display_name = match folder.display_name {
            Some(name) => name,
            None => {
                return Err(
                    EwsError::Processing {
                        message: String::from_str("folder missing display name"),
                    },
                );
            },
        };
        infos.push(
            FolderInfo {
                folder_id,
                parent_folder_id,
                display_name,
                folder_class: folder.folder_class,
                total_count: folder.total_count,
                unread_count: folder.unread_count,
                child_folder_count: folder.child_folder_count,
            },
        );
        taken = taken + 1;
    }
    Ok(infos)
}

/// Extracts the id of the one folder a folder-creation response reports.
pub fn created_folder_id(message: GetFolderMessage) -> (r: Result<String, EwsError>)
    ensures
        r matches Ok(id) ==> spec_valid_single_folder(message) && id@ == spec_single_folder_id(
            message,
        ),
        spec_valid_single_folder(message) ==> r is Ok,
        message.folders@.len() != 1 ==> (r matches Err(e) && e matches EwsError::Processing {
            message: text,
        } && text@ == "expected exactly one folder in response, got "@ + spec_decimal_digits(
            message.folders@.len() as int,
        )),
        message.folders@.len() == 1 && !message.folders@[0].is_folder ==> (r matches Err(e) && e
            matches EwsError::Processing { message } && message@
            == "created folder of unexpected type"@),
        message.folders@.len() == 1 && message.folders@[0].is_folder
            && message.folders@[0].folder_id is None ==> r == Err::<String, EwsError>(
            EwsError::MissingIdInResponse,
        ),
{
    if message.folders.len() != 1 {
        let mut text = String::from_str("expected exactly one folder in response, got ");
        text.append(decimal_string(message.folders.len() as u64).as_str());
        return Err(EwsError::Processing { message: text });
    }
    let mut message = message;
    let folder = message.folders.remove(0);
    if !folder.is_folder {
        return Err(
            EwsError::Processing {
                message: String::from_str("created folder of unexpected type"),
            },
        );
    }
    match folder.folder_id {
        Some(id) => Ok(id),
        None => Err(EwsError::MissingIdInResponse),
    }
}

/// One resolved well-known folder: its concrete id and its distinguished
/// name.
#[derive(Debug, Clone, PartialEq, Eq)]
pub struct WellKnownFolder {
    /// The folder's concrete id.
    pub folder_id: String,
    /// The distinguished name it was requested under.
    pub distinguished_id: String,
}

/// The distinguished name of the root mail folder, under which every sync
/// starts.
pub fn ews_root_folder() -> (r: &'static str)
    ensures
        r@ == "msgfolderroot"@,
{
    "msgfolderroot"
}

/// The distinguished names resolved before a first folder sync, the root
/// folder first.
pub fn well_known_folder_names() -> (r: Vec<String>)
    ensures
        r@.map_values(|s: String| s@) =~= seq![
            "msgfolderroot"@,
            "inbox"@,
            "deleteditems"@,
            "drafts"@,
            "outbox"@,
            "sentitems"@,
            "junkemail"@,
            "archive"@,
        ],
{
    let mut r: Vec<String> = Vec::new();
    r.push(String::from_str("msgfolderroot"));
    r.push(String::from_str("inbox"));
    r.push(String::from_str("deleteditems"));
    r.push(String::from_str("drafts"));
    r.push(String::from_str("outbox"));
    r.push(String::from_str("sentitems"));
    r.push(String::from_str("junkemail"));
    r.push(String::from_str("archive"));
    r
}

/// Whether one lookup unit resolves to a folder id: it succeeded and its
/// payload is a valid single folder.
pub open spec fn spec_unit_resolves(unit: ResponseClass<GetFolderMessage>) -> bool {
    match unit {
        ResponseClass::Success(m) => spec_valid_single_folder(m),
        ResponseClass::Warning(m) => spec_valid_single_folder(m),
        ResponseClass::Error(..) => false,
    }
}

/// Whether one lookup unit reports that the requested folder does not exist.
pub open spec fn spec_unit_not_found(unit: ResponseClass<GetFolderMessage>) -> bool {
    unit matches ResponseClass::Error(f) && f.response_code matches
        ResponseCode::ErrorFolderNotFound
}

/// The id-to-distinguished-name pairs a run of lookup units resolves, in
/// request order, folders reported missing skipped.
pub open spec fn spec_resolved_pairs(
    units: Seq<ResponseClass<GetFolderMessage>>,
    names: Seq<String>,
) -> Seq<(Seq<char>, Seq<char>)>
    decreases units.len(),
{
    if units.len() == 0 {
        Seq::empty()
    } else {
        let rest = spec_resolved_pairs(units.drop_last(), names.drop_last());
        match units.last() {
            ResponseClass::Success(m) => rest.push((spec_single_folder_id(m), names.last()@)),
            ResponseClass::Warning(m) => rest.push((spec_single_folder_id(m), names.last()@)),
            ResponseClass::Error(..) => rest,
        }
    }
}

/// Resolves well-known distinguished folder names to concrete folder ids
/// from one batched lookup, one unit per requested name, the root folder
/// first.
///
/// A failure to resolve the root folder is fatal: without its id the
/// parent linkage of every other folder cannot be established. A non-root
/// name whose folder does not exist is tolerated and simply absent from the
/// result; any other per-unit failure aborts the call.
///
/// Pairs come back in request order, one per resolved name. Should a server
/// resolve two distinguished names to one folder id, that id appears under
/// both names; a caller keying a map by folder id keeps whichever entry it
/// inserts last.
pub fn resolve_well_known_folders(
    units: Vec<ResponseClass<GetFolderMessage>>,
    names: &Vec<String>,
) -> (r: Result<Vec<WellKnownFolder>, EwsError>)
    ensures
        units@.len() != names@.len() ==> (r matches Err(e) && e matches EwsError::Processing {
            message,
        } && message@ == crate::response::spec_count_mismatch_message(
            names@.len() as int,
            units@.len() as int,
        )),
        units@.len() == names@.len() && units@.len() == 0 ==> (r matches Err(e) && e matches
            EwsError::Processing { message } && message@ == "no response for root folder"@),
        units@.len() == names@.len() && units@.len() >= 1 ==> (match units@[0] {
            ResponseClass::Error(f) => r == Err::<Vec<WellKnownFolder>, EwsError>(
                EwsError::ResponseError(f),
            ),
            _ => true,
        }),
        units@.len() == names@.len() && units@.len() >= 1 && spec_unit_resolves(units@[0]) ==> (
        (r is Ok) <==> (forall|i: int|
            1 <= i < units@.len() ==> spec_unit_resolves(#[trigger] units@[i])
                || spec_unit_not_found(units@[i]))),
        units@.len() == names@.len() && units@.len() >= 1 && !spec_unit_resolves(units@[0])
            ==> r is Err,
        r matches Ok(pairs) ==> pairs@.map_values(
            |w: WellKnownFolder| (w.folder_id@, w.distinguished_id@),
        ) == spec_resolved_pairs(units@.skip(1), names@.skip(1)),
{
    if let Err(e) = validate_response_message_count_local(&units, names.len()) {
        return Err(e);
    }
    if units.len() == 0 {
        return Err(
            EwsError::Processing { message: String::from_str("no response for root folder") },
        );
    }
    let ghost full = units@;
    let mut remaining = units;
    let root_unit = remaining.remove(0);
    proof {
        assert(root_unit == full[0]);
        assert(remaining@ =~= full.skip(1));
    }
    let root_message = match process_response_message_class(root_unit) {
        Ok(message) => message,
        Err(e) => {
            return Err(e);
        },
    };
    if let Err(e) = validate_get_folder_response_message(&root_message) {
        return Err(e);
    }
    let mut pairs: Vec<WellKnownFolder> = Vec::new();
    let mut taken: usize = 1;
    let total = names.len();
    proof {
        assert(full.subrange(1, 1) =~= Seq::<ResponseClass<GetFolderMessage>>::empty());
        assert(pairs@.map_values(|w: WellKnownFolder| (w.folder_id@, w.distinguished_id@))
            =~= spec_resolved_pairs(full.subrange(1, 1), names@.subrange(1, 1)));
    }
    while taken < total
        invariant
            full == units@,
            full.len() == total,
            names@.len() == total,
            spec_unit_resolves(full[0]),
            1 <= taken <= total,
            remaining@ == full.skip(taken as int),
            pairs@.map_values(|w: WellKnownFolder| (w.folder_id@, w.distinguished_id@))
                == spec_resolved_pairs(
                full.subrange(1, taken as int),
                names@.subrange(1, taken as int),
            ),
            forall|i: int|
                1 <= i < taken ==> spec_unit_resolves(#[trigger] full[i]) || spec_unit_not_found(
                    full[i],
                ),
        decreases total - taken,
    {
        let unit = remaining.remove(0);
        proof {
            assert(unit == full[taken as int]);
            assert(full.skip(taken as int).drop_first() =~= full.skip(taken as int + 1));
            assert(full.subrange(1, taken as int + 1).drop_last() =~= full.subrange(
                1,
                taken as int,
            ));
            assert(names@.subrange(1, taken as int + 1).drop_last() =~= names@.subrange(
                1,
                taken as int,
            ));
            assert(full.subrange(1, taken as int + 1).last() == full[taken as int]);
            assert(names@.subrange(1, taken as int + 1).last() == names@[taken as int]);
        }
        let ghost pairs_before = pairs@;
        match process_response_message_class(unit) {
            Ok(message) => {
                match validate_get_folder_response_message(&message) {
                    Ok(folder_id) => {
                        let distinguished_id = names[taken].clone();
                        pairs.push(WellKnownFolder { folder_id, distinguished_id });
                        proof {
                            assert(pairs@.map_values(
                                |w: WellKnownFolder| (w.folder_id@, w.distinguished_id@),
                            ) =~= pairs_before.map_values(
                                |w: WellKnownFolder| (w.folder_id@, w.distinguished_id@),
                            ).push((spec_single_folder_id(spec_unit_payload(full[taken as int])),
                            names@[taken as int]@)));
                        }
                    },
                    Err(e) => {
                        proof {
                            assert(!spec_unit_resolves(full[taken as int]));
                            assert(!spec_unit_not_found(full[taken as int]));
                        }
                        return Err(e);
                    },
                }
            },
            Err(e) => {
                let not_found = match &e {
                    EwsError::ResponseError(fault) => match &fault.response_code {
                        ResponseCode::ErrorFolderNotFound => true,
                        _ => false,
                    },
                    _ => false,
                };
                if !not_found {
                    proof {
                        assert(!spec_unit_resolves(full[taken as int]));
                        assert(!spec_unit_not_found(full[taken as int]));
                    }
                    return Err(e);
                }
                proof {
                    assert(spec_unit_not_found(full[taken as int]));
                }
            },
        }
        taken = taken + 1;
    }
    proof {
        assert(full.subrange(1, total as int) =~= full.skip(1));
        assert(names@.subrange(1, total as int) =~= names@.skip(1));
    }
    Ok(pairs)
}

/// Checks that a lookup carries one unit per requested name.
fn validate_response_message_count_local(
    units: &Vec<ResponseClass<GetFolderMessage>>,
    expected_len: usize,
) -> (r: Result<(), EwsError>)
    ensures
        units@.len() == expected_len <==> r matches Ok(()),
        units@.len() != expected_len ==> (r matches Err(e) && e matches EwsError::Processing {
            message,
        } && message@ == crate::response::spec_count_mismatch_message(
            expected_len as int,
            units@.len() as int,
        )),
{
    crate::response::validate_response_message_count(units, expected_len)
}

/// Whether an id is one of the protocol's distinguished folder names, which
/// address a well-known folder without prior knowledge of the mailbox.
pub open spec fn spec_is_distinguished_folder_id(id: Seq<char>) -> bool {
    ||| id == "calendar"@
    ||| id == "contacts"@
    ||| id == "deleteditems"@
    ||| id == "drafts"@
    ||| id == "inbox"@
    ||| id == "journal"@
    ||| id == "notes"@
    ||| id == "outbox"@
    ||| id == "sentitems"@
    ||| id == "tasks"@
    ||| id == "msgfolderroot"@
    ||| id == "root"@
    ||| id == "junkemail"@
    ||| id == "searchfolders"@
    ||| id == "voicemail"@
    ||| id == "recoverableitemsroot"@
    ||| id == "recoverableitemsdeletions"@
    ||| id == "recoverableitemsversions"@
    ||| id == "recoverableitemspurges"@
    ||| id == "archiveroot"@
    ||| id == "archivemsgfolderroot"@
    ||| id == "archivedeleteditems"@
    ||| id == "archiveinbox"@
    ||| id == "archiverecoverableitemsroot"@
    ||| id == "archiverecoverableitemsdeletions"@
    ||| id == "archiverecoverableitemsversions"@
    ||| id == "archiverecoverableitemspurges"@
    ||| id == "syncissues"@
    ||| id == "conflicts"@
    ||| id == "localfailures"@
    ||| id == "serverfailures"@
    ||| id == "recipientcache"@
    ||| id == "quickcontacts"@
    ||| id == "conversationhistory"@
    ||| id == "adminauditlogs"@
    ||| id == "todosearch"@
    ||| id == "mycontacts"@
    ||| id == "directory"@
    ||| id == "imcontactlist"@
    ||| id == "peopleconnect"@
    ||| id == "favorites"@
}

/// Checks whether an id is a distinguished folder name; such an id is
/// addressed by name on the wire, any other by its concrete folder id.
pub fn is_distinguished_folder_id(id: &str) -> (r: bool)
    ensures
        r == spec_is_distinguished_folder_id(id@),
{
    str_eq(id, "calendar") || str_eq(id, "contacts") || str_eq(id, "deleteditems") || str_eq(id, "drafts") || str_eq(id, "inbox") || str_eq(id, "journal") || str_eq(id, "notes") || str_eq(id, "outbox") || str_eq(id, "sentitems") || str_eq(id, "tasks") || str_eq(id, "msgfolderroot") || str_eq(id, "root") || str_eq(id, "junkemail") || str_eq(id, "searchfolders") || str_eq(id, "voicemail") || str_eq(id, "recoverableitemsroot") || str_eq(id, "recoverableitemsdeletions") || str_eq(id, "recoverableitemsversions") || str_eq(id, "recoverableitemspurges") || str_eq(id, "archiveroot") || str_eq(id, "archivemsgfolderroot") || str_eq(id, "archivedeleteditems") || str_eq(id, "archiveinbox") || str_eq(id, "archiverecoverableitemsroot") || str_eq(id, "archiverecoverableitemsdeletions") || str_eq(id, "archiverecoverableitemsversions") || str_eq(id, "archiverecoverableitemspurges") || str_eq(id, "syncissues") || str_eq(id, "conflicts") || str_eq(id, "localfailures") || str_eq(id, "serverfailures") || str_eq(id, "recipientcache") || str_eq(id, "quickcontacts") || str_eq(id, "conversationhistory") || str_eq(id, "adminauditlogs") || str_eq(id, "todosearch") || str_eq(id, "mycontacts") || str_eq(id, "directory") || str_eq(id, "imcontactlist") || str_eq(id, "peopleconnect") || str_eq(id, "favorites")
}

} // verus!
