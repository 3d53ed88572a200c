//! Item payload processing: batched fetches and message-content extraction.

use vstd::prelude::*;

use crate::encoding::{b64_decoded, base64_decode};
use crate::error::EwsError;
use crate::response::{process_response_message_class, ResponseClass};
use crate::text::{decimal_string, spec_decimal_digits};

verus! {

/// The item fields the engine reads from one decoded item element.
#[derive(Debug, Clone, PartialEq, Eq)]
pub struct ItemData {
    /// The item's id, when the server included it.
    pub item_id: Option<String>,
    /// The base64-encoded message content, when requested and included.
    pub mime_content: Option<String>,
    /// Whether the message has been read, when included.
    pub is_read: Option<bool>,
    /// The message-id header value, when included.
    pub internet_message_id: Option<String>,
    /// The send time as a Unix timestamp in seconds, when included.
    pub date_time_sent: Option<i64>,
    /// The sender's address, when included.
    pub from: Option<String>,
    /// The subject, when included.
    pub subject: Option<String>,
    /// Whether the message has attachments, when included.
    pub has_attachments: Option<bool>,
    /// The message size in bytes, when included.
    pub size: Option<usize>,
}

/// One decoded item-fetch response unit's payload: the items it carries.
#[derive(Debug, Clone, PartialEq, Eq)]
pub struct GetItemMessage {
    /// The items of this response unit.
    pub items: Vec<ItemData>,
}

/// The items a run of item-fetch units carries, in unit order, assuming
/// every unit succeeded.
pub open spec fn spec_fetched_items(units: Seq<ResponseClass<GetItemMessage>>) -> Seq<ItemData>
    decreases units.len(),
{
    if units.len() == 0 {
        Seq::empty()
    } else {
        let rest = spec_fetched_items(units.drop_last());
        match units.last() {
            ResponseClass::Success(m) => rest + m.items@,
            ResponseClass::Warning(m) => rest + m.items@,
            ResponseClass::Error(..) => rest,
        }
    }
}

/// Whether every unit of an item fetch succeeded.
pub open spec fn spec_all_item_units_ok(units: Seq<ResponseClass<GetItemMessage>>) -> bool {
    forall|i: int| 0 <= i < units.len() ==> !(#[trigger] units[i] matches ResponseClass::Error(..))
}

/// Collects the items of one batched item fetch, in unit order.
///
/// Any unit error aborts the whole call with the server's fault.
pub fn collect_item_payloads(units: Vec<ResponseClass<GetItemMessage>>) -> (r: Result<
    Vec<ItemData>,
    EwsError,
>)
    ensures
        r matches Ok(items) ==> spec_all_item_units_ok(units@) && items@ == spec_fetched_items(
            units@,
        ),
        r matches Err(e) ==> exists|i: int|
            0 <= i < units@.len() && ((#[trigger] units@[i]) matches ResponseClass::Error(f) && e
                == EwsError::ResponseError(f)),
{
    let mut items: Vec<ItemData> = Vec::new();
    let ghost full = units@;
    let mut remaining = units;
    let mut taken: usize = 0;
    let total = remaining.len();
    proof {
        assert(full.take(0) =~= Seq::<ResponseClass<GetItemMessage>>::empty());
    }
    while taken < total
        invariant
            full == units@,
            full.len() == total,
            taken <= total,
            remaining@ == full.skip(taken as int),
            items@ == spec_fetched_items(full.take(taken as int)),
            forall|i: int|
                0 <= i < taken ==> !(#[trigger] full[i] matches ResponseClass::Error(..)),
        decreases total - taken,
    {
        let unit = remaining.remove(0);
        proof {
            assert(unit == full[taken as int]);
            assert(full.skip(taken as int).drop_first() =~= full.skip(taken as int + 1));
            assert(full.take(taken as int + 1).drop_last() =~= full.take(taken as int));
            assert(full.take(taken as int + 1).last() == full[taken as int]);
        }
        let message = match process_response_message_class(unit) {
            Ok(message) => message,
            Err(e) => {
                return Err(e);
            },
        };
        let ghost items_before = items@;
        let mut payload = message.items;
        items.append(&mut payload);
        proof {
            assert(items@ =~= spec_fetched_items(full.take(taken as int + 1)));
        }
        taken = taken + 1;
    }
    proof {
        assert(full.take(total as int) =~= full);
    }
    Ok(items)
}

/// Extracts the decoded message content of a single-item fetch.
///
/// Exactly one item must have come back, carrying base64-encoded content;
/// the decoded bytes are returned.
pub fn extract_message_content(items: Vec<ItemData>) -> (r: Result<Vec<u8>, EwsError>)
    ensures
        items@.len() != 1 ==> (r matches Err(e) && e matches EwsError::Processing { message }
            && message@ == "provided single ID to GetItem operation, got "@ + spec_decimal_digits(
            items@.len() as int,
        ) + " responses"@),
        items@.len() == 1 && items@[0].mime_content is None ==> (r matches Err(e) && e matches
            EwsError::Processing { message } && message@ == "item has no content"@),
        items@.len() == 1 ==> (match items@[0].mime_content {
            Some(raw) => match b64_decoded(raw@) {
                Some(bytes) => r matches Ok(content) && content@ == bytes,
                None => r matches Err(e) && e matches EwsError::Processing { message } && message@
                    == "MIME content for item is not validly base64 encoded"@,
            },
            None => true,
        }),
{
    if items.len() != 1 {
        let mut message = String::from_str("provided single ID to GetItem operation, got ");
        message.append(decimal_string(items.len() as u64).as_str());
        message.append(" responses");
        return Err(EwsError::Processing { message });
    }
    let mut items = items;
    let item = items.remove(0);
    let raw_mime = match item.mime_content {
        Some(raw) => raw,
        None => {
            return Err(
                EwsError::Processing { message: String::from_str("item has no content") },
            );
        },
    };
    match base64_decode(raw_mime.as_str()) {
        Some(content) => Ok(content),
        None => Err(
            EwsError::Processing {
                message: String::from_str("MIME content for item is not validly base64 encoded"),
            },
        ),
    }
}

} // verus!
