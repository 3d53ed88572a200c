//! Message header extraction and formatting.
//!
//! Mailboxes are rendered for Internet Message Format headers; display names
//! go through an outside encoder for header-safe quoting and non-ASCII
//! encoding, whose result is named at the boundary.

use vstd::prelude::*;

use crate::items::ItemData;

verus! {

/// An email address with an optional display name.
#[derive(Debug, Clone, PartialEq, Eq)]
pub struct Mailbox {
    /// The display name, such as a person's name.
    pub name: Option<String>,
    /// The address itself.
    pub email_address: Option<String>,
}

/// Message priority levels, highest first.
#[derive(Debug, Clone, Copy, PartialEq, Eq, Structural)]
pub enum MessagePriority {
    Highest,
    High,
    Normal,
    Low,
    Lowest,
}

/// What the header encoding of a display name is: quoted when plain,
/// encoded-word when it needs escaping. The result depends on the characters
/// alone.
pub uninterp spec fn rfc2047_of(s: Seq<char>) -> Seq<char>;

/// Relies on mail-builder's `rfc2047_encode`: writes the header-safe
/// encoding of the name — a quoted string, or an encoded word for input that
/// needs it — which is always valid UTF-8, and a sink of bytes in memory
/// never errors.
#[verifier::external_body]
fn rfc2047(name: &str) -> (r: String)
    ensures
        r@ == rfc2047_of(name@),
{
    let mut buf: Vec<u8> = Vec::new();
    match mail_builder::encoders::encode::rfc2047_encode(name, &mut buf) {
        Ok(_) => match String::from_utf8(buf) {
            Ok(encoded) => encoded,
            Err(_) => name.to_owned(),
        },
        Err(_) => name.to_owned(),
    }
}

/// The header rendering of one mailbox: the encoded display name, the
/// address in angle brackets after it; either part alone when the other is
/// absent.
pub open spec fn spec_mailbox_header(m: Mailbox) -> Seq<char> {
    match (m.name, m.email_address) {
        (Some(name), Some(address)) => rfc2047_of(name@) + " <"@ + address@ + ">"@,
        (Some(name), None) => rfc2047_of(name@),
        (None, Some(address)) => address@,
        (None, None) => Seq::empty(),
    }
}

/// Renders one mailbox for use in an Internet Message Format header.
pub fn mailbox_header_string(mailbox: &Mailbox) -> (r: String)
    ensures
        r@ == spec_mailbox_header(*mailbox),
{
    match (&mailbox.name, &mailbox.email_address) {
        (Some(name), Some(address)) => {
            let mut r = rfc2047(name.as_str());
            r.append(" <");
            r.append(address.as_str());
            r.append(">");
            r
        },
        (Some(name), None) => rfc2047(name.as_str()),
        (None, Some(address)) => address.clone(),
        (None, None) => String::new(),
    }
}

/// A list of header parts joined with a comma and a space.
pub open spec fn spec_joined(parts: Seq<Seq<char>>) -> Seq<char>
    decreases parts.len(),
{
    if parts.len() == 0 {
        Seq::empty()
    } else if parts.len() == 1 {
        parts[0]
    } else {
        spec_joined(parts.drop_last()) + ", "@ + parts.last()
    }
}

/// Renders a list of mailboxes as the value of an Internet Message Format
/// header: each mailbox rendered on its own, joined with commas.
pub fn make_header_string_for_mailbox_list(mailboxes: &Vec<Mailbox>) -> (r: String)
    ensures
        r@ == spec_joined(mailboxes@.map_values(|m: Mailbox| spec_mailbox_header(m))),
{
    let mut r = String::new();
    let n = mailboxes.len();
    let mut i: usize = 0;
    proof {
        assert(mailboxes@.take(0).map_values(|m: Mailbox| spec_mailbox_header(m)) =~= Seq::<
            Seq<char>,
        >::empty());
    }
    while i < n
        invariant
            n == mailboxes@.len(),
            i <= n,
            r@ == spec_joined(mailboxes@.take(i as int).map_values(|m: Mailbox| spec_mailbox_header(m))),
        decreases n - i,
    {
        if i > 0 {
            r.append(", ");
        }
        let part = mailbox_header_string(&mailboxes[i]);
        r.append(part.as_str());
        proof {
            let mapped = mailboxes@.take(i as int).map_values(
                |m: Mailbox| spec_mailbox_header(m),
            );
            let mapped_next = mailboxes@.take(i + 1).map_values(
                |m: Mailbox| spec_mailbox_header(m),
            );
            assert(mapped_next =~= mapped.push(spec_mailbox_header(mailboxes@[i as int])));
            assert(mapped_next.drop_last() =~= mapped);
            if i == 0 {
                assert(r@ =~= spec_joined(mapped_next));
            } else {
                assert(r@ =~= spec_joined(mapped_next));
            }
        }
        i = i + 1;
    }
    proof {
        assert(mailboxes@.take(n as int) =~= mailboxes@);
    }
    r
}

/// Converts a send time in Unix seconds to microseconds, the resolution
/// caller-side stores use; a time too large for the microsecond scale is
/// reported as absent rather than wrapped.
pub fn sent_timestamp_us(seconds: i64) -> (r: Option<i64>)
    ensures
        -9223372036854 <= seconds <= 9223372036854 ==> r == Some((seconds as int * 1000000) as i64)
            && r->0 == seconds * 1000000,
        !(-9223372036854 <= seconds <= 9223372036854) ==> r is None,
{
    if -9223372036854 <= seconds && seconds <= 9223372036854 {
        Some(seconds * 1000000)
    } else {
        None
    }
}

/// The priority a priority header's first digit names, highest first;
/// anything unrecognized reads as normal.
pub fn priority_from_header_char(first_char: char) -> (r: MessagePriority)
    ensures
        first_char == '1' ==> r == MessagePriority::Highest,
        first_char == '2' ==> r == MessagePriority::High,
        first_char == '3' ==> r == MessagePriority::Normal,
        first_char == '4' ==> r == MessagePriority::Low,
        first_char == '5' ==> r == MessagePriority::Lowest,
        !('1' <= first_char <= '5') ==> r == MessagePriority::Normal,
{
    if first_char == '1' {
        MessagePriority::Highest
    } else if first_char == '2' {
        MessagePriority::High
    } else if first_char == '3' {
        MessagePriority::Normal
    } else if first_char == '4' {
        MessagePriority::Low
    } else if first_char == '5' {
        MessagePriority::Lowest
    } else {
        MessagePriority::Normal
    }
}

/// A message from which email headers can be retrieved.
///
/// The engine reads headers from more than one message representation — the
/// protocol's decoded items here, parsed raw messages in adapter layers —
/// through this one interface.
pub trait MessageHeaders {
    /// The message-id header value.
    fn internet_message_id(&self) -> Option<String>;

    /// Whether the message has been read.
    fn is_read(&self) -> Option<bool>;

    /// Whether the message has any attachment.
    fn has_attachments(&self) -> Option<bool>;

    /// The send time in microseconds since the Unix epoch.
    fn sent_timestamp_us(&self) -> Option<i64>;

    /// The author: the from header, or the sender when from is absent.
    fn author(&self) -> Option<Mailbox>;

    /// The reply-to recipients.
    fn reply_to_recipients(&self) -> Option<Vec<Mailbox>>;

    /// The to recipients.
    fn to_recipients(&self) -> Option<Vec<Mailbox>>;

    /// The cc recipients.
    fn cc_recipients(&self) -> Option<Vec<Mailbox>>;

    /// The bcc recipients.
    fn bcc_recipients(&self) -> Option<Vec<Mailbox>>;

    /// The subject header value.
    fn message_subject(&self) -> Option<String>;

    /// The message's priority.
    fn priority(&self) -> Option<MessagePriority>;

    /// The references header value.
    fn references(&self) -> Option<String>;

    /// The message size in bytes.
    fn size(&self) -> Option<usize>;

    /// A short preview of the message body.
    fn preview(&self) -> Option<String>;
}

impl MessageHeaders for ItemData {
    fn internet_message_id(&self) -> Option<String> {
        self.internet_message_id.clone()
    }

    fn is_read(&self) -> Option<bool> {
        self.is_read
    }

    fn has_attachments(&self) -> Option<bool> {
        self.has_attachments
    }

    fn sent_timestamp_us(&self) -> Option<i64> {
        match self.date_time_sent {
            Some(seconds) => sent_timestamp_us(seconds),
            None => None,
        }
    }

    fn author(&self) -> Option<Mailbox> {
        match &self.from {
            Some(address) => Some(
                Mailbox { name: None, email_address: Some(address.clone()) },
            ),
            None => None,
        }
    }

    fn reply_to_recipients(&self) -> Option<Vec<Mailbox>> {
        None
    }

    fn to_recipients(&self) -> Option<Vec<Mailbox>> {
        None
    }

    fn cc_recipients(&self) -> Option<Vec<Mailbox>> {
        None
    }

    fn bcc_recipients(&self) -> Option<Vec<Mailbox>> {
        None
    }

    fn message_subject(&self) -> Option<String> {
        self.subject.clone()
    }

    fn priority(&self) -> Option<MessagePriority> {
        None
    }

    fn references(&self) -> Option<String> {
        None
    }

    fn size(&self) -> Option<usize> {
        self.size
    }

    fn preview(&self) -> Option<String> {
        None
    }
}

} // verus!
