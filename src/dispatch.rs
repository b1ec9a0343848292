//! What one webhook request leads to: the deliveries to start, and the reply.
use vstd::prelude::*;
use crate::event::{decode, decode_spec, DecodeError, Event, Payload};
use crate::message::{format_message, message_text};

verus! {

/// The status of the reply to a request that was accepted.
pub const STATUS_OK: u16 = 200;

/// The status of the reply to a request whose body is not an event.
pub const STATUS_BAD_REQUEST: u16 = 400;

/// One message to send to one recipient. Each is sent on its own: its
/// failure is logged by whoever sends it, never retried, and touches no other.
pub struct Delivery {
    /// The chat that receives the message.
    pub recipient: i64,
    /// The message.
    pub text: String,
    /// Whether `text` is to be read as HTML markup.
    pub html: bool,
    /// Whether the chat shows a preview of the linked page.
    pub link_preview: bool,
}

/// Whether `d` sends the notification of topic `id` titled `title` to `recipient`.
pub open spec fn is_notification(d: Delivery, recipient: i64, title: Seq<char>, id: u64) -> bool {
    &&& d.recipient == recipient
    &&& d.text@ == message_text(title, id)
    &&& d.html
    &&& !d.link_preview
}

/// Whether `ds` is the fan-out of `e` to `recipients`: nothing for a ping;
/// for a topic, one delivery for each recipient, in the list's order, each
/// with the topic's notification.
pub open spec fn fans_out(e: Event, recipients: Seq<i64>, ds: Seq<Delivery>) -> bool {
    match e {
        Event::Ping => ds.len() == 0,
        Event::Topic { title, id } => {
            &&& ds.len() == recipients.len()
            &&& forall|i: int|
                0 <= i < ds.len() ==> #[trigger] is_notification(ds[i], recipients[i], title@, id)
        },
    }
}

/// The deliveries that event `e` calls for, given the configured recipients.
pub fn deliveries(e: &Event, recipients: &Vec<i64>) -> (r: Vec<Delivery>)
    ensures
        fans_out(*e, recipients@, r@),
{
    match e {
        Event::Ping => Vec::new(),
        Event::Topic { title, id } => {
            let text = format_message(title.as_str(), *id);
            let mut out: Vec<Delivery> = Vec::new();
            let mut i: usize = 0;
            while i < recipients.len()
                invariant
                    i <= recipients.len(),
                    out@.len() == i,
                    text@ == message_text(title@, *id),
                    forall|j: int|
                        0 <= j < i ==> #[trigger] is_notification(
                            out@[j],
                            recipients@[j],
                            title@,
                            *id,
                        ),
                decreases recipients.len() - i,
            {
                out.push(
                    Delivery {
                        recipient: recipients[i],
                        text: text.clone(),
                        html: true,
                        link_preview: false,
                    },
                );
                i += 1;
            }
            out
        },
    }
}

/// Whether `r` is the outcome of handling a request with body fields `p`:
/// the body's fan-out where it decodes, its decoding error where it does not.
pub open spec fn handled(p: Payload, recipients: Seq<i64>, r: Result<Vec<Delivery>, DecodeError>) -> bool {
    match decode_spec(p) {
        Ok(e) => r is Ok && fans_out(e, recipients, r->Ok_0@),
        Err(err) => r == Err::<Vec<Delivery>, DecodeError>(err),
    }
}

/// Handles one request: decodes its body and plans the deliveries. The
/// outcome is settled here, before any delivery starts.
pub fn handle(p: &Payload, recipients: &Vec<i64>) -> (r: Result<Vec<Delivery>, DecodeError>)
    ensures
        handled(*p, recipients@, r),
{
    match decode(p) {
        Ok(e) => Ok(deliveries(&e, recipients)),
        Err(err) => Err(err),
    }
}

/// The HTTP reply to a request.
pub struct Reply {
    pub status: u16,
    pub body: String,
}

/// The status of the reply to a request handled as `r`.
pub open spec fn reply_status(r: Result<Vec<Delivery>, DecodeError>) -> u16 {
    match r {
        Ok(_) => STATUS_OK,
        Err(_) => STATUS_BAD_REQUEST,
    }
}

/// The body of the reply to a request handled as `r`.
pub open spec fn reply_body(r: Result<Vec<Delivery>, DecodeError>) -> Seq<char> {
    match r {
        Ok(_) => Seq::empty(),
        Err(err) => "Something went wrong: "@ + err.detail(),
    }
}

/// The reply to a request handled as `r`: empty and successful once
/// delivery is planned, an explanation of the error otherwise.
pub fn respond(r: &Result<Vec<Delivery>, DecodeError>) -> (rep: Reply)
    ensures
        rep.status == reply_status(*r),
        rep.body@ == reply_body(*r),
{
    match r {
        Ok(_) => Reply { status: STATUS_OK, body: String::new() },
        Err(err) => {
            let mut body = String::from_str("Something went wrong: ");
            let detail = err.describe();
            body.append(detail.as_str());
            Reply { status: STATUS_BAD_REQUEST, body }
        },
    }
}

/// A ping is accepted and sends nothing, whatever the recipients.
pub proof fn lemma_ping_sends_nothing(
    p: Payload,
    recipients: Seq<i64>,
    r: Result<Vec<Delivery>, DecodeError>,
)
    requires
        decode_spec(p) == Ok::<Event, DecodeError>(Event::Ping),
        handled(p, recipients, r),
    ensures
        r is Ok,
        r->Ok_0@.len() == 0,
        reply_status(r) == STATUS_OK,
{
}

/// A topic is sent to each of the `N` recipients once: exactly `N`
/// deliveries, the one at position `i` to the recipient at position `i`,
/// all with the same notification.
pub proof fn lemma_topic_reaches_each_recipient(
    p: Payload,
    recipients: Seq<i64>,
    r: Result<Vec<Delivery>, DecodeError>,
    title: String,
    id: u64,
)
    requires
        decode_spec(p) == Ok::<Event, DecodeError>(Event::Topic { title, id }),
        handled(p, recipients, r),
    ensures
        r is Ok,
        r->Ok_0@.len() == recipients.len(),
        forall|i: int|
            0 <= i < recipients.len() ==> (#[trigger] r->Ok_0@[i]).recipient == recipients[i],
        forall|i: int|
            0 <= i < recipients.len() ==> (#[trigger] r->Ok_0@[i]).text@ == message_text(title@, id),
        forall|i: int, j: int|
            0 <= i < recipients.len() && 0 <= j < recipients.len() ==> (#[trigger] r->Ok_0@[i]).text@
                == (#[trigger] r->Ok_0@[j]).text@,
{
    let ds = r->Ok_0@;
    if let Ok(Event::Topic { title: t, id: n }) = decode_spec(p) {
        assert(t@ == title@ && n == id);
        assert forall|i: int| 0 <= i < recipients.len() implies (#[trigger] ds[i]).recipient
            == recipients[i] && ds[i].text@ == message_text(title@, id) by {
            assert(is_notification(ds[i], recipients[i], t@, n));
        }
        assert forall|i: int, j: int|
            0 <= i < recipients.len() && 0 <= j < recipients.len() implies (#[trigger] ds[i]).text@
                == (#[trigger] ds[j]).text@ by {
            assert(is_notification(ds[i], recipients[i], t@, n));
            assert(is_notification(ds[j], recipients[j], t@, n));
        }
    }
}

/// The fan-out of a topic is planned whole before any delivery starts, so a
/// recipient whose delivery fails takes nothing from the others: every other
/// recipient still has its own delivery of the notification.
pub proof fn lemma_failure_spares_the_others(
    p: Payload,
    recipients: Seq<i64>,
    r: Result<Vec<Delivery>, DecodeError>,
    failed: int,
)
    requires
        decode_spec(p) matches Ok(Event::Topic { .. }),
        handled(p, recipients, r),
        0 <= failed < recipients.len(),
    ensures
        forall|j: int|
            0 <= j < recipients.len() && j != failed ==> (#[trigger] r->Ok_0@[j]).recipient
                == recipients[j],
{
    let ds = r->Ok_0@;
    match decode_spec(p) {
        Ok(Event::Topic { title, id }) => {
            assert forall|j: int| 0 <= j < recipients.len() && j != failed implies (
            #[trigger] ds[j]).recipient == recipients[j] by {
                assert(is_notification(ds[j], recipients[j], title@, id));
            }
        },
        _ => {},
    }
}

/// The reply to a body that decodes is a success, for any recipients: it is
/// decided before any delivery starts, so no delivery's outcome, not even
/// the failure of all of them, can change it.
pub proof fn lemma_accepted_whatever_the_sends(
    p: Payload,
    recipients: Seq<i64>,
    r: Result<Vec<Delivery>, DecodeError>,
)
    requires
        decode_spec(p) is Ok,
        handled(p, recipients, r),
    ensures
        reply_status(r) == STATUS_OK,
        reply_body(r).len() == 0,
{
}

/// A body that does not decode is never answered with success.
pub proof fn lemma_rejected_body_fails(
    p: Payload,
    recipients: Seq<i64>,
    r: Result<Vec<Delivery>, DecodeError>,
)
    requires
        decode_spec(p) is Err,
        handled(p, recipients, r),
    ensures
        r is Err,
        reply_status(r) == STATUS_BAD_REQUEST,
{
}

} // verus!
