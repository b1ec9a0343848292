//! Webhook events and their decoding from the fields of a request body.
use vstd::prelude::*;

verus! {

/// A forum event carried by one webhook request.
pub enum Event {
    /// A health check; it causes nothing.
    Ping,
    /// A new topic, with its title and numeric identifier.
    Topic { title: String, id: u64 },
}

/// The fields of a request body that decoding reads, each `None` where the
/// body does not hold it. Other fields of the body are ignored.
pub struct Payload {
    pub event: Option<String>,
    pub title: Option<String>,
    pub id: Option<u64>,
}

/// Why a request body is not an event.
pub enum DecodeError {
    /// The body has no `event` field.
    MissingEvent,
    /// The `event` field names no known event.
    UnknownEvent(String),
    /// A topic event without a `title`.
    MissingTitle,
    /// A topic event without an `id`.
    MissingId,
    /// The body is not a JSON object of the expected shape (a field of the
    /// wrong type, an `id` outside the range of `u64`, broken syntax).
    Malformed(String),
}

impl DecodeError {
    /// The words that explain the error to the sender of the request.
    pub open spec fn detail(&self) -> Seq<char> {
        match self {
            DecodeError::MissingEvent => "missing field `event`"@,
            DecodeError::UnknownEvent(tag) => "unknown event `"@ + tag@ + "`"@,
            DecodeError::MissingTitle => "missing field `title`"@,
            DecodeError::MissingId => "missing field `id`"@,
            DecodeError::Malformed(why) => why@,
        }
    }

    /// Renders [`DecodeError::detail`].
    pub fn describe(&self) -> (r: String)
        ensures
            r@ == self.detail(),
    {
        match self {
            DecodeError::MissingEvent => String::from_str("missing field `event`"),
            DecodeError::UnknownEvent(tag) => {
                let mut s = String::from_str("unknown event `");
                s.append(tag.as_str());
                s.append("`");
                s
            },
            DecodeError::MissingTitle => String::from_str("missing field `title`"),
            DecodeError::MissingId => String::from_str("missing field `id`"),
            DecodeError::Malformed(why) => why.clone(),
        }
    }
}

/// The tag of the ping event.
pub open spec fn ping_tag() -> Seq<char> {
    "ping"@
}

/// The tag of the topic event.
pub open spec fn topic_tag() -> Seq<char> {
    "topic"@
}

/// The event that the fields `p` describe, or why they describe none.
pub open spec fn decode_spec(p: Payload) -> Result<Event, DecodeError> {
    match p.event {
        None => Err(DecodeError::MissingEvent),
        Some(tag) => if tag@ == ping_tag() {
            Ok(Event::Ping)
        } else if tag@ == topic_tag() {
            match (p.title, p.id) {
                (None, _) => Err(DecodeError::MissingTitle),
                (Some(_), None) => Err(DecodeError::MissingId),
                (Some(title), Some(id)) => Ok(Event::Topic { title, id }),
            }
        } else {
            Err(DecodeError::UnknownEvent(tag))
        },
    }
}

/// Decodes the fields of a request body into an event.
pub fn decode(p: &Payload) -> (r: Result<Event, DecodeError>)
    ensures
        r == decode_spec(*p),
{
    match &p.event {
        None => Err(DecodeError::MissingEvent),
        Some(tag) => {
            if *tag == String::from_str("ping") {
                Ok(Event::Ping)
            } else if *tag == String::from_str("topic") {
                match (&p.title, p.id) {
                    (None, _) => Err(DecodeError::MissingTitle),
                    (Some(_), None) => Err(DecodeError::MissingId),
                    (Some(title), Some(id)) => Ok(Event::Topic { title: title.clone(), id }),
                }
            } else {
                Err(DecodeError::UnknownEvent(tag.clone()))
            }
        },
    }
}

/// Decoding rejects every body that lacks the `event` field, names an
/// unknown event, or is a topic without a `title` or without an `id`.
pub proof fn lemma_decode_rejects(p: Payload)
    requires
        p.event is None
            || (p.event->Some_0@ != ping_tag() && p.event->Some_0@ != topic_tag())
            || (p.event->Some_0@ == topic_tag() && (p.title is None || p.id is None)),
    ensures
        decode_spec(p) is Err,
{
    reveal_strlit("ping");
    reveal_strlit("topic");
    if p.event is Some {
        assert(ping_tag().len() != topic_tag().len());
    }
}

} // verus!
