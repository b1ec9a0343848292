use bbs_relay::dispatch::{deliveries, handle, respond, Delivery, STATUS_BAD_REQUEST, STATUS_OK};
use bbs_relay::event::{decode, DecodeError, Event, Payload};
use bbs_relay::message::{format_message, push_decimal};

fn payload(event: Option<&str>, title: Option<&str>, id: Option<u64>) -> Payload {
    Payload {
        event: event.map(|s| s.to_string()),
        title: title.map(|s| s.to_string()),
        id,
    }
}

fn recipients_of(ds: &[Delivery]) -> Vec<i64> {
    ds.iter().map(|d| d.recipient).collect()
}

#[test]
fn formats_hello_42_exactly() {
    assert_eq!(
        format_message("Hello", 42),
        "<b>AOSC BBS</b>\n<a href=\"https://bbs.aosc.io/t/topic/42\">Hello</a>"
    );
}

#[test]
fn formats_id_zero_and_largest_id() {
    assert_eq!(
        format_message("", 0),
        "<b>AOSC BBS</b>\n<a href=\"https://bbs.aosc.io/t/topic/0\"></a>"
    );
    assert_eq!(
        format_message("Max", u64::MAX),
        "<b>AOSC BBS</b>\n<a href=\"https://bbs.aosc.io/t/topic/18446744073709551615\">Max</a>"
    );
}

#[test]
fn decimal_appends_digits() {
    let mut s = String::from("n=");
    push_decimal(&mut s, 1001);
    assert_eq!(s, "n=1001");
    let mut z = String::new();
    push_decimal(&mut z, 9);
    assert_eq!(z, "9");
    let mut t = String::new();
    push_decimal(&mut t, 10);
    assert_eq!(t, "10");
}

#[test]
fn decodes_ping() {
    assert!(matches!(decode(&payload(Some("ping"), None, None)), Ok(Event::Ping)));
    // Extra fields are ignored on a ping.
    assert!(matches!(decode(&payload(Some("ping"), Some("x"), Some(3))), Ok(Event::Ping)));
}

#[test]
fn decodes_topic() {
    match decode(&payload(Some("topic"), Some("New Release"), Some(1001))) {
        Ok(Event::Topic { title, id }) => {
            assert_eq!(title, "New Release");
            assert_eq!(id, 1001);
        }
        _ => panic!("expected a topic"),
    }
}

#[test]
fn decode_rejects_missing_event() {
    assert!(matches!(decode(&payload(None, Some("t"), Some(1))), Err(DecodeError::MissingEvent)));
}

#[test]
fn decode_rejects_unknown_event() {
    match decode(&payload(Some("unknown"), None, None)) {
        Err(DecodeError::UnknownEvent(tag)) => assert_eq!(tag, "unknown"),
        _ => panic!("expected an unknown event"),
    }
    // Tags are matched exactly.
    assert!(matches!(decode(&payload(Some("Ping"), None, None)), Err(DecodeError::UnknownEvent(_))));
}

#[test]
fn decode_rejects_topic_without_title_or_id() {
    assert!(matches!(decode(&payload(Some("topic"), None, Some(1))), Err(DecodeError::MissingTitle)));
    assert!(matches!(decode(&payload(Some("topic"), Some("t"), None)), Err(DecodeError::MissingId)));
    assert!(matches!(decode(&payload(Some("topic"), None, None)), Err(DecodeError::MissingTitle)));
}

#[test]
fn describes_each_decode_error() {
    assert_eq!(DecodeError::MissingEvent.describe(), "missing field `event`");
    assert_eq!(DecodeError::UnknownEvent("x".to_string()).describe(), "unknown event `x`");
    assert_eq!(DecodeError::MissingTitle.describe(), "missing field `title`");
    assert_eq!(DecodeError::MissingId.describe(), "missing field `id`");
    assert_eq!(DecodeError::Malformed("bad".to_string()).describe(), "bad");
}

#[test]
fn ping_fans_out_to_nobody() {
    assert!(deliveries(&Event::Ping, &vec![1, 2, 3]).is_empty());
}

#[test]
fn topic_fans_out_to_every_recipient() {
    let e = Event::Topic { title: "T".to_string(), id: 7 };
    let ds = deliveries(&e, &vec![5, -6, 5]);
    assert_eq!(recipients_of(&ds), vec![5, -6, 5]);
    for d in &ds {
        assert_eq!(d.text, "<b>AOSC BBS</b>\n<a href=\"https://bbs.aosc.io/t/topic/7\">T</a>");
        assert!(d.html);
        assert!(!d.link_preview);
    }
}

#[test]
fn topic_with_no_recipients_sends_nothing() {
    let e = Event::Topic { title: "T".to_string(), id: 7 };
    assert!(deliveries(&e, &vec![]).is_empty());
}

#[test]
fn topic_request_end_to_end() {
    let r = handle(&payload(Some("topic"), Some("New Release"), Some(1001)), &vec![111, 222]);
    let ds = match &r {
        Ok(ds) => ds,
        Err(_) => panic!("expected acceptance"),
    };
    assert_eq!(recipients_of(ds), vec![111, 222]);
    for d in ds {
        assert!(d.text.contains("https://bbs.aosc.io/t/topic/1001"));
        assert!(d.text.contains(">New Release</a>"));
    }
    let rep = respond(&r);
    assert_eq!(rep.status, 200);
    assert_eq!(rep.status, STATUS_OK);
    assert_eq!(rep.body, "");
}

#[test]
fn ping_request_end_to_end() {
    let r = handle(&payload(Some("ping"), None, None), &vec![111, 222]);
    match &r {
        Ok(ds) => assert!(ds.is_empty()),
        Err(_) => panic!("expected acceptance"),
    }
    assert_eq!(respond(&r).status, 200);
}

#[test]
fn unknown_request_end_to_end() {
    let r = handle(&payload(Some("unknown"), None, None), &vec![111, 222]);
    assert!(r.is_err());
    let rep = respond(&r);
    assert_eq!(rep.status, STATUS_BAD_REQUEST);
    assert_ne!(rep.status, 200);
    assert_eq!(rep.body, "Something went wrong: unknown event `unknown`");
}

#[test]
fn malformed_body_is_rejected() {
    let rep = respond(&Err(DecodeError::Malformed("expected u64".to_string())));
    assert_eq!(rep.status, 400);
    assert_eq!(rep.body, "Something went wrong: expected u64");
}

#[test]
fn acceptance_does_not_depend_on_recipients() {
    let p = payload(Some("topic"), Some("A"), Some(1));
    for rs in [vec![], vec![1], vec![1, 2, 3, 4]] {
        let r = handle(&p, &rs);
        assert_eq!(r.as_ref().map(|ds| ds.len()).ok(), Some(rs.len()));
        assert_eq!(respond(&r).status, 200);
    }
}

#[test]
fn one_failed_recipient_leaves_the_others_planned() {
    // Every delivery is planned before any is sent: whichever one fails,
    // the others stand in the plan.
    let rs = vec![10, 20, 30];
    let ds = match handle(&payload(Some("topic"), Some("A"), Some(1)), &rs) {
        Ok(ds) => ds,
        Err(_) => panic!("expected acceptance"),
    };
    for failed in 0..rs.len() {
        let others: Vec<i64> =
            ds.iter().enumerate().filter(|(i, _)| *i != failed).map(|(_, d)| d.recipient).collect();
        let expected: Vec<i64> =
            rs.iter().enumerate().filter(|(i, _)| *i != failed).map(|(_, r)| *r).collect();
        assert_eq!(others, expected);
    }
}
