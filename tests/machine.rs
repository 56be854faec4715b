use ical_fetch::error::FetchError;
use ical_fetch::fetch::{BoundedFetch, FetchAction, FetchEvent, Phase};

const URL: &str = "https://example.com/calendar.ics";

fn calendar_of_size(n: usize) -> String {
    let mut s = String::from("BEGIN:VCALENDAR\r\n");
    while s.len() + 15 < n {
        s.push('X');
    }
    s.push_str("\r\nEND:VCALENDAR");
    s
}

fn fetch_with(content_length: Option<u64>, body: Vec<u8>) -> FetchAction {
    let mut f = BoundedFetch::new(URL.to_string());
    assert_eq!(f.step(FetchEvent::Started), FetchAction::BuildClient(10));
    assert_eq!(f.step(FetchEvent::ClientBuilt), FetchAction::SendGet(URL.to_string()));
    assert_eq!(f.step(FetchEvent::ResponseHead(content_length)), FetchAction::ReadBody);
    let a = f.step(FetchEvent::BodyReceived(body));
    assert_eq!(f.phase, Phase::Finished);
    a
}

#[test]
fn one_kilobyte_calendar_is_returned_exactly() {
    let text = calendar_of_size(1024);
    assert_eq!(text.len(), 1024);
    let a = fetch_with(Some(1024), text.clone().into_bytes());
    assert_eq!(a, FetchAction::Finish(Ok(text)));
}

#[test]
fn six_mebibyte_declaration_is_rejected_before_the_body() {
    let mut f = BoundedFetch::new(URL.to_string());
    f.step(FetchEvent::Started);
    f.step(FetchEvent::ClientBuilt);
    let a = f.step(FetchEvent::ResponseHead(Some(6_291_456)));
    assert_eq!(a, FetchAction::Finish(Err(FetchError::PayloadTooLarge)));
    assert_eq!(f.phase, Phase::Finished);
    assert_eq!(f.step(FetchEvent::BodyReceived(b"late".to_vec())), FetchAction::Ignore);
    assert_eq!(f.phase, Phase::Finished);
    if let FetchAction::Finish(Err(e)) = a {
        assert_eq!(e.message(), "iCal file is too large (max 5MB)");
    }
}

#[test]
fn missing_length_lets_a_large_body_through() {
    let text = calendar_of_size(6 * 1024 * 1024);
    let a = fetch_with(None, text.clone().into_bytes());
    assert_eq!(a, FetchAction::Finish(Ok(text)));
}

#[test]
fn send_failure_is_a_network_error() {
    let mut f = BoundedFetch::new("http://unreachable.invalid/".to_string());
    assert_eq!(f.step(FetchEvent::Started), FetchAction::BuildClient(10));
    f.step(FetchEvent::ClientBuilt);
    let a = f.step(FetchEvent::SendFailed("operation timed out".to_string()));
    assert_eq!(
        a,
        FetchAction::Finish(Err(FetchError::Network("operation timed out".to_string())))
    );
}

#[test]
fn client_failure_is_a_client_init_error() {
    let mut f = BoundedFetch::new(URL.to_string());
    f.step(FetchEvent::Started);
    let a = f.step(FetchEvent::ClientFailed("no TLS backend".to_string()));
    assert_eq!(
        a,
        FetchAction::Finish(Err(FetchError::ClientInit("no TLS backend".to_string())))
    );
}

#[test]
fn body_read_failure_is_a_decode_error() {
    let mut f = BoundedFetch::new(URL.to_string());
    f.step(FetchEvent::Started);
    f.step(FetchEvent::ClientBuilt);
    f.step(FetchEvent::ResponseHead(Some(10)));
    let a = f.step(FetchEvent::BodyFailed("connection reset".to_string()));
    assert_eq!(
        a,
        FetchAction::Finish(Err(FetchError::Decode("connection reset".to_string())))
    );
}

#[test]
fn non_utf8_body_fails_rather_than_returning_text() {
    let a = fetch_with(Some(3), vec![0xc3, 0x28, 0xa0]);
    assert!(matches!(a, FetchAction::Finish(Err(FetchError::Decode(_)))));
}

#[test]
fn events_out_of_turn_are_ignored() {
    let mut f = BoundedFetch::new(URL.to_string());
    assert_eq!(f.step(FetchEvent::ClientBuilt), FetchAction::Ignore);
    assert_eq!(f.step(FetchEvent::ResponseHead(None)), FetchAction::Ignore);
    assert_eq!(f.phase, Phase::Idle);
    f.step(FetchEvent::Started);
    assert_eq!(f.step(FetchEvent::Started), FetchAction::Ignore);
    assert_eq!(f.phase, Phase::BuildingClient);
}

#[test]
fn same_url_and_content_give_the_same_text() {
    let text = calendar_of_size(300);
    let first = fetch_with(Some(300), text.clone().into_bytes());
    let second = fetch_with(None, text.clone().into_bytes());
    assert_eq!(first, second);
    assert_eq!(first, FetchAction::Finish(Ok(text)));
}
