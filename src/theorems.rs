//! What holds of whole fetches: runs of the state machine over a sequence of
//! events, and the guarantees a caller can rely on.
use vstd::prelude::*;
use vstd::utf8::{decode_utf8, encode_utf8, valid_utf8};

use crate::body::{
    body_outcome, declared_too_large, not_utf8_detail, MAX_DECLARED_LENGTH, REQUEST_TIMEOUT_SECS,
};
use crate::error::ErrorView;
use crate::fetch::{next, ActionView, EventView, Phase};

verus! {

/// The phase reached and the actions handed out when the machine, from
/// `phase`, takes in `events` one after the other.
pub open spec fn run(phase: Phase, url: Seq<char>, events: Seq<EventView>) -> (Phase, Seq<ActionView>)
    decreases events.len(),
{
    if events.len() == 0 {
        (phase, Seq::empty())
    } else {
        let first = next(phase, url, events[0]);
        let rest = run(first.0, url, events.drop_first());
        (rest.0, seq![first.1] + rest.1)
    }
}

/// The events of a fetch that gets its client, a response head declaring
/// `content_length`, and the whole body `bytes`.
pub open spec fn answered(content_length: Option<u64>, bytes: Seq<u8>) -> Seq<EventView> {
    seq![
        EventView::Started,
        EventView::ClientBuilt,
        EventView::ResponseHead(content_length),
        EventView::BodyReceived(bytes),
    ]
}

proof fn lemma_run_cons(phase: Phase, url: Seq<char>, e: EventView, rest: Seq<EventView>)
    ensures
        run(phase, url, seq![e] + rest) == (
            run(next(phase, url, e).0, url, rest).0,
            seq![next(phase, url, e).1] + run(next(phase, url, e).0, url, rest).1,
        ),
{
    let s = seq![e] + rest;
    assert(s[0] == e);
    assert(s.drop_first() =~= rest);
}

/// A finished fetch stays finished: every later event is ignored.
pub proof fn lemma_finished_is_final(url: Seq<char>, events: Seq<EventView>)
    ensures
        run(Phase::Finished, url, events) == (
            Phase::Finished,
            Seq::new(events.len(), |i: int| ActionView::Ignore),
        ),
    decreases events.len(),
{
    if events.len() > 0 {
        lemma_finished_is_final(url, events.drop_first());
        let r = run(Phase::Finished, url, events);
        assert(r.1 =~= Seq::new(events.len(), |i: int| ActionView::Ignore));
    }
}

/// A fetch whose response declares no length above the limit and whose body
/// is UTF-8 builds a client limited to the request timeout, sends to the URL
/// as given, reads the body, and returns its text unchanged: the text
/// encodes back to exactly the bytes received.
pub proof fn lemma_small_body_returned_unchanged(
    url: Seq<char>,
    content_length: Option<u64>,
    bytes: Seq<u8>,
)
    requires
        !declared_too_large(content_length),
        valid_utf8(bytes),
    ensures
        run(Phase::Idle, url, answered(content_length, bytes)) == (
            Phase::Finished,
            seq![
                ActionView::BuildClient(REQUEST_TIMEOUT_SECS),
                ActionView::SendGet(url),
                ActionView::ReadBody,
                ActionView::Finish(Ok(decode_utf8(bytes))),
            ],
        ),
        encode_utf8(decode_utf8(bytes)) == bytes,
{
    reveal_with_fuel(run, 5);
    let evs = answered(content_length, bytes);
    let r = run(Phase::Idle, url, evs);
    assert(r.1 =~= seq![
        ActionView::BuildClient(REQUEST_TIMEOUT_SECS),
        ActionView::SendGet(url),
        ActionView::ReadBody,
        ActionView::Finish(Ok(decode_utf8(bytes))),
    ]);
    vstd::utf8::decode_utf8_encode_utf8(bytes);
}

/// A response that declares a length above 5 MiB ends the fetch with
/// `PayloadTooLarge`, and the body is never asked for: whatever events come
/// after, no action but `Ignore` is handed out.
pub proof fn lemma_declared_oversize_rejected_unread(
    url: Seq<char>,
    declared: u64,
    later: Seq<EventView>,
)
    requires
        declared > MAX_DECLARED_LENGTH,
    ensures
        run(Phase::Sending, url, seq![EventView::ResponseHead(Some(declared))] + later) == (
            Phase::Finished,
            seq![ActionView::Finish(Err(ErrorView::PayloadTooLarge))] + Seq::new(
                later.len(),
                |i: int| ActionView::Ignore,
            ),
        ),
{
    lemma_run_cons(Phase::Sending, url, EventView::ResponseHead(Some(declared)), later);
    lemma_finished_is_final(url, later);
}

/// A response that declares no length is never stopped by the size guard:
/// its body is read, whatever its size, and decides the result alone.
pub proof fn lemma_missing_length_never_guards(url: Seq<char>, bytes: Seq<u8>)
    ensures
        !declared_too_large(None),
        run(
            Phase::Sending,
            url,
            seq![EventView::ResponseHead(None), EventView::BodyReceived(bytes)],
        ) == (Phase::Finished, seq![ActionView::ReadBody, ActionView::Finish(body_outcome(bytes))]),
{
    reveal_with_fuel(run, 5);
    let evs = seq![EventView::ResponseHead(None), EventView::BodyReceived(bytes)];
    let r = run(Phase::Sending, url, evs);
    assert(r.1 =~= seq![ActionView::ReadBody, ActionView::Finish(body_outcome(bytes))]);
}

/// A request that fails in transport (unreachable host, refused connection,
/// the time limit reached) ends the fetch with `NetworkError` carrying the
/// client's description; the client it went through was built with the
/// 10-second limit on the whole request.
pub proof fn lemma_transport_failure_is_network_error(url: Seq<char>, detail: Seq<char>)
    ensures
        REQUEST_TIMEOUT_SECS == 10,
        run(
            Phase::Idle,
            url,
            seq![EventView::Started, EventView::ClientBuilt, EventView::SendFailed(detail)],
        ) == (
            Phase::Finished,
            seq![
                ActionView::BuildClient(REQUEST_TIMEOUT_SECS),
                ActionView::SendGet(url),
                ActionView::Finish(Err(ErrorView::Network(detail))),
            ],
        ),
{
    reveal_with_fuel(run, 5);
    let evs = seq![EventView::Started, EventView::ClientBuilt, EventView::SendFailed(detail)];
    let r = run(Phase::Idle, url, evs);
    assert(r.1 =~= seq![
        ActionView::BuildClient(REQUEST_TIMEOUT_SECS),
        ActionView::SendGet(url),
        ActionView::Finish(Err(ErrorView::Network(detail))),
    ]);
}

/// A body that is not UTF-8 ends the fetch with `DecodeError`, never with
/// text.
pub proof fn lemma_non_utf8_body_is_decode_error(url: Seq<char>, bytes: Seq<u8>)
    requires
        !valid_utf8(bytes),
    ensures
        next(Phase::ReadingBody, url, EventView::BodyReceived(bytes)) == (
            Phase::Finished,
            ActionView::Finish(Err(ErrorView::Decode(not_utf8_detail()))),
        ),
{
}

/// Two fetches of the same URL that receive the same body end the same way,
/// whatever lengths their responses declared within the limit: the result
/// depends on nothing kept from an earlier fetch.
pub proof fn lemma_same_content_same_result(
    url: Seq<char>,
    first_length: Option<u64>,
    second_length: Option<u64>,
    bytes: Seq<u8>,
)
    requires
        !declared_too_large(first_length),
        !declared_too_large(second_length),
    ensures
        run(Phase::Idle, url, answered(first_length, bytes)) == run(
            Phase::Idle,
            url,
            answered(second_length, bytes),
        ),
{
    reveal_with_fuel(run, 5);
}

} // verus!
