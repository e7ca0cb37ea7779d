//! The buses of one webview over a tick: the messages that came in are
//! taken off the in bus and decoded, the scripts that go out are queued, and
//! at the end of the tick the scripts are taken off the out bus and handed
//! out. What is pushed onto the in bus after it was drained stays queued for
//! the next tick.

use crate::components::webview::{WebViewComponent, WebViews};
use crate::error::Error as WebviewError;
use crate::events::error::Error;
use crate::events::{InMessageBus, InWryEvent, OutMessageBus, OutWryEvent};
use vstd::prelude::*;

verus! {

/// The event of a message whose decoding came out as `decoded`.
pub open spec fn event_of_message<E>(decoded: Option<E>) -> Result<E, Error> {
    match decoded {
        Some(event) => Ok(event),
        None => Err(Error::Deserialize),
    }
}

/// The event of a message whose decoding came out as `decoded`: the event, or
/// the error `Deserialize`.
pub fn event_from_message<E>(decoded: Option<E>) -> (event: Result<E, Error>)
    ensures
        event == event_of_message(decoded),
{
    match decoded {
        Some(event) => Ok(event),
        None => Err(Error::Deserialize),
    }
}

/// `event` is what `message` comes to, by a decoding that the event's type
/// gives for it.
pub open spec fn decoded_from<E: InWryEvent>(message: String, event: Result<E, Error>) -> bool {
    exists|decoded: Option<E>|
        call_ensures(E::from_json, (&message,), decoded) && event == event_of_message(decoded)
}

/// Takes the messages that a webview has sent off the bus and decodes them,
/// oldest first: each queued message gives one result, and the bus is left
/// empty. A message that does not decode gives the error `Deserialize` in its
/// place, and the ones after it are decoded all the same.
pub fn consume_ipfs_events<E: InWryEvent>(msg_bus: &mut InMessageBus) -> (events: Vec<
    Result<E, Error>,
>)
    ensures
        final(msg_bus).0@ == Seq::<String>::empty(),
        events.len() == old(msg_bus).0@.len(),
        forall|i: int|
            0 <= i < events.len() ==> decoded_from(old(msg_bus).0@[i], #[trigger] events[i]),
{
    let messages = msg_bus.0.drain();
    let mut events: Vec<Result<E, Error>> = Vec::new();
    let mut i: usize = 0;
    while i < messages.len()
        invariant
            i <= messages.len(),
            messages@ == old(msg_bus).0@,
            events.len() == i,
            forall|j: int| 0 <= j < i ==> decoded_from(old(msg_bus).0@[j], #[trigger] events[j]),
        decreases messages.len() - i,
    {
        events.push(event_from_message(E::from_json(&messages[i])));
        i += 1;
    }
    events
}

/// Queues the script of `event` for the webview of the bus.
pub fn produce_out_scripts<E: OutWryEvent>(event: &E, out_bus: &mut OutMessageBus)
    ensures
        exists|script: String|
            call_ensures(E::to_script, (event,), script) && final(out_bus).0@ == old(
                out_bus,
            ).0@.push(script),
{
    let script = event.to_script();
    out_bus.0.push(script);
}

/// Ends the tick of one webview: takes the scripts that are queued for it
/// off the out bus and returns them, oldest first, for the host to evaluate.
/// The in bus is not touched: what it holds has not been delivered yet.
///
/// Where scripts are queued for a webview that is not registered, this is the
/// error `FailedToGetWebview`, and the out bus stays as it is.
pub fn clear_busses<H>(
    webviews: &WebViews<H>,
    webview_component: &WebViewComponent,
    out_bus: &mut OutMessageBus,
) -> (scripts: Result<Vec<String>, WebviewError>)
    ensures
        scripts is Ok <==> old(out_bus).0@.len() == 0 || webviews@.contains_key(
            webview_component.webview_name@,
        ),
        scripts matches Ok(queued) ==> queued@ == old(out_bus).0@ && final(out_bus).0@ == Seq::<
            String,
        >::empty(),
        scripts matches Err(error) ==> final(out_bus).0@ == old(out_bus).0@ && (error matches WebviewError::FailedToGetWebview(
            missing,
        ) && missing@ == webview_component.webview_name@),
{
    if !out_bus.0.is_empty() && !webviews.contains(&webview_component.webview_name) {
        return Err(WebviewError::FailedToGetWebview(webview_component.webview_name.clone()));
    }
    Ok(out_bus.0.drain())
}

} // verus!
