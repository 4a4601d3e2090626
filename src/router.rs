use vstd::prelude::*;
use crate::message::Message;

verus! {

/// What the messaging client reports.
#[derive(Clone, Debug)]
pub enum Event {
    Connected,
    Disconnected,
    QrCodeGenerated(String),
    LoggedIn(String),
    LoggedOut,
    MessageReceived(Message),
    Other,
}

/// What to do with an event.
#[derive(Clone, Copy, Debug, PartialEq, Eq, Structural)]
pub enum Route {
    /// Store the received message, apart from the delivery of later events.
    Store,
    /// Only tell the user what happened.
    Report,
    /// Nothing to do.
    Ignore,
}

/// A received message is kept when it can be stored and carries text.
pub open spec fn keeps(m: Message) -> bool {
    m.wf() && (m.text matches Some(t) && t@.len() > 0)
}

/// Whether a received message is to be stored.
pub fn should_store(m: &Message) -> (r: bool)
    ensures
        r == keeps(*m),
{
    let has_text = match &m.text {
        Some(t) => !t.as_str().is_empty(),
        None => false,
    };
    has_text && m.is_storable()
}

/// The route of an event: received messages worth keeping are stored, the
/// client's state changes are reported, and the rest is ignored.
pub fn route_event(event: &Event) -> (r: Route)
    ensures
        r == (match *event {
            Event::MessageReceived(m) => if keeps(m) {
                Route::Store
            } else {
                Route::Ignore
            },
            Event::Other => Route::Ignore,
            _ => Route::Report,
        }),
{
    match event {
        Event::MessageReceived(m) => {
            if should_store(m) {
                Route::Store
            } else {
                Route::Ignore
            }
        },
        Event::Other => Route::Ignore,
        _ => Route::Report,
    }
}

} // verus!
