//! The callback listener's lifecycle and connection handling.
//!
//! After a successful bind the listener waits for exactly one connection.
//! If the connection yields data, the listener answers with the fixed
//! confirmation response and raises one callback notification carrying the
//! parsed query parameters; if nothing is read, it falls silent and raises
//! nothing. The bind, accept, read and write themselves are the caller's
//! I/O; the decisions and the data handling live here.

use vstd::prelude::*;
use crate::http::confirmation_page;
use crate::http::confirmation_response_view;
use crate::http::http_ok_response;
use crate::params::lossy_decode;
use crate::params::params_of;
use crate::params::parse_callback_params;

verus! {

/// Payload of the `oauth-server-callback` notification: the parameter
/// mapping parsed from the redirect, as key/value pairs in order of
/// appearance (possibly empty).
pub struct CallbackNote {
    pub params: Vec<(String, String)>,
}

impl CallbackNote {
    /// The event this payload is delivered under.
    pub fn event_name(&self) -> (r: &'static str)
        ensures
            r@ == "oauth-server-callback"@,
    {
        "oauth-server-callback"
    }
}

/// The parameters carried by `note` are exactly those parsed from `req`,
/// each key and value decoded with the lossy UTF-8 decoding.
pub open spec fn note_params_decoded(note: CallbackNote, req: Seq<u8>) -> bool {
    &&& note.params@.len() == params_of(req).len()
    &&& forall|i: int|
        0 <= i < note.params@.len() ==> note.params@[i].0@ == lossy_decode(params_of(req)[i].0)
            && note.params@[i].1@ == lossy_decode(params_of(req)[i].1)
}

/// Lifecycle of one listener instance after a successful bind. There is no
/// error state: every failure after the bind is swallowed, and a listener
/// that never hears a connection simply stays idle.
#[derive(Clone, Copy, PartialEq, Eq, Structural, Debug)]
pub enum ListenerPhase {
    WaitingForConnection,
    Notified,
    Idle,
}

/// What the single accepted connection yielded: the bytes of one read, or
/// nothing (no connection, an empty read, or a read error).
pub enum ConnectionEvent {
    Received(Vec<u8>),
    NothingRead,
}

/// Serves one connection's data: the fixed confirmation response to send
/// back, and the single callback notification to raise afterwards.
pub fn handle_callback_request(request: &[u8]) -> (r: (String, CallbackNote))
    ensures
        r.0@ == confirmation_response_view(),
        note_params_decoded(r.1, request@),
{
    let page = confirmation_page();
    let response = http_ok_response(page);
    let params = parse_callback_params(request);
    (response, CallbackNote { params })
}

/// One step of the listener's state machine. Only a waiting listener that
/// received data responds and notifies — exactly once; a waiting listener
/// that read nothing goes idle silently, and the terminal phases absorb
/// every further event.
pub fn listener_step(phase: ListenerPhase, event: &ConnectionEvent) -> (r: (
    ListenerPhase,
    Option<(String, CallbackNote)>,
))
    ensures
        (phase is WaitingForConnection ==> (event matches ConnectionEvent::Received(data) ==> r.0
            is Notified && (r.1 matches Some(out) && out.0@ == confirmation_response_view()
            && note_params_decoded(out.1, data@)))),
        (phase is WaitingForConnection && event is NothingRead ==> r.0 is Idle && r.1 is None),
        (!(phase is WaitingForConnection) ==> r.0 == phase && r.1 is None),
{
    match phase {
        ListenerPhase::WaitingForConnection => match event {
            ConnectionEvent::Received(data) => {
                let (response, note) = handle_callback_request(data.as_slice());
                (ListenerPhase::Notified, Some((response, note)))
            },
            ConnectionEvent::NothingRead => (ListenerPhase::Idle, None),
        },
        _ => (phase, None),
    }
}

} // verus!
