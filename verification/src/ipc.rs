//! The out-of-band notifier: what to ask of the message bus.
//!
//! The protocol engines do not use the notifier. It sends one string as a
//! method call to an object of the pair's service and waits a bounded time for
//! the reply, or it claims the service's name so that such calls arrive. This
//! module says what is asked; talking to the bus is the caller's part.

use vstd::prelude::*;
use vstd::string::*;
use crate::common::{DBUS_INTERFACE, DBUS_SERVICE_NAME};

verus! {

/// How long a sender waits for the reply to a method call, in seconds.
pub const DBUS_TIMEOUT_SECS: u64 = 2;

/// A method call that carries one string, and the wait for its reply.
#[derive(Clone, PartialEq, Eq, Debug)]
pub struct MethodCall {
    /// Bus name of the service that is called.
    pub destination: String,
    /// Object path within the service.
    pub path: String,
    /// Interface that declares the method.
    pub interface: String,
    /// Name of the method.
    pub method: String,
    /// The one argument of the call.
    pub argument: String,
    /// Bound on the wait for the reply, in seconds.
    pub timeout_secs: u64,
}

/// A claim to a bus name.
#[derive(Clone, PartialEq, Eq, Debug)]
pub struct NameRequest {
    /// The bus name that is claimed.
    pub name: String,
    /// Whether another claimant may take the name over later.
    pub allow_replacement: bool,
    /// Whether to take the name over from its present owner.
    pub replace_existing: bool,
    /// Whether to fail at once when the name is taken, in place of queueing.
    pub do_not_queue: bool,
}

/// The call that delivers `message` to `method` of the object at `path`: it
/// goes to the pair's service and interface and waits `DBUS_TIMEOUT_SECS`.
pub fn method_call(path: &str, method: &str, message: &str) -> (call: MethodCall)
    ensures
        call.destination@ == DBUS_SERVICE_NAME@,
        call.path@ == path@,
        call.interface@ == DBUS_INTERFACE@,
        call.method@ == method@,
        call.argument@ == message@,
        call.timeout_secs == DBUS_TIMEOUT_SECS,
{
    MethodCall {
        destination: String::from_str(DBUS_SERVICE_NAME),
        path: String::from_str(path),
        interface: String::from_str(DBUS_INTERFACE),
        method: String::from_str(method),
        argument: String::from_str(message),
        timeout_secs: DBUS_TIMEOUT_SECS,
    }
}

/// The claim of a receiver: the pair's service name, taken over from whoever
/// holds it, not given up to a later claimant, and queued for if need be.
pub fn receiver_name_request() -> (request: NameRequest)
    ensures
        request.name@ == DBUS_SERVICE_NAME@,
        !request.allow_replacement,
        request.replace_existing,
        !request.do_not_queue,
{
    NameRequest {
        name: String::from_str(DBUS_SERVICE_NAME),
        allow_replacement: false,
        replace_existing: true,
        do_not_queue: false,
    }
}

} // verus!
