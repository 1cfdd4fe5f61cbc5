//! Process-wide constants shared by both roles.

use vstd::prelude::*;

verus! {

/// The endpoint address: the filesystem path of the rendezvous socket.
pub const SOCKET_PATH: &'static str = "/tmp/controller_worker.sock";

/// Directory that holds one log file per process.
pub const LOG_DIR: &'static str = "/tmp/myapp";

/// Bus name under which the pair is known on the message bus.
pub const DBUS_SERVICE_NAME: &'static str = "com.example.ControllerWorker";

/// Object path of the controller on the message bus.
pub const DBUS_CONTROLLER_PATH: &'static str = "/com/example/Controller";

/// Object path of the worker on the message bus.
pub const DBUS_WORKER_PATH: &'static str = "/com/example/Worker";

/// Interface that both objects implement on the message bus.
pub const DBUS_INTERFACE: &'static str = "com.example.ControllerWorker1";

} // verus!
