//! What the shell launches: the backend sidecar and its command line.

use vstd::prelude::*;

verus! {

/// Logical name of the backend executable, without any platform suffix.
pub const BACKEND_NAME: &'static str = "eve-flipper-backend";

/// The flag that tells the backend which TCP port to listen on.
pub const PORT_FLAG: &'static str = "--port";

/// The port the backend is told to listen on, as it appears on its command
/// line. It is fixed: nothing in the environment changes it.
pub const PORT_VALUE: &'static str = "13370";

/// The name under which the backend is looked up beside the shell.
pub open spec fn sidecar_name() -> Seq<char> {
    BACKEND_NAME@
}

/// The backend's argument list: the port flag, then the port.
pub open spec fn launch_args() -> Seq<Seq<char>> {
    seq![PORT_FLAG@, PORT_VALUE@]
}

/// Returns the name under which the backend is looked up.
pub fn backend_name() -> (name: String)
    ensures
        name@ == sidecar_name(),
{
    BACKEND_NAME.to_owned()
}

/// Returns the argument list the backend is started with.
pub fn backend_args() -> (args: Vec<String>)
    ensures
        args.deep_view() == launch_args(),
{
    let mut args: Vec<String> = Vec::new();
    args.push(PORT_FLAG.to_owned());
    args.push(PORT_VALUE.to_owned());
    assert(args.deep_view() =~= launch_args());
    args
}

} // verus!
