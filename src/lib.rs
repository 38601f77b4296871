// A server for the GDB Remote Serial Protocol, verified with Verus.
//
// - `codec`: packet framing, escaping, checksums, and the inbound frame scanner.
// - `parse`: packet bodies to commands.
// - `response`: the bounded writer that responses are built in.
// - `dispatch`: the base commands, each against the engine state and the host.
// - `resume`: what a `vCont` action list asks of the host.
// - `stub`: the engine state, stop packets and errors.
// - `session`: acknowledgements, response framing and the laws over a session.
// - `target`, `arch`: what the host provides.
use vstd::prelude::*;

pub mod addr;
pub mod arch;
pub mod codec;
pub mod dispatch;
pub mod hex;
pub mod parse;
pub mod protocol;
pub mod response;
pub mod resume;
pub mod session;
pub mod stub;
pub mod target;

verus! {

} // verus!
