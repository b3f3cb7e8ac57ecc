//! Inbound notification records whose fields the session layer can hold
//! as plain values. The richer data events carry decimal prices and are
//! decoded outside this crate; the loop only classifies and forwards
//! their raw payloads.

use vstd::prelude::*;

verus! {

/// The keepalive answer notification: its tag field, always `pong` on the
/// wire.
#[derive(Debug, Clone)]
pub struct PongMessage {
    pub option_type: String,
}

} // verus!
