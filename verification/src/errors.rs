//! Error taxonomy for the streaming runtime.
//!
//! Kinds mirror the places where the runtime can fail: producing source
//! data, the remote peer, the two planes, the codec, and the transport.

use vstd::prelude::*;

verus! {

/// An error kind raised somewhere in the runtime.
///
/// `Io` covers transport failures surfaced by the platform layer, such as
/// a write of zero bytes while data is still buffered.
#[derive(Clone, Copy, Debug, PartialEq, Eq, Structural)]
pub enum Error {
    /// Error in generating source data.
    SourceData,
    /// Error in receiving reports from the peer.
    RemotePeer,
    /// Error in the control plane.
    ControlPlane,
    /// Error in data plane communication.
    DataPlane,
    /// Error in replying to the client.
    ReplyChannel,
    /// Error in encoding a datum.
    EncodeError,
    /// Error in decoding a datum.
    DecodeError,
    /// Transport-level failure.
    Io,
    /// Timer failure.
    Timer,
    /// A shared-state lock was poisoned.
    SyncPoison,
}

} // verus!
