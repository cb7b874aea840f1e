//! The provisioner role: a thin remote-callable object surfacing
//! provisioning-protocol events.
//!
//! The daemon calls in and this layer replies; there is no state machine
//! beyond registered or not. The runner forwards each call to the matching
//! method here and sends the reply back on the bus.

use vstd::prelude::*;
use crate::element::ReqResult;

verus! {

/// Messages sent by a provisioner to its consumer, mirroring the
/// provisioning events the daemon reports.
#[derive(Clone, Debug, PartialEq)]
pub enum ProvisionerMessage {
    /// A node completed provisioning: its UUID, its assigned unicast
    /// address, and its element count.
    AddNodeComplete {
        /// The device UUID, as the daemon reports it.
        uuid: Vec<u16>,
        /// The unicast address assigned to the node.
        unicast: u16,
        /// The number of elements the node exposes.
        count: u8,
    },
    /// Provisioning a node failed: its UUID and the daemon's reason.
    AddNodeFailed {
        /// The device UUID, as the daemon reports it.
        uuid: Vec<u16>,
        /// The daemon's stated reason.
        reason: String,
    },
}

/// A handle stored inside a provisioner definition to make it controllable
/// once it has been registered.
#[derive(Clone, Copy, Debug, Default, PartialEq, Eq, Structural)]
pub struct ProvisionerControlHandle {
}

/// Definition of a provisioner.
#[derive(Clone, Copy, Debug, Default, PartialEq, Eq, Structural)]
pub struct Provisioner {
    /// Control handle for the provisioner once it has been registered.
    pub control_handle: ProvisionerControlHandle,
}

/// A provisioner as exposed on the daemon's object bus.
#[derive(Clone, Copy, Debug, PartialEq, Eq, Structural)]
pub struct RegisteredProvisioner {
    /// The provisioner definition.
    pub provisioner: Provisioner,
}

impl RegisteredProvisioner {
    /// Wraps a provisioner for registration.
    pub fn new(provisioner: Provisioner) -> (r: Self)
        ensures
            r.provisioner == provisioner,
    {
        Self { provisioner }
    }

    /// Acknowledges that a node was admitted to the network. A
    /// fire-and-forget notification: always succeeds.
    pub fn add_node_complete(&self, uuid: &Vec<u16>, unicast: u16, count: u8) -> (r: ReqResult<()>)
        ensures
            r == Ok::<(), crate::element::ReqError>(()),
    {
        let _ = uuid;
        let _ = unicast;
        let _ = count;
        Ok(())
    }

    /// Acknowledges that admitting a node failed. A fire-and-forget
    /// notification: always succeeds.
    pub fn add_node_failed(&self, uuid: &Vec<u16>, reason: &str) -> (r: ReqResult<()>)
        ensures
            r == Ok::<(), crate::element::ReqError>(()),
    {
        let _ = uuid;
        let _ = reason;
        Ok(())
    }

    /// Answers the daemon's request for provisioning data: the network key
    /// index and the unicast address to assign to the new node.
    pub fn request_prov_data(&self, count: u8) -> (r: ReqResult<(u16, u16)>)
        ensures
            r == Ok::<(u16, u16), crate::element::ReqError>((0x0000, 0x00bd)),
    {
        let _ = count;
        Ok((0x0000, 0x00bd))
    }

    /// The `VersionID` property of the provisioner interface.
    pub fn version_id(&self) -> (r: u16)
        ensures
            r == 0x0001,
    {
        0x0001
    }
}

} // verus!
