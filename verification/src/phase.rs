//! The steps of a run, in the order in which they are taken.

use vstd::prelude::*;
use crate::action::Resource;

verus! {

/// What a run is for.
#[derive(Clone, Copy, Debug, PartialEq, Eq, Structural)]
pub enum Mode {
    /// Create what is missing.
    Apply,
    /// Tear down what was created.
    Delete,
    /// Scale the fleet to no machine, keeping everything else.
    Pause,
    /// Scale the fleet back to the wanted number of machines.
    Resume,
}

/// Why a run stopped before its end.
#[derive(Clone, Copy, Debug, PartialEq, Eq, Structural)]
pub enum Failure {
    /// A collaborator failed, or a poll timed out.
    Provider,
    /// The event does not answer what was asked.
    UnexpectedEvent,
    /// The document was never applied: it names no caller.
    UnknownIdentity,
    /// The document names no encryption key where one is needed.
    MissingEncryptionKey,
    /// The document names no public key to import.
    MissingPublicKey,
    /// The document names no instance profile where one is needed.
    MissingProfile,
    /// The document does not name the stack.
    MissingStackName,
    /// The document names no security group or no subnet.
    MissingNetwork,
    /// The outputs of a stack lack a value that is recorded.
    MissingOutput,
    /// No image is named and none is known for the platform.
    MissingImageParameter,
    /// No user name is known for the platform.
    MissingUserName,
    /// A stable address lacks its allocation id or its public address.
    MalformedAddress,
    /// The document names no fleet.
    MissingFleet,
}

/// A step of a run. The steps are taken in the order in which they are
/// declared, up to `Done`; a step whose condition does not hold is skipped.
#[derive(Clone, Copy, Debug, PartialEq, Eq, Structural)]
pub enum Phase {
    /// Learn who the caller is.
    Identity,
    /// Resolve the image from its managed parameter.
    Image,
    /// Ask the operator to confirm.
    Confirm,
    /// Create the bucket and upload the document and the init script.
    Storage,
    /// Create the encryption key.
    Key,
    /// Import or create the key pair, seal the private key and upload it.
    Credential,
    /// Create the role stack and wait for it.
    Role,
    /// Create the network stack and wait for it.
    Network,
    /// Create the fleet stack and wait for it.
    Fleet,
    /// Discover the machines of the fleet.
    Discover,
    /// Wait for the stable addresses.
    Addresses,
    /// Publish how the machines are reached.
    Publish,
    /// Wait for the init script of each machine.
    RemoteWait,
    /// Remove the access credentials of each machine before its image is
    /// taken.
    Scrub,
    /// Request an image of a machine.
    CaptureImage,
    /// Wait for the image.
    AwaitImage,
    /// Delete the local key files and the key pair.
    DropCredentials,
    /// Schedule the deletion of the encryption key.
    DropKey,
    /// Request the deletion of the role stack.
    RequestRoleDelete,
    /// Delete the fleet stack and wait for it.
    DropFleet,
    /// Delete the network stack and wait for it.
    DropNetwork,
    /// Wait for the deletion of the role stack.
    ConfirmRoleDelete,
    /// Empty and delete the bucket.
    DropStorage,
    /// Find and delete orphaned volumes.
    FindVolumes,
    /// Find and release orphaned stable addresses.
    FindAddresses,
    /// Set the size of the fleet.
    Scale,
    /// The run is complete.
    Done,
    /// The operator declined.
    Declined,
    /// The run failed.
    Failed(Failure),
}

/// The rank of the last step.
pub const LAST_RANK: u8 = 26;

impl Phase {
    /// The place of the step in the order of a run.
    pub open spec fn rank(self) -> nat {
        match self {
            Phase::Identity => 0,
            Phase::Image => 1,
            Phase::Confirm => 2,
            Phase::Storage => 3,
            Phase::Key => 4,
            Phase::Credential => 5,
            Phase::Role => 6,
            Phase::Network => 7,
            Phase::Fleet => 8,
            Phase::Discover => 9,
            Phase::Addresses => 10,
            Phase::Publish => 11,
            Phase::RemoteWait => 12,
            Phase::Scrub => 13,
            Phase::CaptureImage => 14,
            Phase::AwaitImage => 15,
            Phase::DropCredentials => 16,
            Phase::DropKey => 17,
            Phase::RequestRoleDelete => 18,
            Phase::DropFleet => 19,
            Phase::DropNetwork => 20,
            Phase::ConfirmRoleDelete => 21,
            Phase::DropStorage => 22,
            Phase::FindVolumes => 23,
            Phase::FindAddresses => 24,
            Phase::Scale => 25,
            Phase::Done => 26,
            Phase::Declined => 26,
            Phase::Failed(_) => 26,
        }
    }

    /// The recorded resource that the step creates, if it creates one.
    pub open spec fn creates(self) -> Option<Resource> {
        match self {
            Phase::Key => Some(Resource::EncryptionKey),
            Phase::Role => Some(Resource::Role),
            Phase::Network => Some(Resource::Network),
            Phase::Fleet => Some(Resource::Fleet),
            _ => None,
        }
    }

    /// No step follows.
    pub open spec fn is_terminal(self) -> bool {
        self is Done || self is Declined || self is Failed
    }

    /// The step that follows in the order of a run: a terminal step follows
    /// itself.
    pub open spec fn successor(self) -> Phase {
        match self {
            Phase::Identity => Phase::Image,
            Phase::Image => Phase::Confirm,
            Phase::Confirm => Phase::Storage,
            Phase::Storage => Phase::Key,
            Phase::Key => Phase::Credential,
            Phase::Credential => Phase::Role,
            Phase::Role => Phase::Network,
            Phase::Network => Phase::Fleet,
            Phase::Fleet => Phase::Discover,
            Phase::Discover => Phase::Addresses,
            Phase::Addresses => Phase::Publish,
            Phase::Publish => Phase::RemoteWait,
            Phase::RemoteWait => Phase::Scrub,
            Phase::Scrub => Phase::CaptureImage,
            Phase::CaptureImage => Phase::AwaitImage,
            Phase::AwaitImage => Phase::DropCredentials,
            Phase::DropCredentials => Phase::DropKey,
            Phase::DropKey => Phase::RequestRoleDelete,
            Phase::RequestRoleDelete => Phase::DropFleet,
            Phase::DropFleet => Phase::DropNetwork,
            Phase::DropNetwork => Phase::ConfirmRoleDelete,
            Phase::ConfirmRoleDelete => Phase::DropStorage,
            Phase::DropStorage => Phase::FindVolumes,
            Phase::FindVolumes => Phase::FindAddresses,
            Phase::FindAddresses => Phase::Scale,
            Phase::Scale => Phase::Done,
            Phase::Done => Phase::Done,
            Phase::Declined => Phase::Declined,
            Phase::Failed(f) => Phase::Failed(f),
        }
    }

    /// Whether no step follows.
    pub fn terminal(self) -> (r: bool)
        ensures
            r == self.is_terminal(),
    {
        match self {
            Phase::Done | Phase::Declined | Phase::Failed(_) => true,
            _ => false,
        }
    }

    /// The step that follows in the order of a run.
    pub fn next(self) -> (n: Phase)
        ensures
            n == self.successor(),
            !self.is_terminal() ==> n.rank() == self.rank() + 1,
    {
        match self {
            Phase::Identity => Phase::Image,
            Phase::Image => Phase::Confirm,
            Phase::Confirm => Phase::Storage,
            Phase::Storage => Phase::Key,
            Phase::Key => Phase::Credential,
            Phase::Credential => Phase::Role,
            Phase::Role => Phase::Network,
            Phase::Network => Phase::Fleet,
            Phase::Fleet => Phase::Discover,
            Phase::Discover => Phase::Addresses,
            Phase::Addresses => Phase::Publish,
            Phase::Publish => Phase::RemoteWait,
            Phase::RemoteWait => Phase::Scrub,
            Phase::Scrub => Phase::CaptureImage,
            Phase::CaptureImage => Phase::AwaitImage,
            Phase::AwaitImage => Phase::DropCredentials,
            Phase::DropCredentials => Phase::DropKey,
            Phase::DropKey => Phase::RequestRoleDelete,
            Phase::RequestRoleDelete => Phase::DropFleet,
            Phase::DropFleet => Phase::DropNetwork,
            Phase::DropNetwork => Phase::ConfirmRoleDelete,
            Phase::ConfirmRoleDelete => Phase::DropStorage,
            Phase::DropStorage => Phase::FindVolumes,
            Phase::FindVolumes => Phase::FindAddresses,
            Phase::FindAddresses => Phase::Scale,
            Phase::Scale => Phase::Done,
            Phase::Done => Phase::Done,
            Phase::Declined => Phase::Declined,
            Phase::Failed(f) => Phase::Failed(f),
        }
    }
}

} // verus!
