//! What the orchestrator asks its collaborators to do, and what they report
//! back. The orchestrator decides; the caller performs each action against
//! the provider, the local disk or the remote machines and hands the outcome
//! back as an event.

use vstd::prelude::*;

verus! {

/// The templated stacks of a deployment.
#[derive(Clone, Copy, Debug, PartialEq, Eq, Structural)]
pub enum StackKind {
    Ec2InstanceRole,
    Vpc,
    Asg,
}

/// The status that a poll of a stack waits for.
#[derive(Clone, Copy, Debug, PartialEq, Eq, Structural)]
pub enum StackTarget {
    CreateComplete,
    DeleteComplete,
}

/// A key with its value: a tag, a stack parameter or a stack output.
#[derive(Clone, Debug, PartialEq, Eq)]
pub struct Pair {
    pub key: String,
    pub value: String,
}

impl View for Pair {
    type V = (Seq<char>, Seq<char>);

    open spec fn view(&self) -> (Seq<char>, Seq<char>) {
        (self.key@, self.value@)
    }
}

/// The pairs of a list, each by its view.
pub open spec fn pairs_view(pairs: Seq<Pair>) -> Seq<(Seq<char>, Seq<char>)> {
    pairs.map_values(|p: Pair| p@)
}

/// One request to a collaborator.
#[derive(Clone, Debug, PartialEq, Eq)]
pub enum Action {
    /// Wait a fixed time before the next action.
    Pace { secs: u64 },
    /// Write the document to its file.
    Persist,
    /// Ask the operator whether to go on.
    Confirm,
    /// Ask the provider who the caller is.
    FetchIdentity,
    /// Resolve a managed parameter into an image id.
    ResolveImage { ssm_parameter: String },
    /// Create the shared-storage bucket unless it exists.
    CreateBucket { bucket: String },
    /// Upload a local file to shared storage.
    PutObject { local_path: String, bucket: String, key: String },
    /// Create the encryption key.
    CreateKey { name: String },
    /// Import a public key as the key pair of the machines.
    ImportKeyPair { key_name: String, public_key_path: String },
    /// Create the key pair of the machines and store its private key.
    CreateKeyPair { key_name: String, private_key_path: String },
    /// Compress the private key, seal it under the encryption key and upload
    /// the sealed artifact.
    SealAndUpload {
        private_key_path: String,
        key_id: String,
        aad_tag: String,
        bucket: String,
        key: String,
    },
    /// Request the creation of a stack.
    CreateStack { kind: StackKind, name: String, tags: Vec<Pair>, parameters: Vec<Pair> },
    /// Wait until a stack reaches a status, or the timeout passes.
    PollStack {
        kind: StackKind,
        name: String,
        target: StackTarget,
        timeout_secs: u64,
        interval_secs: u64,
    },
    /// Request the deletion of a stack.
    DeleteStack { kind: StackKind, name: String },
    /// List the machines of the scaling group.
    ListFleet { group: String },
    /// List the stable addresses tagged with the deployment id.
    ListAddresses { id: String },
    /// Make the private key file read-only.
    ProtectKeyFile { path: String },
    /// Write the access commands of the discovered fleet to a file.
    PublishFleet { path: String },
    /// Read the end of the init log of a fleet member.
    RemoteTail { member: usize },
    /// Download the release information of a fleet member.
    CollectReleaseInfo { member: usize, local_path: String },
    /// Remove access credentials on a fleet member.
    RemoteCleanup { member: usize, show_release: bool },
    /// Request an image of an instance.
    CreateImage { instance_id: String, name: String },
    /// Wait until an image is available, or the timeout passes.
    PollImage { image_id: String, timeout_secs: u64, interval_secs: u64 },
    /// Remove a local file if it exists.
    RemoveLocalFile { path: String },
    /// Delete the key pair of the machines.
    DeleteKeyPair { key_name: String },
    /// Schedule the encryption key for deletion.
    ScheduleKeyDeletion { key_id: String, pending_days: u32 },
    /// Delete every object of the bucket.
    EmptyBucket { bucket: String },
    /// Delete the bucket.
    DeleteBucket { bucket: String },
    /// List the provisioned volumes tagged with the deployment id.
    ListOrphanVolumes { id: String },
    /// Delete a volume.
    DeleteVolume { volume_id: String },
    /// Release a stable address.
    ReleaseAddress { allocation_id: String },
    /// Set the number of machines that the scaling group keeps.
    SetDesiredCapacity { group: String, capacity: u32 },
}

/// An action with every text by its characters.
pub enum ActionView {
    Pace { secs: u64 },
    Persist,
    Confirm,
    FetchIdentity,
    ResolveImage { ssm_parameter: Seq<char> },
    CreateBucket { bucket: Seq<char> },
    PutObject { local_path: Seq<char>, bucket: Seq<char>, key: Seq<char> },
    CreateKey { name: Seq<char> },
    ImportKeyPair { key_name: Seq<char>, public_key_path: Seq<char> },
    CreateKeyPair { key_name: Seq<char>, private_key_path: Seq<char> },
    SealAndUpload {
        private_key_path: Seq<char>,
        key_id: Seq<char>,
        aad_tag: Seq<char>,
        bucket: Seq<char>,
        key: Seq<char>,
    },
    CreateStack {
        kind: StackKind,
        name: Seq<char>,
        tags: Seq<(Seq<char>, Seq<char>)>,
        parameters: Seq<(Seq<char>, Seq<char>)>,
    },
    PollStack {
        kind: StackKind,
        name: Seq<char>,
        target: StackTarget,
        timeout_secs: u64,
        interval_secs: u64,
    },
    DeleteStack { kind: StackKind, name: Seq<char> },
    ListFleet { group: Seq<char> },
    ListAddresses { id: Seq<char> },
    ProtectKeyFile { path: Seq<char> },
    PublishFleet { path: Seq<char> },
    RemoteTail { member: usize },
    CollectReleaseInfo { member: usize, local_path: Seq<char> },
    RemoteCleanup { member: usize, show_release: bool },
    CreateImage { instance_id: Seq<char>, name: Seq<char> },
    PollImage { image_id: Seq<char>, timeout_secs: u64, interval_secs: u64 },
    RemoveLocalFile { path: Seq<char> },
    DeleteKeyPair { key_name: Seq<char> },
    ScheduleKeyDeletion { key_id: Seq<char>, pending_days: u32 },
    EmptyBucket { bucket: Seq<char> },
    DeleteBucket { bucket: Seq<char> },
    ListOrphanVolumes { id: Seq<char> },
    DeleteVolume { volume_id: Seq<char> },
    ReleaseAddress { allocation_id: Seq<char> },
    SetDesiredCapacity { group: Seq<char>, capacity: u32 },
}

impl View for Action {
    type V = ActionView;

    open spec fn view(&self) -> ActionView {
        match *self {
            Action::Pace { secs } => ActionView::Pace { secs },
            Action::Persist => ActionView::Persist,
            Action::Confirm => ActionView::Confirm,
            Action::FetchIdentity => ActionView::FetchIdentity,
            Action::ResolveImage { ssm_parameter } => ActionView::ResolveImage {
                ssm_parameter: ssm_parameter@,
            },
            Action::CreateBucket { bucket } => ActionView::CreateBucket { bucket: bucket@ },
            Action::PutObject { local_path, bucket, key } => ActionView::PutObject {
                local_path: local_path@,
                bucket: bucket@,
                key: key@,
            },
            Action::CreateKey { name } => ActionView::CreateKey { name: name@ },
            Action::ImportKeyPair { key_name, public_key_path } => ActionView::ImportKeyPair {
                key_name: key_name@,
                public_key_path: public_key_path@,
            },
            Action::CreateKeyPair { key_name, private_key_path } => ActionView::CreateKeyPair {
                key_name: key_name@,
                private_key_path: private_key_path@,
            },
            Action::SealAndUpload {
                private_key_path,
                key_id,
                aad_tag,
                bucket,
                key,
            } => ActionView::SealAndUpload {
                private_key_path: private_key_path@,
                key_id: key_id@,
                aad_tag: aad_tag@,
                bucket: bucket@,
                key: key@,
            },
            Action::CreateStack { kind, name, tags, parameters } => ActionView::CreateStack {
                kind,
                name: name@,
                tags: pairs_view(tags@),
                parameters: pairs_view(parameters@),
            },
            Action::PollStack {
                kind,
                name,
                target,
                timeout_secs,
                interval_secs,
            } => ActionView::PollStack { kind, name: name@, target, timeout_secs, interval_secs },
            Action::DeleteStack { kind, name } => ActionView::DeleteStack { kind, name: name@ },
            Action::ListFleet { group } => ActionView::ListFleet { group: group@ },
            Action::ListAddresses { id } => ActionView::ListAddresses { id: id@ },
            Action::ProtectKeyFile { path } => ActionView::ProtectKeyFile { path: path@ },
            Action::PublishFleet { path } => ActionView::PublishFleet { path: path@ },
            Action::RemoteTail { member } => ActionView::RemoteTail { member },
            Action::CollectReleaseInfo { member, local_path } => ActionView::CollectReleaseInfo {
                member,
                local_path: local_path@,
            },
            Action::RemoteCleanup { member, show_release } => ActionView::RemoteCleanup {
                member,
                show_release,
            },
            Action::CreateImage { instance_id, name } => ActionView::CreateImage {
                instance_id: instance_id@,
                name: name@,
            },
            Action::PollImage { image_id, timeout_secs, interval_secs } => ActionView::PollImage {
                image_id: image_id@,
                timeout_secs,
                interval_secs,
            },
            Action::RemoveLocalFile { path } => ActionView::RemoveLocalFile { path: path@ },
            Action::DeleteKeyPair { key_name } => ActionView::DeleteKeyPair { key_name: key_name@ },
            Action::ScheduleKeyDeletion { key_id, pending_days } => ActionView::ScheduleKeyDeletion {
                key_id: key_id@,
                pending_days,
            },
            Action::EmptyBucket { bucket } => ActionView::EmptyBucket { bucket: bucket@ },
            Action::DeleteBucket { bucket } => ActionView::DeleteBucket { bucket: bucket@ },
            Action::ListOrphanVolumes { id } => ActionView::ListOrphanVolumes { id: id@ },
            Action::DeleteVolume { volume_id } => ActionView::DeleteVolume { volume_id: volume_id@ },
            Action::ReleaseAddress { allocation_id } => ActionView::ReleaseAddress {
                allocation_id: allocation_id@,
            },
            Action::SetDesiredCapacity { group, capacity } => ActionView::SetDesiredCapacity {
                group: group@,
                capacity,
            },
        }
    }
}

/// The actions of a list, each by its view.
pub open spec fn actions_view(actions: Seq<Action>) -> Seq<ActionView> {
    actions.map_values(|a: Action| a@)
}

/// The resources that a deployment records once they are created.
#[derive(Clone, Copy, Debug, PartialEq, Eq, Structural)]
pub enum Resource {
    EncryptionKey,
    Role,
    Network,
    Fleet,
}

/// The resource that a stack kind stands for.
pub open spec fn resource_of(kind: StackKind) -> Resource {
    match kind {
        StackKind::Ec2InstanceRole => Resource::Role,
        StackKind::Vpc => Resource::Network,
        StackKind::Asg => Resource::Fleet,
    }
}

impl ActionView {
    /// The recorded resource that the action creates, if it creates one.
    pub open spec fn creates(self) -> Option<Resource> {
        match self {
            ActionView::CreateKey { .. } => Some(Resource::EncryptionKey),
            ActionView::CreateStack { kind, .. } => Some(resource_of(kind)),
            _ => None,
        }
    }

    /// The recorded resource whose deletion the action requests.
    pub open spec fn deletes(self) -> Option<Resource> {
        match self {
            ActionView::ScheduleKeyDeletion { .. } => Some(Resource::EncryptionKey),
            ActionView::DeleteStack { kind, .. } => Some(resource_of(kind)),
            _ => None,
        }
    }

    /// The recorded resource that the action is about: it creates it,
    /// waits for it, or requests its deletion.
    pub open spec fn concerns(self) -> Option<Resource> {
        match self {
            ActionView::CreateKey { .. } => Some(Resource::EncryptionKey),
            ActionView::ScheduleKeyDeletion { .. } => Some(Resource::EncryptionKey),
            ActionView::CreateStack { kind, .. } => Some(resource_of(kind)),
            ActionView::PollStack { kind, .. } => Some(resource_of(kind)),
            ActionView::DeleteStack { kind, .. } => Some(resource_of(kind)),
            _ => None,
        }
    }

    /// The fleet member that the action is performed on, if it is performed
    /// on one.
    pub open spec fn member(self) -> Option<usize> {
        match self {
            ActionView::RemoteTail { member } => Some(member),
            ActionView::CollectReleaseInfo { member, .. } => Some(member),
            ActionView::RemoteCleanup { member, .. } => Some(member),
            _ => None,
        }
    }

    /// The action may fail without failing the run.
    pub open spec fn is_best_effort(self) -> bool {
        match self {
            ActionView::CollectReleaseInfo { .. } => true,
            ActionView::RemoteCleanup { show_release, .. } => show_release,
            _ => false,
        }
    }
}

impl Action {
    /// Whether a failure of the action is only logged: the run goes on.
    pub fn best_effort(&self) -> (r: bool)
        ensures
            r == self@.is_best_effort(),
    {
        match self {
            Action::CollectReleaseInfo { .. } => true,
            Action::RemoteCleanup { show_release, .. } => *show_release,
            _ => false,
        }
    }
}

/// A machine of the scaling group, as the provider lists it.
#[derive(Clone, Debug, PartialEq, Eq)]
pub struct Droplet {
    pub instance_id: String,
    pub instance_state_name: String,
    pub availability_zone: String,
    /// Empty until the machine has a public address.
    pub public_ipv4: String,
}

/// A stable address, as the provider lists it.
#[derive(Clone, Debug, PartialEq, Eq)]
pub struct StableAddress {
    pub allocation_id: Option<String>,
    /// The instance that the address is attached to, if any.
    pub instance_id: Option<String>,
    pub public_ip: Option<String>,
}

/// The outcome of the actions that the caller performed last.
#[derive(Clone, Debug, PartialEq, Eq)]
pub enum Event {
    /// Every action was performed; there is nothing to report.
    Completed,
    /// An action failed, or a poll timed out.
    Failed,
    /// The operator's answer to `Confirm`.
    Answer(bool),
    /// The caller's identity.
    Caller(crate::deployment::Identity),
    /// The image id that was resolved or created.
    Image(String),
    /// The encryption key that was created.
    Key { id: String, arn: String },
    /// The outputs of the stack that was polled.
    Outputs(Vec<Pair>),
    /// The machines of the scaling group.
    Fleet(Vec<Droplet>),
    /// The stable addresses of the deployment.
    Addresses(Vec<StableAddress>),
    /// The ids of the orphaned volumes.
    Volumes(Vec<String>),
    /// What a remote command printed.
    RemoteOutput(String),
    /// A remote command could not be run.
    RemoteFailed,
}

} // verus!
