//! Names of the stacks, keys and storage objects of one deployment. Each is
//! derived from the deployment id alone, so that a later run finds what an
//! earlier run created.

use vstd::prelude::*;
use vstd::string::*;
use crate::action::StackKind;

verus! {

/// The name of a stack of the deployment `id`.
pub open spec fn stack_name(kind: StackKind, id: Seq<char>) -> Seq<char> {
    match kind {
        StackKind::Ec2InstanceRole => id + "-ec2-instance-role"@,
        StackKind::Vpc => id + "-vpc"@,
        StackKind::Asg => id + "-asg"@,
    }
}

/// The name of the key pair of the deployment `id`.
pub open spec fn key_pair_name(id: Seq<char>) -> Seq<char> {
    id + "-ec2-key"@
}

/// The name of the encryption key of the deployment `id`.
pub open spec fn encryption_key_name(id: Seq<char>) -> Seq<char> {
    id + "-cmk"@
}

/// The name of the scaling group of the deployment `id` on an architecture.
pub open spec fn scaling_group_name(id: Seq<char>, arch: Seq<char>) -> Seq<char> {
    id + "-"@ + arch
}

/// The storage key of the deployment document.
pub open spec fn config_file_key(id: Seq<char>) -> Seq<char> {
    id + "/dev-machine.config.yaml"@
}

/// The storage key of the sealed private key.
pub open spec fn sealed_key_key(id: Seq<char>) -> Seq<char> {
    id + "/ec2-access-key.zstd.seal_aes_256.encrypted"@
}

/// The storage key of the init script.
pub open spec fn init_script_key(id: Seq<char>) -> Seq<char> {
    id + "/init.bash"@
}

/// Name of a templated stack, derived from the deployment id.
#[derive(Clone, Debug, PartialEq, Eq)]
pub enum StackName {
    Ec2InstanceRole(String),
    Vpc(String),
    Asg(String),
}

impl StackName {
    /// The kind of stack that is named.
    pub open spec fn kind(self) -> StackKind {
        match self {
            StackName::Ec2InstanceRole(_) => StackKind::Ec2InstanceRole,
            StackName::Vpc(_) => StackKind::Vpc,
            StackName::Asg(_) => StackKind::Asg,
        }
    }

    /// The deployment id that the name is derived from.
    pub open spec fn id(self) -> Seq<char> {
        match self {
            StackName::Ec2InstanceRole(id) => id@,
            StackName::Vpc(id) => id@,
            StackName::Asg(id) => id@,
        }
    }

    /// The stack name: the id, then what tells the kind.
    pub fn encode(&self) -> (name: String)
        ensures
            name@ == stack_name(self.kind(), self.id()),
    {
        match self {
            StackName::Ec2InstanceRole(id) => id.clone().concat("-ec2-instance-role"),
            StackName::Vpc(id) => id.clone().concat("-vpc"),
            StackName::Asg(id) => id.clone().concat("-asg"),
        }
    }

    /// The name of the stack of a kind for a deployment.
    pub fn of(kind: StackKind, id: &String) -> (name: String)
        ensures
            name@ == stack_name(kind, id@),
    {
        match kind {
            StackKind::Ec2InstanceRole => StackName::Ec2InstanceRole(id.clone()).encode(),
            StackKind::Vpc => StackName::Vpc(id.clone()).encode(),
            StackKind::Asg => StackName::Asg(id.clone()).encode(),
        }
    }
}

/// Key of an object in shared storage. Every key of a deployment starts with
/// its id.
#[derive(Clone, Debug, PartialEq, Eq)]
pub enum StorageNamespace {
    DevMachineConfigFile(String),
    Ec2AccessKeyCompressedEncrypted(String),
    InitScript(String),
}

impl StorageNamespace {
    /// The storage key.
    pub open spec fn encoded(self) -> Seq<char> {
        match self {
            StorageNamespace::DevMachineConfigFile(id) => config_file_key(id@),
            StorageNamespace::Ec2AccessKeyCompressedEncrypted(id) => sealed_key_key(id@),
            StorageNamespace::InitScript(id) => init_script_key(id@),
        }
    }

    /// The deployment id that the key belongs to.
    pub open spec fn id(self) -> Seq<char> {
        match self {
            StorageNamespace::DevMachineConfigFile(id) => id@,
            StorageNamespace::Ec2AccessKeyCompressedEncrypted(id) => id@,
            StorageNamespace::InitScript(id) => id@,
        }
    }

    /// The storage key: the id, a slash, and the name of the object.
    pub fn encode(&self) -> (key: String)
        ensures
            key@ == self.encoded(),
            self.id().is_prefix_of(key@),
    {
        match self {
            StorageNamespace::DevMachineConfigFile(id) => id.clone().concat(
                "/dev-machine.config.yaml",
            ),
            StorageNamespace::Ec2AccessKeyCompressedEncrypted(id) => id.clone().concat(
                "/ec2-access-key.zstd.seal_aes_256.encrypted",
            ),
            StorageNamespace::InitScript(id) => id.clone().concat("/init.bash"),
        }
    }
}

/// The name of the key pair of a deployment.
pub fn key_pair_name_of(id: &String) -> (name: String)
    ensures
        name@ == key_pair_name(id@),
{
    id.clone().concat("-ec2-key")
}

/// The name of the encryption key of a deployment.
pub fn encryption_key_name_of(id: &String) -> (name: String)
    ensures
        name@ == encryption_key_name(id@),
{
    id.clone().concat("-cmk")
}

/// The name of the scaling group of a deployment on an architecture.
pub fn scaling_group_name_of(id: &String, arch: &str) -> (name: String)
    ensures
        name@ == scaling_group_name(id@, arch@),
{
    id.clone().concat("-").concat(arch)
}

} // verus!
