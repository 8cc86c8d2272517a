//! The deployment document: what is wanted, and what has been created so far.

use vstd::prelude::*;
use vstd::string::*;
use crate::action::Resource;
use crate::text::{copy_text, same_text};

verus! {

/// Fewest machines a deployment may ask for.
pub const MIN_MACHINES: u32 = 1;

/// Most machines a deployment may ask for.
pub const MAX_MACHINES: u32 = 2;

/// Longest deployment id, in characters: resource tags leave no more room.
pub const MAX_ID_LENGTH: usize = 28;

/// Most user-defined ingress ports.
pub const MAX_INGRESS_PORTS: usize = 10;

/// Prefix of generated ids when none is given.
pub const ID_PREFIX: &'static str = "dev";

/// The IP mode that asks for stable addresses.
pub const IP_MODE_ELASTIC: &'static str = "elastic";

/// The caller on whose behalf resources are created.
#[derive(Clone, Debug, PartialEq, Eq)]
pub struct Identity {
    pub account_id: String,
    pub role_arn: String,
    pub user_id: String,
}

impl Identity {
    /// The identity of a document that no caller has applied yet.
    pub fn default() -> (r: Self)
        ensures
            r.account_id@.len() == 0,
            r.role_arn@.len() == 0,
            r.user_id@.len() == 0,
    {
        Identity { account_id: String::new(), role_arn: String::new(), user_id: String::new() }
    }

    /// Both identities name the same caller.
    pub open spec fn same_caller(self, other: Self) -> bool {
        &&& self.account_id@ == other.account_id@
        &&& self.role_arn@ == other.role_arn@
        &&& self.user_id@ == other.user_id@
    }

    /// Whether both identities name the same caller.
    pub fn matches(&self, other: &Identity) -> (r: bool)
        ensures
            r == self.same_caller(*other),
    {
        same_text(self.account_id.as_str(), other.account_id.as_str()) && same_text(
            self.role_arn.as_str(),
            other.role_arn.as_str(),
        ) && same_text(self.user_id.as_str(), other.user_id.as_str())
    }
}

/// A plugin installed by the init script. Only the one that provisions
/// stable addresses bears on the rules of a deployment; the others are kept
/// by name.
#[derive(Clone, Debug, PartialEq, Eq)]
pub enum Plugin {
    StaticIpProvisioner,
    Other(String),
}

/// Artifacts of the local machine that are shared with the remote machines.
#[derive(Clone, Debug, PartialEq, Eq)]
pub struct UploadArtifacts {
    pub init_bash_local_file_path: String,
}

/// The shape of the machines.
#[derive(Clone, Debug, PartialEq, Eq)]
pub struct Machine {
    pub machines: u32,
    pub arch_type: String,
    pub os_type: String,
    pub instance_types: Vec<String>,
    pub instance_mode: String,
    pub ip_mode: String,
    /// If empty while `image_id_ssm_parameter` is not, the parameter is
    /// resolved into the image id when the deployment is applied.
    pub image_id: String,
    pub image_id_ssm_parameter: String,
    pub image_volume_type: String,
    pub image_volume_size_in_gb: u32,
    pub image_volume_iops: u32,
    pub volume_type: String,
    pub volume_size_in_gb: u32,
    pub volume_iops: u32,
    pub volume_throughput: u32,
}

/// The resources of a deployment. An optional field is `None` until the
/// resource it names has been created, or for good where the caller supplied
/// an equivalent of their own.
#[derive(Clone, Debug, PartialEq, Eq)]
pub struct Resources {
    pub profile_name: Option<String>,
    pub identity: Identity,
    pub region: String,
    pub ssh_ingress_ipv4_cidr: String,
    pub user_defined_tcp_ingress_ports_ipv4_cidr: String,
    pub user_defined_tcp_ingress_ports: Vec<u32>,
    pub s3_bucket: String,
    pub kms_key_id: Option<String>,
    pub kms_key_arn: Option<String>,
    pub ec2_key_import: bool,
    pub ec2_key_name: String,
    pub ssh_private_key_path: String,
    pub ssh_public_key_path: Option<String>,
    pub ssh_commands_path: String,
    pub existing_vpc_security_group_id: Option<String>,
    pub existing_vpc_subnet_ids_for_asg: Option<Vec<String>>,
    pub cloudformation_ec2_instance_role: Option<String>,
    pub cloudformation_ec2_instance_profile_arn: Option<String>,
    pub cloudformation_vpc: Option<String>,
    pub cloudformation_vpc_id: Option<String>,
    pub cloudformation_vpc_security_group_id: Option<String>,
    pub cloudformation_vpc_public_subnet_ids: Option<Vec<String>>,
    pub cloudformation_asg: Option<String>,
    pub cloudformation_asg_logical_id: Option<String>,
    pub release_info_file_path: String,
}

/// Where a resource of a deployment stands.
#[derive(Clone, Copy, Debug, PartialEq, Eq, Structural)]
pub enum ResourceState {
    /// The caller supplied an equivalent of their own: the resource is
    /// neither created nor deleted.
    Skipped,
    /// The resource is not created yet.
    Absent,
    /// The resource is created, and the document holds its record.
    Created,
}

/// What a deployment has recorded of the resources it created, each text by
/// its characters.
pub struct Records {
    pub key_id: Option<Seq<char>>,
    pub key_arn: Option<Seq<char>>,
    pub profile_arn: Option<Seq<char>>,
    pub vpc_id: Option<Seq<char>>,
    pub security_group: Option<Seq<char>>,
    pub subnets: Option<Seq<Seq<char>>>,
    pub fleet_id: Option<Seq<char>>,
}

impl Resources {
    /// What has been recorded of the created resources.
    pub open spec fn records(self) -> Records {
        Records {
            key_id: self.kms_key_id.deep_view(),
            key_arn: self.kms_key_arn.deep_view(),
            profile_arn: self.cloudformation_ec2_instance_profile_arn.deep_view(),
            vpc_id: self.cloudformation_vpc_id.deep_view(),
            security_group: self.cloudformation_vpc_security_group_id.deep_view(),
            subnets: self.cloudformation_vpc_public_subnet_ids.deep_view(),
            fleet_id: self.cloudformation_asg_logical_id.deep_view(),
        }
    }

    /// The resource has been created: the document holds its record.
    pub open spec fn is_recorded(self, resource: Resource) -> bool {
        match resource {
            Resource::EncryptionKey => self.kms_key_id is Some || self.kms_key_arn is Some,
            Resource::Role => self.cloudformation_ec2_instance_profile_arn is Some,
            Resource::Network => self.cloudformation_vpc_id is Some
                || self.cloudformation_vpc_security_group_id is Some
                || self.cloudformation_vpc_public_subnet_ids is Some,
            Resource::Fleet => self.cloudformation_asg_logical_id is Some,
        }
    }

    /// The resource is neither created nor supplied from outside: applying
    /// the document creates it.
    pub open spec fn is_absent(self, resource: Resource) -> bool {
        !self.is_recorded(resource) && !(resource == Resource::Network
            && self.network_is_external())
    }

    /// Where the resource stands. A network that the caller supplied is
    /// skipped, whatever else the document holds.
    pub open spec fn state_of(self, resource: Resource) -> ResourceState {
        if resource == Resource::Network && self.network_is_external() {
            ResourceState::Skipped
        } else if self.is_recorded(resource) {
            ResourceState::Created
        } else {
            ResourceState::Absent
        }
    }

    /// Every resource is recorded.
    pub open spec fn all_recorded(self) -> bool {
        &&& self.is_recorded(Resource::EncryptionKey)
        &&& self.is_recorded(Resource::Role)
        &&& self.is_recorded(Resource::Network)
        &&& self.is_recorded(Resource::Fleet)
    }

    /// `other` differs at most in the caller and in what is recorded of the
    /// created resources.
    pub open spec fn same_request(self, other: Resources) -> bool {
        other == (Resources {
            identity: other.identity,
            kms_key_id: other.kms_key_id,
            kms_key_arn: other.kms_key_arn,
            cloudformation_ec2_instance_profile_arn: other.cloudformation_ec2_instance_profile_arn,
            cloudformation_vpc_id: other.cloudformation_vpc_id,
            cloudformation_vpc_security_group_id: other.cloudformation_vpc_security_group_id,
            cloudformation_vpc_public_subnet_ids: other.cloudformation_vpc_public_subnet_ids,
            cloudformation_asg_logical_id: other.cloudformation_asg_logical_id,
            ..self
        })
    }

    /// Nothing has been created and nothing is supplied from outside.
    pub open spec fn is_blank(self) -> bool {
        &&& self.profile_name is None
        &&& self.identity.account_id@.len() == 0
        &&& self.identity.role_arn@.len() == 0
        &&& self.identity.user_id@.len() == 0
        &&& self.region@ == "us-east-1"@
        &&& self.ssh_ingress_ipv4_cidr@ == "0.0.0.0/0"@
        &&& self.user_defined_tcp_ingress_ports_ipv4_cidr@ == "0.0.0.0/0"@
        &&& self.user_defined_tcp_ingress_ports@.len() == 0
        &&& self.s3_bucket@.len() == 0
        &&& self.kms_key_id is None
        &&& self.kms_key_arn is None
        &&& !self.ec2_key_import
        &&& self.ec2_key_name@.len() == 0
        &&& self.ssh_private_key_path@.len() == 0
        &&& self.ssh_public_key_path is None
        &&& self.ssh_commands_path@.len() == 0
        &&& self.existing_vpc_security_group_id is None
        &&& self.existing_vpc_subnet_ids_for_asg is None
        &&& self.cloudformation_ec2_instance_role is None
        &&& self.cloudformation_ec2_instance_profile_arn is None
        &&& self.cloudformation_vpc is None
        &&& self.cloudformation_vpc_id is None
        &&& self.cloudformation_vpc_security_group_id is None
        &&& self.cloudformation_vpc_public_subnet_ids is None
        &&& self.cloudformation_asg is None
        &&& self.cloudformation_asg_logical_id is None
        &&& self.release_info_file_path@.len() == 0
    }

    /// The resources of a fresh document: nothing created, the default
    /// region, ingress open to every address.
    pub fn default() -> (r: Self)
        ensures
            r.is_blank(),
    {
        Resources {
            profile_name: None,
            identity: Identity::default(),
            region: copy_text("us-east-1"),
            ssh_ingress_ipv4_cidr: copy_text("0.0.0.0/0"),
            user_defined_tcp_ingress_ports_ipv4_cidr: copy_text("0.0.0.0/0"),
            user_defined_tcp_ingress_ports: Vec::new(),
            s3_bucket: String::new(),
            kms_key_id: None,
            kms_key_arn: None,
            ec2_key_import: false,
            ec2_key_name: String::new(),
            ssh_private_key_path: String::new(),
            ssh_public_key_path: None,
            ssh_commands_path: String::new(),
            existing_vpc_security_group_id: None,
            existing_vpc_subnet_ids_for_asg: None,
            cloudformation_ec2_instance_role: None,
            cloudformation_ec2_instance_profile_arn: None,
            cloudformation_vpc: None,
            cloudformation_vpc_id: None,
            cloudformation_vpc_security_group_id: None,
            cloudformation_vpc_public_subnet_ids: None,
            cloudformation_asg: None,
            cloudformation_asg_logical_id: None,
            release_info_file_path: String::new(),
        }
    }

    /// The caller supplied a network of their own: the deployment neither
    /// creates nor deletes one.
    pub open spec fn network_is_external(self) -> bool {
        self.existing_vpc_security_group_id is Some || self.existing_vpc_subnet_ids_for_asg is Some
    }

    /// Whether the caller supplied a network of their own.
    pub fn has_external_network(&self) -> (r: bool)
        ensures
            r == self.network_is_external(),
    {
        self.existing_vpc_security_group_id.is_some()
            || self.existing_vpc_subnet_ids_for_asg.is_some()
    }

    /// Where a resource stands: what is decided before it is created or
    /// deleted.
    pub fn resource_state(&self, resource: Resource) -> (state: ResourceState)
        ensures
            state == self.state_of(resource),
            state == ResourceState::Absent <==> self.is_absent(resource),
    {
        let recorded = match resource {
            Resource::EncryptionKey => self.kms_key_id.is_some() || self.kms_key_arn.is_some(),
            Resource::Role => self.cloudformation_ec2_instance_profile_arn.is_some(),
            Resource::Network => self.cloudformation_vpc_id.is_some()
                || self.cloudformation_vpc_security_group_id.is_some()
                || self.cloudformation_vpc_public_subnet_ids.is_some(),
            Resource::Fleet => self.cloudformation_asg_logical_id.is_some(),
        };
        let external = match resource {
            Resource::Network => self.has_external_network(),
            _ => false,
        };
        if external {
            ResourceState::Skipped
        } else if recorded {
            ResourceState::Created
        } else {
            ResourceState::Absent
        }
    }
}

/// The root record of one deployment.
#[derive(Clone, Debug, PartialEq, Eq)]
pub struct Spec {
    pub id: String,
    pub aad_tag: String,
    /// If set, an SSH key is created on the remote machine with this email.
    pub ssh_key_email: Option<String>,
    pub unsafe_temporary_aws_secret_key_id: Option<String>,
    pub unsafe_temporary_aws_secret_access_key: Option<String>,
    pub aws_resources: Resources,
    pub machine: Machine,
    pub upload_artifacts: UploadArtifacts,
    /// Plugins that the init script installs.
    pub plugins: Vec<Plugin>,
    pub post_init_script: String,
    pub wait_for_init_script_completion: bool,
    pub image_name_to_create: String,
    pub wait_for_image_create_completion: bool,
    pub auto_delete_after_apply: bool,
    pub auto_delete_after_apply_delete_all: bool,
    pub spec_file_path: String,
}

/// Why a document is not accepted. Reported before any resource is touched.
#[derive(Clone, Copy, Debug, PartialEq, Eq, Structural)]
pub enum ValidationError {
    /// The id is empty.
    EmptyId,
    /// The id has more than `MAX_ID_LENGTH` characters.
    IdTooLong,
    /// The region is empty.
    EmptyRegion,
    /// More than `MAX_INGRESS_PORTS` user-defined ingress ports.
    TooManyIngressPorts,
    /// Fewer machines than `MIN_MACHINES`.
    TooFewMachines,
    /// More machines than `MAX_MACHINES`.
    TooManyMachines,
    /// A plugin provisions stable addresses but the IP mode is not elastic.
    StaticIpRequiresElastic,
    /// Deleting everything after apply was asked without deleting after apply.
    DeleteAllRequiresAutoDelete,
    /// Waiting for the image was asked without waiting for the init script.
    ImageWaitRequiresInitWait,
}

impl Spec {
    /// `other` asks for the same deployment: it differs at most in the
    /// caller, in the resolved image and in what is recorded of the created
    /// resources.
    pub open spec fn same_request(self, other: Spec) -> bool {
        &&& self.aws_resources.same_request(other.aws_resources)
        &&& other == (Spec {
            aws_resources: other.aws_resources,
            machine: Machine { image_id: other.machine.image_id, ..self.machine },
            ..self
        })
    }

    /// Some plugin of the document provisions stable addresses.
    pub open spec fn provisions_static_ip(self) -> bool {
        exists|i: int| 0 <= i < self.plugins@.len() && #[trigger] self.plugins@[i] is StaticIpProvisioner
    }

    /// The IP mode asks for stable addresses.
    pub open spec fn wants_elastic_ip(self) -> bool {
        self.machine.ip_mode@ == IP_MODE_ELASTIC@
    }

    /// The first rule that the document breaks, in the order in which the
    /// rules are checked; `None` for a valid document.
    pub open spec fn first_violation(self) -> Option<ValidationError> {
        if self.id@.len() == 0 {
            Some(ValidationError::EmptyId)
        } else if self.id@.len() > MAX_ID_LENGTH {
            Some(ValidationError::IdTooLong)
        } else if self.aws_resources.region@.len() == 0 {
            Some(ValidationError::EmptyRegion)
        } else if self.aws_resources.user_defined_tcp_ingress_ports@.len() > MAX_INGRESS_PORTS {
            Some(ValidationError::TooManyIngressPorts)
        } else if self.machine.machines < MIN_MACHINES {
            Some(ValidationError::TooFewMachines)
        } else if self.machine.machines > MAX_MACHINES {
            Some(ValidationError::TooManyMachines)
        } else if self.provisions_static_ip() && !self.wants_elastic_ip() {
            Some(ValidationError::StaticIpRequiresElastic)
        } else if self.auto_delete_after_apply_delete_all && !self.auto_delete_after_apply {
            Some(ValidationError::DeleteAllRequiresAutoDelete)
        } else if self.wait_for_image_create_completion && !self.wait_for_init_script_completion {
            Some(ValidationError::ImageWaitRequiresInitWait)
        } else {
            None
        }
    }

    /// The document breaks no rule.
    pub open spec fn is_valid(self) -> bool {
        self.first_violation() is None
    }

    /// Whether some plugin of the document provisions stable addresses.
    pub fn has_static_ip_provisioner(&self) -> (r: bool)
        ensures
            r == self.provisions_static_ip(),
    {
        let mut i: usize = 0;
        while i < self.plugins.len()
            invariant
                i <= self.plugins.len(),
                forall|j: int| 0 <= j < i ==> !(#[trigger] self.plugins@[j] is StaticIpProvisioner),
            decreases self.plugins.len() - i,
        {
            match &self.plugins[i] {
                Plugin::StaticIpProvisioner => {
                    return true;
                },
                Plugin::Other(_) => {},
            }
            i += 1;
        }
        false
    }

    /// Whether the IP mode asks for stable addresses.
    pub fn is_elastic(&self) -> (r: bool)
        ensures
            r == self.wants_elastic_ip(),
    {
        same_text(self.machine.ip_mode.as_str(), IP_MODE_ELASTIC)
    }

    /// Checks the rules of a document, in order, and reports the first one
    /// that is broken.
    pub fn validate(&self) -> (r: Result<(), ValidationError>)
        ensures
            r == match self.first_violation() {
                Some(e) => Err::<(), ValidationError>(e),
                None => Ok(()),
            },
    {
        let id_length = self.id.as_str().unicode_len();
        if id_length == 0 {
            return Err(ValidationError::EmptyId);
        }
        if id_length > MAX_ID_LENGTH {
            return Err(ValidationError::IdTooLong);
        }
        if self.aws_resources.region.as_str().unicode_len() == 0 {
            return Err(ValidationError::EmptyRegion);
        }
        if self.aws_resources.user_defined_tcp_ingress_ports.len() > MAX_INGRESS_PORTS {
            return Err(ValidationError::TooManyIngressPorts);
        }
        if self.machine.machines < MIN_MACHINES {
            return Err(ValidationError::TooFewMachines);
        }
        if self.machine.machines > MAX_MACHINES {
            return Err(ValidationError::TooManyMachines);
        }
        if self.has_static_ip_provisioner() && !self.is_elastic() {
            return Err(ValidationError::StaticIpRequiresElastic);
        }
        if self.auto_delete_after_apply_delete_all && !self.auto_delete_after_apply {
            return Err(ValidationError::DeleteAllRequiresAutoDelete);
        }
        if self.wait_for_image_create_completion && !self.wait_for_init_script_completion {
            return Err(ValidationError::ImageWaitRequiresInitWait);
        }
        Ok(())
    }
}

} // verus!
