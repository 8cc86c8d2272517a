//! Generation of a new deployment document from the options of the
//! operator.

use vstd::prelude::*;
use vstd::string::*;
use crate::deployment::{Machine, Plugin, Resources, Spec, UploadArtifacts, ID_PREFIX};
use crate::naming::{key_pair_name, key_pair_name_of};
use crate::params::ANYWHERE;
use crate::paths::{
    get_init_script_path, get_release_info_file_path, get_ssh_commands_path,
    get_ssh_private_key_path, get_ssh_public_key_path, sibling_path,
};
use crate::text::{begins_with, copy_text, copy_texts, same_text};

verus! {

/// Smallest image volume, in GiB, where a size is given.
pub const MIN_IMAGE_VOLUME_SIZE_IN_GB: u32 = 20;

/// Most IOPS for each GiB of a provisioned-IOPS volume.
pub const MAX_IOPS_PER_GB: u64 = 50;

/// Most digits of the time in a bucket name.
pub const TIME_LENGTH: usize = 6;

/// Most characters that tell the local host in a bucket name.
pub const HOST_LENGTH: usize = 7;

/// The options of document generation.
#[derive(Clone, Debug, PartialEq, Eq)]
pub struct DefaultSpecOption {
    pub log_level: String,
    pub ssh_key_email: String,
    pub unsafe_temporary_aws_secret_key_id: String,
    pub unsafe_temporary_aws_secret_access_key: String,
    pub ssh_ingress_ipv4_cidr: String,
    pub user_defined_tcp_ingress_ports_ipv4_cidr: String,
    pub user_defined_tcp_ingress_ports: Vec<u32>,
    pub arch_type: String,
    pub os_type: String,
    pub aad_tag: String,
    pub profile_name: String,
    pub region: String,
    pub instance_mode: String,
    pub instance_size: String,
    pub instance_types: Vec<String>,
    pub ip_mode: String,
    pub ec2_key_import: bool,
    pub image_id: String,
    pub image_id_ssm_parameter: String,
    pub image_volume_type: String,
    pub image_volume_size_in_gb: u32,
    pub image_volume_iops: u32,
    pub existing_vpc_security_group_id: String,
    pub existing_vpc_subnet_ids_for_asg: Vec<String>,
    pub plugins: Vec<String>,
    pub post_init_script: String,
    pub id_prefix: String,
    pub volume_type: String,
    pub volume_size_in_gb: u32,
    pub volume_iops: u32,
    pub volume_throughput: u32,
    pub wait_for_init_script_completion: bool,
    pub image_name_to_create: String,
    pub wait_for_image_create_completion: bool,
    pub auto_delete_after_apply: bool,
    pub auto_delete_after_apply_delete_all: bool,
    pub spec_file_path: String,
}

/// What document generation takes from its surroundings.
#[derive(Clone, Debug, PartialEq, Eq)]
pub struct Surroundings {
    /// The id of the new deployment.
    pub id: String,
    /// The name of the bucket of the new deployment.
    pub s3_bucket: String,
    /// The public address of the local host, if it was found. It is only
    /// used where the options give no address range.
    pub public_ip: Option<String>,
    /// The instance types that fit the architecture; empty where any fits.
    pub valid_instance_types: Vec<String>,
    /// The instance types that are taken where the options give none;
    /// nothing where none is known for the region, architecture and size.
    pub default_instance_types: Option<Vec<String>>,
    /// The plugins that the init script installs.
    pub plugins: Vec<Plugin>,
    /// The image that the managed parameter was resolved into; empty where
    /// it was not resolved.
    pub resolved_image_id: String,
}

/// Why no document is generated.
#[derive(Clone, Copy, Debug, PartialEq, Eq, Structural)]
pub enum GenerationError {
    /// The image volume is smaller than `MIN_IMAGE_VOLUME_SIZE_IN_GB`.
    ImageVolumeTooSmall,
    /// The image volume asks for more than `MAX_IOPS_PER_GB` for each GiB.
    ImageVolumeIopsTooHigh,
    /// No instance types are given and none are known.
    NoInstanceTypes,
    /// An instance type does not fit the architecture.
    UnsupportedInstanceType,
    /// The path of the document has no parent or no file name.
    InvalidSpecFilePath,
}

/// Calls `id_manager::time::timestamp`: the current local time in digits,
/// cut to `n` characters where it is longer. Which digits they are depends
/// on the clock; only their number is claimed.
#[verifier::external_body]
fn timestamp(n: usize) -> (time: String)
    ensures
        time@.len() <= n,
{
    id_manager::time::timestamp(n)
}

/// Calls `id_manager::system::string`: a digest of the names of the local
/// user and host in lower-case letters and digits, cut to `n` characters
/// where it is longer. Which characters they are depends on the host; only
/// their number is claimed.
#[verifier::external_body]
fn system_id(n: usize) -> (host: String)
    requires
        n > 0,
    ensures
        host@.len() <= n,
{
    id_manager::system::string(n)
}

/// Calls `id_manager::time::with_prefix`: the prefix, a hyphen, the time, a
/// hyphen and random characters. Only the beginning is claimed.
#[verifier::external_body]
fn id_with_prefix(prefix: &str) -> (id: String)
    ensures
        (prefix@ + "-"@).is_prefix_of(id@),
{
    id_manager::time::with_prefix(prefix)
}

/// A text, or nothing where it is empty.
pub open spec fn unless_empty(s: Seq<char>) -> Option<Seq<char>> {
    if s.len() == 0 {
        None
    } else {
        Some(s)
    }
}

/// A list, or nothing where it is empty.
pub open spec fn unless_none(v: Seq<Seq<char>>) -> Option<Seq<Seq<char>>> {
    if v.len() == 0 {
        None
    } else {
        Some(v)
    }
}

/// The prefix of generated ids: the given one, or `ID_PREFIX`.
pub open spec fn id_prefix_of(given: Seq<char>) -> Seq<char> {
    if given.len() == 0 {
        ID_PREFIX@
    } else {
        given
    }
}

/// The name of a bucket: the prefix, the time, the host and the region,
/// joined with hyphens. It does not hold the deployment id, so that the
/// deployments of one operator share their bucket.
pub open spec fn bucket_name(
    prefix: Seq<char>,
    time: Seq<char>,
    host: Seq<char>,
    region: Seq<char>,
) -> Seq<char> {
    prefix + "-"@ + time + "-"@ + host + "-"@ + region
}

/// The address range of ingress traffic: the given one, else the public
/// address of the local host alone, else every address.
pub open spec fn ingress_range(given: Seq<char>, public_ip: Option<String>) -> Seq<char> {
    if given.len() > 0 {
        given
    } else {
        match public_ip {
            Some(ip) => ip@ + "/32"@,
            None => ANYWHERE@,
        }
    }
}

/// The instance types of the new document: the given ones, else the
/// default ones.
pub open spec fn chosen_instance_types(opts: DefaultSpecOption, around: Surroundings) -> Option<
    Seq<Seq<char>>,
> {
    if opts.instance_types@.len() > 0 {
        Some(opts.instance_types.deep_view())
    } else {
        around.default_instance_types.deep_view()
    }
}

/// The text is one of the list.
pub open spec fn listed(list: Seq<Seq<char>>, text: Seq<char>) -> bool {
    exists|i: int| 0 <= i < list.len() && #[trigger] list[i] == text
}

/// Every instance type fits: the list of valid ones is empty or holds it.
pub open spec fn all_fit(types: Seq<Seq<char>>, valid: Seq<Seq<char>>) -> bool {
    valid.len() == 0 || forall|i: int| 0 <= i < types.len() ==> listed(valid, #[trigger] types[i])
}

/// The image of the new document: the given one, else the one that the
/// managed parameter was resolved into, where one is given.
pub open spec fn chosen_image(opts: DefaultSpecOption, around: Surroundings) -> Seq<char> {
    if opts.image_id@.len() > 0 {
        opts.image_id@
    } else if opts.image_id_ssm_parameter@.len() > 0 {
        around.resolved_image_id@
    } else {
        Seq::empty()
    }
}

/// Why no document is generated, if none is: the first of the checks that
/// fails.
pub open spec fn generation_error(opts: DefaultSpecOption, around: Surroundings) -> Option<
    GenerationError,
> {
    let path = opts.spec_file_path@;
    if image_volume_error(opts) is Some {
        image_volume_error(opts)
    } else if sibling_path(path, "-init.bash"@) is None {
        Some(GenerationError::InvalidSpecFilePath)
    } else if chosen_instance_types(opts, around) is None {
        Some(GenerationError::NoInstanceTypes)
    } else if !all_fit(chosen_instance_types(opts, around)->0, around.valid_instance_types.deep_view()) {
        Some(GenerationError::UnsupportedInstanceType)
    } else if sibling_path(path, "-ec2-access.key"@) is None || (opts.ec2_key_import
        && sibling_path(path, "-ec2-access.pub.pem"@) is None) || sibling_path(
        path,
        "-ssh-commands.sh"@,
    ) is None || sibling_path(path, "-release-info"@) is None {
        Some(GenerationError::InvalidSpecFilePath)
    } else {
        None
    }
}

/// `spec` is the new document that the options and the surroundings give.
pub open spec fn is_generated(spec: Spec, opts: DefaultSpecOption, around: Surroundings) -> bool {
    let res = spec.aws_resources;
    let m = spec.machine;
    let path = opts.spec_file_path@;
    &&& spec.id@ == around.id@
    &&& spec.aad_tag@ == opts.aad_tag@
    &&& spec.ssh_key_email.deep_view() == unless_empty(opts.ssh_key_email@)
    &&& spec.unsafe_temporary_aws_secret_key_id.deep_view() == unless_empty(
        opts.unsafe_temporary_aws_secret_key_id@,
    )
    &&& spec.unsafe_temporary_aws_secret_access_key.deep_view() == unless_empty(
        opts.unsafe_temporary_aws_secret_access_key@,
    )
    &&& res.profile_name.deep_view() == unless_empty(opts.profile_name@)
    &&& res.identity.account_id@.len() == 0
    &&& res.identity.role_arn@.len() == 0
    &&& res.identity.user_id@.len() == 0
    &&& res.region@ == opts.region@
    &&& res.ssh_ingress_ipv4_cidr@ == ingress_range(opts.ssh_ingress_ipv4_cidr@, around.public_ip)
    &&& res.user_defined_tcp_ingress_ports_ipv4_cidr@ == ingress_range(
        opts.user_defined_tcp_ingress_ports_ipv4_cidr@,
        around.public_ip,
    )
    &&& res.user_defined_tcp_ingress_ports@ == opts.user_defined_tcp_ingress_ports@
    &&& res.s3_bucket@ == around.s3_bucket@
    &&& res.kms_key_id is None
    &&& res.kms_key_arn is None
    &&& res.ec2_key_import == opts.ec2_key_import
    &&& res.ec2_key_name@ == key_pair_name(around.id@)
    &&& Some(res.ssh_private_key_path@) == sibling_path(path, "-ec2-access.key"@)
    &&& res.ssh_public_key_path.deep_view() == (if opts.ec2_key_import {
        sibling_path(path, "-ec2-access.pub.pem"@)
    } else {
        None
    })
    &&& Some(res.ssh_commands_path@) == sibling_path(path, "-ssh-commands.sh"@)
    &&& res.existing_vpc_security_group_id.deep_view() == unless_empty(
        opts.existing_vpc_security_group_id@,
    )
    &&& res.existing_vpc_subnet_ids_for_asg.deep_view() == unless_none(
        opts.existing_vpc_subnet_ids_for_asg.deep_view(),
    )
    &&& res.cloudformation_ec2_instance_role is None
    &&& res.cloudformation_ec2_instance_profile_arn is None
    &&& res.cloudformation_vpc is None
    &&& res.cloudformation_vpc_id is None
    &&& res.cloudformation_vpc_security_group_id is None
    &&& res.cloudformation_vpc_public_subnet_ids is None
    &&& res.cloudformation_asg is None
    &&& res.cloudformation_asg_logical_id is None
    &&& Some(res.release_info_file_path@) == sibling_path(path, "-release-info"@)
    &&& m.machines == 1
    &&& m.arch_type@ == opts.arch_type@
    &&& m.os_type@ == opts.os_type@
    &&& Some(m.instance_types.deep_view()) == chosen_instance_types(opts, around)
    &&& m.instance_mode@ == opts.instance_mode@
    &&& m.ip_mode@ == opts.ip_mode@
    &&& m.image_id@ == chosen_image(opts, around)
    &&& m.image_id_ssm_parameter@ == opts.image_id_ssm_parameter@
    &&& m.image_volume_type@ == opts.image_volume_type@
    &&& m.image_volume_size_in_gb == opts.image_volume_size_in_gb
    &&& m.image_volume_iops == opts.image_volume_iops
    &&& m.volume_type@ == opts.volume_type@
    &&& m.volume_size_in_gb == opts.volume_size_in_gb
    &&& m.volume_iops == opts.volume_iops
    &&& m.volume_throughput == opts.volume_throughput
    &&& Some(spec.upload_artifacts.init_bash_local_file_path@) == sibling_path(path, "-init.bash"@)
    &&& spec.plugins == around.plugins
    &&& spec.post_init_script@ == opts.post_init_script@
    &&& spec.wait_for_init_script_completion == opts.wait_for_init_script_completion
    &&& spec.image_name_to_create@ == opts.image_name_to_create@
    &&& spec.wait_for_image_create_completion == opts.wait_for_image_create_completion
    &&& spec.auto_delete_after_apply == opts.auto_delete_after_apply
    &&& spec.auto_delete_after_apply_delete_all == opts.auto_delete_after_apply_delete_all
    &&& spec.spec_file_path@ == opts.spec_file_path@
}

/// A copy of a text, or nothing where it is empty.
pub fn some_unless_empty(s: &String) -> (r: Option<String>)
    ensures
        r.deep_view() == unless_empty(s@),
{
    if s.as_str().unicode_len() == 0 {
        None
    } else {
        Some(s.clone())
    }
}

/// The address range of ingress traffic.
pub fn ingress_range_of(given: &String, public_ip: &Option<String>) -> (range: String)
    ensures
        range@ == ingress_range(given@, *public_ip),
{
    if given.as_str().unicode_len() > 0 {
        given.clone()
    } else {
        match public_ip {
            Some(ip) => ip.clone().concat("/32"),
            None => copy_text(ANYWHERE),
        }
    }
}

/// Whether the text is one of the list.
pub fn is_listed(list: &Vec<String>, text: &str) -> (r: bool)
    ensures
        r == listed(list.deep_view(), text@),
{
    let mut i: usize = 0;
    while i < list.len()
        invariant
            i <= list.len(),
            forall|k: int| 0 <= k < i ==> list[k]@ != text@,
        decreases list.len() - i,
    {
        if same_text(list[i].as_str(), text) {
            assert(list.deep_view()[i as int] == text@);
            return true;
        }
        i += 1;
    }
    assert forall|k: int| 0 <= k < list.deep_view().len() implies #[trigger] list.deep_view()[k]
        != text@ by {
        assert(list.deep_view()[k] == list[k]@);
    }
    false
}

/// Whether every instance type fits.
pub fn do_all_fit(types: &Vec<String>, valid: &Vec<String>) -> (r: bool)
    ensures
        r == all_fit(types.deep_view(), valid.deep_view()),
{
    assert(valid.deep_view().len() == valid@.len());
    assert(types.deep_view().len() == types@.len());
    if valid.len() == 0 {
        return true;
    }
    let mut i: usize = 0;
    while i < types.len()
        invariant
            i <= types.len(),
            types.deep_view().len() == types@.len(),
            valid.deep_view().len() > 0,
            forall|k: int| 0 <= k < i ==> listed(valid.deep_view(), #[trigger] types.deep_view()[k]),
        decreases types.len() - i,
    {
        assert(types.deep_view()[i as int] == types[i as int]@);
        if !is_listed(valid, types[i].as_str()) {
            assert(!listed(valid.deep_view(), types.deep_view()[i as int]));
            return false;
        }
        i += 1;
    }
    true
}

/// The name of a bucket from its parts.
pub fn bucket_name_of(prefix: &str, time: &str, host: &str, region: &str) -> (name: String)
    ensures
        name@ == bucket_name(prefix@, time@, host@, region@),
{
    copy_text(prefix).concat("-").concat(time).concat("-").concat(host).concat("-").concat(region)
}

/// Makes up the id and the bucket name of a new deployment. Both begin
/// with the prefix; the id goes on with the time and random characters, the
/// bucket name with at most `TIME_LENGTH` digits of the time, at most
/// `HOST_LENGTH` characters that tell the local host, and the region. What
/// comes out differs from call to call.
pub fn new_names(id_prefix: &str, region: &str) -> (names: (String, String))
    ensures
        (id_prefix_of(id_prefix@) + "-"@).is_prefix_of(names.0@),
        exists|time: Seq<char>, host: Seq<char>|
            time.len() <= TIME_LENGTH && host.len() <= HOST_LENGTH && names.1@ == bucket_name(
                id_prefix_of(id_prefix@),
                time,
                host,
                region@,
            ),
{
    let prefix = if id_prefix.unicode_len() == 0 {
        ID_PREFIX
    } else {
        id_prefix
    };
    let time = timestamp(TIME_LENGTH);
    let host = system_id(HOST_LENGTH);
    let bucket = bucket_name_of(prefix, time.as_str(), host.as_str(), region);
    let id = id_with_prefix(prefix);
    assert(time@.len() <= TIME_LENGTH && host@.len() <= HOST_LENGTH && bucket@ == bucket_name(
        id_prefix_of(id_prefix@),
        time@,
        host@,
        region@,
    ));
    (id, bucket)
}

/// Why the image volume of the options is refused, if it is.
pub open spec fn image_volume_error(opts: DefaultSpecOption) -> Option<GenerationError> {
    if 0 < opts.image_volume_size_in_gb < MIN_IMAGE_VOLUME_SIZE_IN_GB {
        Some(GenerationError::ImageVolumeTooSmall)
    } else if "io"@.is_prefix_of(opts.image_volume_type@) && opts.image_volume_size_in_gb > 0
        && opts.image_volume_iops > opts.image_volume_size_in_gb * MAX_IOPS_PER_GB {
        Some(GenerationError::ImageVolumeIopsTooHigh)
    } else {
        None
    }
}

/// Checks the image volume of the options: a size that is given is at
/// least `MIN_IMAGE_VOLUME_SIZE_IN_GB`, and a provisioned-IOPS volume asks
/// for at most `MAX_IOPS_PER_GB` for each GiB.
pub fn check_image_volume(opts: &DefaultSpecOption) -> (r: Result<(), GenerationError>)
    ensures
        r == match image_volume_error(*opts) {
            Some(e) => Err::<(), GenerationError>(e),
            None => Ok(()),
        },
{
    if opts.image_volume_size_in_gb > 0 && opts.image_volume_size_in_gb
        < MIN_IMAGE_VOLUME_SIZE_IN_GB {
        return Err(GenerationError::ImageVolumeTooSmall);
    }
    if begins_with(opts.image_volume_type.as_str(), "io") && opts.image_volume_size_in_gb > 0 {
        if (opts.image_volume_iops as u64) > (opts.image_volume_size_in_gb as u64)
            * MAX_IOPS_PER_GB {
            return Err(GenerationError::ImageVolumeIopsTooHigh);
        }
    }
    Ok(())
}

impl Spec {
    /// The document of a new deployment. Nothing is created yet: the
    /// document records no resource, and asks for one machine.
    pub fn default(opts: DefaultSpecOption, around: Surroundings) -> (r: Result<
        Spec,
        GenerationError,
    >)
        ensures
            match r {
                Ok(spec) => generation_error(opts, around) is None && is_generated(
                    spec,
                    opts,
                    around,
                ),
                Err(e) => generation_error(opts, around) == Some(e),
            },
    {
        match check_image_volume(&opts) {
            Err(e) => {
                return Err(e);
            },
            Ok(()) => {},
        }
        let path = opts.spec_file_path.as_str();
        let init_bash_local_file_path = match get_init_script_path(path) {
            Some(p) => p,
            None => {
                return Err(GenerationError::InvalidSpecFilePath);
            },
        };
        let instance_types = if opts.instance_types.len() > 0 {
            copy_texts(&opts.instance_types)
        } else {
            match &around.default_instance_types {
                Some(types) => copy_texts(types),
                None => {
                    return Err(GenerationError::NoInstanceTypes);
                },
            }
        };
        if !do_all_fit(&instance_types, &around.valid_instance_types) {
            return Err(GenerationError::UnsupportedInstanceType);
        }
        let ssh_private_key_path = match get_ssh_private_key_path(path) {
            Some(p) => p,
            None => {
                return Err(GenerationError::InvalidSpecFilePath);
            },
        };
        let ssh_public_key_path = if opts.ec2_key_import {
            match get_ssh_public_key_path(path) {
                Some(p) => Some(p),
                None => {
                    return Err(GenerationError::InvalidSpecFilePath);
                },
            }
        } else {
            None
        };
        let ssh_commands_path = match get_ssh_commands_path(path) {
            Some(p) => p,
            None => {
                return Err(GenerationError::InvalidSpecFilePath);
            },
        };
        let release_info_file_path = match get_release_info_file_path(path) {
            Some(p) => p,
            None => {
                return Err(GenerationError::InvalidSpecFilePath);
            },
        };
        let image_id = if opts.image_id.as_str().unicode_len() > 0 {
            opts.image_id.clone()
        } else if opts.image_id_ssm_parameter.as_str().unicode_len() > 0 {
            around.resolved_image_id.clone()
        } else {
            String::new()
        };
        let existing_subnets = if opts.existing_vpc_subnet_ids_for_asg.len() == 0 {
            None
        } else {
            Some(copy_texts(&opts.existing_vpc_subnet_ids_for_asg))
        };
        assert(opts.existing_vpc_subnet_ids_for_asg.deep_view().len()
            == opts.existing_vpc_subnet_ids_for_asg@.len());
        assert(opts.instance_types.deep_view().len() == opts.instance_types@.len());
        let blank = Resources::default();
        let spec = Spec {
            id: around.id.clone(),
            aad_tag: opts.aad_tag.clone(),
            ssh_key_email: some_unless_empty(&opts.ssh_key_email),
            unsafe_temporary_aws_secret_key_id: some_unless_empty(
                &opts.unsafe_temporary_aws_secret_key_id,
            ),
            unsafe_temporary_aws_secret_access_key: some_unless_empty(
                &opts.unsafe_temporary_aws_secret_access_key,
            ),
            aws_resources: Resources {
                profile_name: some_unless_empty(&opts.profile_name),
                region: opts.region.clone(),
                ssh_ingress_ipv4_cidr: ingress_range_of(
                    &opts.ssh_ingress_ipv4_cidr,
                    &around.public_ip,
                ),
                user_defined_tcp_ingress_ports_ipv4_cidr: ingress_range_of(
                    &opts.user_defined_tcp_ingress_ports_ipv4_cidr,
                    &around.public_ip,
                ),
                user_defined_tcp_ingress_ports: opts.user_defined_tcp_ingress_ports.clone(),
                s3_bucket: around.s3_bucket.clone(),
                ec2_key_import: opts.ec2_key_import,
                ec2_key_name: key_pair_name_of(&around.id),
                ssh_private_key_path,
                ssh_public_key_path,
                ssh_commands_path,
                existing_vpc_security_group_id: some_unless_empty(
                    &opts.existing_vpc_security_group_id,
                ),
                existing_vpc_subnet_ids_for_asg: existing_subnets,
                release_info_file_path,
                ..blank
            },
            machine: Machine {
                machines: 1,
                arch_type: opts.arch_type.clone(),
                os_type: opts.os_type.clone(),
                instance_types,
                instance_mode: opts.instance_mode.clone(),
                ip_mode: opts.ip_mode.clone(),
                image_id,
                image_id_ssm_parameter: opts.image_id_ssm_parameter.clone(),
                image_volume_type: opts.image_volume_type.clone(),
                image_volume_size_in_gb: opts.image_volume_size_in_gb,
                image_volume_iops: opts.image_volume_iops,
                volume_type: opts.volume_type.clone(),
                volume_size_in_gb: opts.volume_size_in_gb,
                volume_iops: opts.volume_iops,
                volume_throughput: opts.volume_throughput,
            },
            upload_artifacts: UploadArtifacts { init_bash_local_file_path },
            plugins: around.plugins,
            post_init_script: opts.post_init_script.clone(),
            wait_for_init_script_completion: opts.wait_for_init_script_completion,
            image_name_to_create: opts.image_name_to_create.clone(),
            wait_for_image_create_completion: opts.wait_for_image_create_completion,
            auto_delete_after_apply: opts.auto_delete_after_apply,
            auto_delete_after_apply_delete_all: opts.auto_delete_after_apply_delete_all,
            spec_file_path: opts.spec_file_path.clone(),
        };
        Ok(spec)
    }
}

} // verus!
