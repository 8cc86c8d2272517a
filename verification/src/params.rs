//! The tags, parameters and waiting times of the stacks of a deployment.

use vstd::prelude::*;
use vstd::string::*;
use crate::action::{pairs_view, Pair};
use crate::deployment::Spec;
use crate::naming::{scaling_group_name, scaling_group_name_of};
use crate::text::{
    comma_joined, copy_text, decimal, decimal_digits, first_piece, head_before, join_commas,
    same_text,
};

verus! {

/// No stack is waited for longer than this: 50 minutes.
pub const MAX_WAIT_SECONDS: u64 = 3000;

/// The address range that admits every address.
pub const ANYWHERE: &'static str = "0.0.0.0/0";

/// A list of pairs by their views.
pub type PairsView = Seq<(Seq<char>, Seq<char>)>;

/// Time to wait for the fleet stack to be created: five minutes, and one
/// more for each machine, up to `MAX_WAIT_SECONDS`.
pub open spec fn fleet_create_wait(machines: u32) -> u64 {
    if 300 + 60 * machines > MAX_WAIT_SECONDS {
        MAX_WAIT_SECONDS
    } else {
        (300 + 60 * machines) as u64
    }
}

/// Time to wait for the fleet stack to be deleted: machines may take longer
/// to terminate than to start.
pub open spec fn fleet_delete_wait(machines: u32) -> u64 {
    if 500 + 60 * machines > MAX_WAIT_SECONDS {
        MAX_WAIT_SECONDS
    } else {
        (500 + 60 * machines) as u64
    }
}

/// Seconds to wait for the creation of a fleet of `machines` machines.
pub fn fleet_create_wait_secs(machines: u32) -> (secs: u64)
    ensures
        secs == fleet_create_wait(machines),
        secs <= MAX_WAIT_SECONDS,
{
    let wait: u64 = 300 + 60 * (machines as u64);
    if wait > MAX_WAIT_SECONDS {
        MAX_WAIT_SECONDS
    } else {
        wait
    }
}

/// Seconds to wait for the deletion of a fleet of `machines` machines.
pub fn fleet_delete_wait_secs(machines: u32) -> (secs: u64)
    ensures
        secs == fleet_delete_wait(machines),
        secs <= MAX_WAIT_SECONDS,
{
    let wait: u64 = 500 + 60 * (machines as u64);
    if wait > MAX_WAIT_SECONDS {
        MAX_WAIT_SECONDS
    } else {
        wait
    }
}

/// A pair of two texts.
pub fn pair(key: &str, value: &str) -> (p: Pair)
    ensures
        p@ == (key@, value@),
{
    Pair { key: copy_text(key), value: copy_text(value) }
}

/// Appends a pair to a list.
pub fn push_pair(pairs: &mut Vec<Pair>, key: &str, value: &str)
    ensures
        pairs_view(final(pairs)@) == pairs_view(old(pairs)@).push((key@, value@)),
{
    let p = pair(key, value);
    pairs.push(p);
    assert(pairs_view(pairs@) =~= pairs_view(old(pairs)@).push((key@, value@)));
}

/// The value of a key among the outputs of a stack: that of its last
/// occurrence.
pub open spec fn output_value(outputs: Seq<Pair>, key: Seq<char>) -> Option<String>
    decreases outputs.len(),
{
    if outputs.len() == 0 {
        None
    } else if outputs.last().key@ == key {
        Some(outputs.last().value)
    } else {
        output_value(outputs.drop_last(), key)
    }
}

/// Looks a key up among the outputs of a stack. Where a key occurs more than
/// once its last value counts.
pub fn find_output(outputs: &Vec<Pair>, key: &str) -> (value: Option<String>)
    ensures
        value.deep_view() == output_value(outputs@, key@).deep_view(),
{
    let mut i: usize = outputs.len();
    assert(outputs@.take(i as int) =~= outputs@);
    while i > 0
        invariant
            i <= outputs.len(),
            output_value(outputs@, key@) == output_value(outputs@.take(i as int), key@),
        decreases i,
    {
        let ghost head = outputs@.take(i as int);
        proof {
            assert(head.last() == outputs@[i - 1]);
            assert(head.drop_last() =~= outputs@.take(i - 1));
        }
        if same_text(outputs[i - 1].key.as_str(), key) {
            return Some(outputs[i - 1].value.clone());
        }
        i -= 1;
    }
    None
}

/// The tags of every stack of a deployment.
pub open spec fn stack_tags(user_id: Seq<char>) -> PairsView {
    Seq::empty().push(("KIND"@, "dev-machine"@)).push(("UserId"@, user_id))
}

/// The parameters of the role stack.
pub open spec fn role_parameters(spec: Spec, key_arn: Seq<char>) -> PairsView {
    Seq::empty().push(("Id"@, spec.id@)).push(("KmsKeyArn"@, key_arn)).push(
        ("S3BucketName"@, spec.aws_resources.s3_bucket@),
    )
}

/// An address range, or the one that admits every address where none is
/// given.
pub open spec fn or_anywhere(cidr: Seq<char>) -> Seq<char> {
    if cidr.len() > 0 {
        cidr
    } else {
        ANYWHERE@
    }
}

/// The decimal notations of a list of ports.
pub open spec fn ports_text(ports: Seq<u32>) -> Seq<Seq<char>> {
    ports.map_values(|p: u32| decimal_digits(p as nat))
}

/// The parameters of the network stack.
pub open spec fn network_parameters(spec: Spec) -> PairsView {
    let res = spec.aws_resources;
    let base = Seq::empty().push(("Id"@, spec.id@)).push(("UserId"@, res.identity.user_id@)).push(
        ("VpcCidr"@, "10.0.0.0/16"@),
    ).push(("PublicSubnetCidr1"@, "10.0.64.0/19"@)).push(
        ("PublicSubnetCidr2"@, "10.0.128.0/19"@),
    ).push(("PublicSubnetCidr3"@, "10.0.192.0/19"@)).push(
        ("SshPortIngressIpv4Range"@, or_anywhere(res.ssh_ingress_ipv4_cidr@)),
    ).push(
        (
            "UserDefinedTcpIngressPortsIngressIpv4Range"@,
            or_anywhere(res.user_defined_tcp_ingress_ports_ipv4_cidr@),
        ),
    );
    let ports = res.user_defined_tcp_ingress_ports@;
    if ports.len() > 0 {
        base.push(("UserDefinedTcpIngressPorts"@, comma_joined(ports_text(ports)))).push(
            ("UserDefinedTcpIngressPortsCount"@, decimal_digits(ports.len())),
        )
    } else {
        base.push(("UserDefinedTcpIngressPortsCount"@, "0"@))
    }
}

/// What the fleet stack needs beside the document.
pub struct FleetInputs {
    pub key_arn: String,
    pub profile_arn: String,
    /// The subnet that the machines are placed in.
    pub subnet: String,
    pub security_group: String,
    /// The managed parameter that names the image where the document names
    /// no image.
    pub fallback_image_parameter: String,
}

/// The inputs of the fleet stack with every text by its characters.
pub struct FleetInputsView {
    pub key_arn: Seq<char>,
    pub profile_arn: Seq<char>,
    pub subnet: Seq<char>,
    pub security_group: Seq<char>,
    pub fallback_image_parameter: Seq<char>,
}

impl View for FleetInputs {
    type V = FleetInputsView;

    open spec fn view(&self) -> FleetInputsView {
        FleetInputsView {
            key_arn: self.key_arn@,
            profile_arn: self.profile_arn@,
            subnet: self.subnet@,
            security_group: self.security_group@,
            fallback_image_parameter: self.fallback_image_parameter@,
        }
    }
}

/// The instance mode asks for spot machines.
pub open spec fn wants_spot(spec: Spec) -> bool {
    spec.machine.instance_mode@ == "spot"@
}

/// The architecture without what follows its first hyphen.
pub open spec fn plain_arch(spec: Spec) -> Seq<char> {
    head_before(spec.machine.arch_type@, '-')
}

/// The parameters of the fleet stack.
pub open spec fn fleet_parameters(spec: Spec, inputs: FleetInputsView) -> PairsView {
    let res = spec.aws_resources;
    let m = spec.machine;
    let a = Seq::empty().push(("Id"@, spec.id@)).push(("UserId"@, res.identity.user_id@)).push(
        ("KmsKeyArn"@, inputs.key_arn),
    ).push(("AadTag"@, spec.aad_tag@)).push(("S3BucketName"@, res.s3_bucket@)).push(
        ("Ec2KeyPairName"@, res.ec2_key_name@),
    ).push(("InstanceProfileArn"@, inputs.profile_arn)).push(
        ("PublicSubnetIds"@, inputs.subnet),
    ).push(("SecurityGroupIds"@, inputs.security_group)).push(
        (
            "InstanceMode"@,
            if wants_spot(spec) {
                "spot"@
            } else {
                "on-demand"@
            },
        ),
    ).push(
        (
            "OnDemandPercentageAboveBaseCapacity"@,
            if wants_spot(spec) {
                decimal_digits(0)
            } else {
                decimal_digits(100)
            },
        ),
    );
    let b = if m.image_id@.len() > 0 {
        a.push(("ImageId"@, m.image_id@))
    } else {
        a.push(("ImageIdSsmParameter"@, inputs.fallback_image_parameter))
    };
    let c = b.push(("ImageVolumeType"@, m.image_volume_type@)).push(
        ("ImageVolumeIops"@, decimal_digits(m.image_volume_iops as nat)),
    );
    let d = if m.image_volume_size_in_gb > 0 {
        c.push(("ImageVolumeSize"@, decimal_digits(m.image_volume_size_in_gb as nat)))
    } else {
        c
    };
    let e = match spec.ssh_key_email {
        Some(email) => d.push(("SshKeyEmail"@, email@)),
        None => d,
    };
    let f = e.push(("ArchType"@, plain_arch(spec))).push(("OsType"@, m.os_type@));
    let g = if m.instance_types@.len() > 0 {
        f.push(("InstanceTypes"@, comma_joined(m.instance_types.deep_view()))).push(
            ("InstanceTypesCount"@, decimal_digits(m.instance_types@.len())),
        )
    } else {
        f
    };
    g.push(("AsgName"@, scaling_group_name(spec.id@, plain_arch(spec)))).push(
        ("AsgDesiredCapacity"@, decimal_digits(m.machines as nat)),
    )
}

/// Builds the tags of the stacks of a deployment.
pub fn build_stack_tags(spec: &Spec) -> (tags: Vec<Pair>)
    ensures
        pairs_view(tags@) == stack_tags(spec.aws_resources.identity.user_id@),
{
    let mut tags: Vec<Pair> = Vec::new();
    assert(pairs_view(tags@) =~= Seq::empty());
    push_pair(&mut tags, "KIND", "dev-machine");
    push_pair(&mut tags, "UserId", spec.aws_resources.identity.user_id.as_str());
    tags
}

/// Builds the parameters of the role stack.
pub fn build_role_parameters(spec: &Spec, key_arn: &str) -> (parameters: Vec<Pair>)
    ensures
        pairs_view(parameters@) == role_parameters(*spec, key_arn@),
{
    let mut parameters: Vec<Pair> = Vec::new();
    assert(pairs_view(parameters@) =~= Seq::empty());
    push_pair(&mut parameters, "Id", spec.id.as_str());
    push_pair(&mut parameters, "KmsKeyArn", key_arn);
    push_pair(&mut parameters, "S3BucketName", spec.aws_resources.s3_bucket.as_str());
    parameters
}

/// The decimal notation of each port, in order.
pub fn ports_as_text(ports: &Vec<u32>) -> (texts: Vec<String>)
    ensures
        texts.deep_view() == ports_text(ports@),
{
    let mut texts: Vec<String> = Vec::new();
    let mut i: usize = 0;
    while i < ports.len()
        invariant
            i <= ports.len(),
            texts.len() == i,
            forall|j: int| 0 <= j < i ==> texts[j]@ == decimal_digits(ports[j] as nat),
        decreases ports.len() - i,
    {
        texts.push(decimal(ports[i] as u64));
        i += 1;
    }
    assert(texts.deep_view() =~= ports_text(ports@));
    texts
}

/// Builds the parameters of the network stack.
pub fn build_network_parameters(spec: &Spec) -> (parameters: Vec<Pair>)
    ensures
        pairs_view(parameters@) == network_parameters(*spec),
{
    let res = &spec.aws_resources;
    let mut parameters: Vec<Pair> = Vec::new();
    assert(pairs_view(parameters@) =~= Seq::empty());
    push_pair(&mut parameters, "Id", spec.id.as_str());
    push_pair(&mut parameters, "UserId", res.identity.user_id.as_str());
    push_pair(&mut parameters, "VpcCidr", "10.0.0.0/16");
    push_pair(&mut parameters, "PublicSubnetCidr1", "10.0.64.0/19");
    push_pair(&mut parameters, "PublicSubnetCidr2", "10.0.128.0/19");
    push_pair(&mut parameters, "PublicSubnetCidr3", "10.0.192.0/19");
    if res.ssh_ingress_ipv4_cidr.as_str().unicode_len() > 0 {
        push_pair(&mut parameters, "SshPortIngressIpv4Range", res.ssh_ingress_ipv4_cidr.as_str());
    } else {
        push_pair(&mut parameters, "SshPortIngressIpv4Range", ANYWHERE);
    }
    if res.user_defined_tcp_ingress_ports_ipv4_cidr.as_str().unicode_len() > 0 {
        push_pair(
            &mut parameters,
            "UserDefinedTcpIngressPortsIngressIpv4Range",
            res.user_defined_tcp_ingress_ports_ipv4_cidr.as_str(),
        );
    } else {
        push_pair(&mut parameters, "UserDefinedTcpIngressPortsIngressIpv4Range", ANYWHERE);
    }
    if res.user_defined_tcp_ingress_ports.len() > 0 {
        let texts = ports_as_text(&res.user_defined_tcp_ingress_ports);
        let joined = join_commas(&texts);
        push_pair(&mut parameters, "UserDefinedTcpIngressPorts", joined.as_str());
        let count = decimal(texts.len() as u64);
        assert(texts.len() == res.user_defined_tcp_ingress_ports@.len()) by {
            assert(texts.deep_view().len() == texts@.len());
        }
        push_pair(&mut parameters, "UserDefinedTcpIngressPortsCount", count.as_str());
    } else {
        push_pair(&mut parameters, "UserDefinedTcpIngressPortsCount", "0");
    }
    parameters
}

/// Builds the parameters of the fleet stack.
pub fn build_fleet_parameters(spec: &Spec, inputs: &FleetInputs) -> (parameters: Vec<Pair>)
    ensures
        pairs_view(parameters@) == fleet_parameters(*spec, inputs@),
{
    let res = &spec.aws_resources;
    let m = &spec.machine;
    let spot = same_text(m.instance_mode.as_str(), "spot");
    let mut parameters: Vec<Pair> = Vec::new();
    assert(pairs_view(parameters@) =~= Seq::empty());
    push_pair(&mut parameters, "Id", spec.id.as_str());
    push_pair(&mut parameters, "UserId", res.identity.user_id.as_str());
    push_pair(&mut parameters, "KmsKeyArn", inputs.key_arn.as_str());
    push_pair(&mut parameters, "AadTag", spec.aad_tag.as_str());
    push_pair(&mut parameters, "S3BucketName", res.s3_bucket.as_str());
    push_pair(&mut parameters, "Ec2KeyPairName", res.ec2_key_name.as_str());
    push_pair(&mut parameters, "InstanceProfileArn", inputs.profile_arn.as_str());
    push_pair(&mut parameters, "PublicSubnetIds", inputs.subnet.as_str());
    push_pair(&mut parameters, "SecurityGroupIds", inputs.security_group.as_str());
    if spot {
        push_pair(&mut parameters, "InstanceMode", "spot");
        let pct = decimal(0);
        push_pair(&mut parameters, "OnDemandPercentageAboveBaseCapacity", pct.as_str());
    } else {
        push_pair(&mut parameters, "InstanceMode", "on-demand");
        let pct = decimal(100);
        push_pair(&mut parameters, "OnDemandPercentageAboveBaseCapacity", pct.as_str());
    }
    if m.image_id.as_str().unicode_len() > 0 {
        push_pair(&mut parameters, "ImageId", m.image_id.as_str());
    } else {
        push_pair(&mut parameters, "ImageIdSsmParameter", inputs.fallback_image_parameter.as_str());
    }
    push_pair(&mut parameters, "ImageVolumeType", m.image_volume_type.as_str());
    let iops = decimal(m.image_volume_iops as u64);
    push_pair(&mut parameters, "ImageVolumeIops", iops.as_str());
    if m.image_volume_size_in_gb > 0 {
        let size = decimal(m.image_volume_size_in_gb as u64);
        push_pair(&mut parameters, "ImageVolumeSize", size.as_str());
    }
    match &spec.ssh_key_email {
        Some(email) => {
            push_pair(&mut parameters, "SshKeyEmail", email.as_str());
        },
        None => {},
    }
    let arch = first_piece(m.arch_type.as_str(), '-');
    push_pair(&mut parameters, "ArchType", arch.as_str());
    push_pair(&mut parameters, "OsType", m.os_type.as_str());
    if m.instance_types.len() > 0 {
        let joined = join_commas(&m.instance_types);
        push_pair(&mut parameters, "InstanceTypes", joined.as_str());
        let count = decimal(m.instance_types.len() as u64);
        push_pair(&mut parameters, "InstanceTypesCount", count.as_str());
    }
    let group = scaling_group_name_of(&spec.id, arch.as_str());
    push_pair(&mut parameters, "AsgName", group.as_str());
    let capacity = decimal(m.machines as u64);
    push_pair(&mut parameters, "AsgDesiredCapacity", capacity.as_str());
    parameters
}

} // verus!
