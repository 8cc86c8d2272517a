use machine_rs::action::Pair;
use machine_rs::deployment::{Machine, Resources, Spec, UploadArtifacts};
use machine_rs::params::{
    build_fleet_parameters, build_network_parameters, build_role_parameters, build_stack_tags,
    find_output, fleet_create_wait_secs, fleet_delete_wait_secs, pair, ports_as_text, push_pair,
    FleetInputs, ANYWHERE, MAX_WAIT_SECONDS,
};

fn document() -> Spec {
    let mut res = Resources::default();
    res.s3_bucket = String::from("bucket");
    res.ec2_key_name = String::from("dev-1-ec2-key");
    res.identity.user_id = String::from("user-1");
    Spec {
        id: String::from("dev-1"),
        aad_tag: String::from("tag"),
        ssh_key_email: None,
        unsafe_temporary_aws_secret_key_id: None,
        unsafe_temporary_aws_secret_access_key: None,
        aws_resources: res,
        machine: Machine {
            machines: 2,
            arch_type: String::from("amd64-gpu-g5-nvidia-a10g"),
            os_type: String::from("ubuntu20.04"),
            instance_types: vec![String::from("g5.xlarge"), String::from("g5.2xlarge")],
            instance_mode: String::from("on-demand"),
            ip_mode: String::from("ephemeral"),
            image_id: String::new(),
            image_id_ssm_parameter: String::new(),
            image_volume_type: String::from("gp3"),
            image_volume_size_in_gb: 40,
            image_volume_iops: 3000,
            volume_type: String::from("gp3"),
            volume_size_in_gb: 300,
            volume_iops: 3000,
            volume_throughput: 500,
        },
        upload_artifacts: UploadArtifacts { init_bash_local_file_path: String::from("/tmp/i.bash") },
        plugins: vec![],
        post_init_script: String::new(),
        wait_for_init_script_completion: false,
        image_name_to_create: String::new(),
        wait_for_image_create_completion: false,
        auto_delete_after_apply: false,
        auto_delete_after_apply_delete_all: false,
        spec_file_path: String::from("/tmp/spec.yaml"),
    }
}

fn pairs(items: &[(&str, &str)]) -> Vec<Pair> {
    items.iter().map(|(k, v)| Pair { key: k.to_string(), value: v.to_string() }).collect()
}

fn inputs() -> FleetInputs {
    FleetInputs {
        key_arn: String::from("arn:key"),
        profile_arn: String::from("arn:profile"),
        subnet: String::from("subnet-2"),
        security_group: String::from("sg-1"),
        fallback_image_parameter: String::from("/aws/service/image"),
    }
}

#[test]
fn the_fleet_is_waited_for_by_its_size() {
    assert_eq!(fleet_create_wait_secs(0), 300);
    assert_eq!(fleet_create_wait_secs(1), 360);
    assert_eq!(fleet_create_wait_secs(2), 420);
    assert_eq!(fleet_create_wait_secs(45), 3000);
    assert_eq!(fleet_create_wait_secs(46), 3000);
    assert_eq!(fleet_create_wait_secs(u32::MAX), MAX_WAIT_SECONDS);
    assert_eq!(fleet_delete_wait_secs(0), 500);
    assert_eq!(fleet_delete_wait_secs(2), 620);
    assert_eq!(fleet_delete_wait_secs(41), 2960);
    assert_eq!(fleet_delete_wait_secs(42), 3000);
    assert_eq!(fleet_delete_wait_secs(u32::MAX), 3000);
}

#[test]
fn stacks_are_tagged_with_kind_and_caller() {
    assert_eq!(build_stack_tags(&document()), pairs(&[("KIND", "dev-machine"), ("UserId", "user-1")]));
}

#[test]
fn role_parameters_name_id_key_and_bucket() {
    assert_eq!(
        build_role_parameters(&document(), "arn:key"),
        pairs(&[("Id", "dev-1"), ("KmsKeyArn", "arn:key"), ("S3BucketName", "bucket")])
    );
}

#[test]
fn network_parameters_without_ports() {
    let mut spec = document();
    spec.aws_resources.ssh_ingress_ipv4_cidr = String::new();
    spec.aws_resources.user_defined_tcp_ingress_ports_ipv4_cidr = String::from("5.6.7.8/32");
    assert_eq!(
        build_network_parameters(&spec),
        pairs(&[
            ("Id", "dev-1"),
            ("UserId", "user-1"),
            ("VpcCidr", "10.0.0.0/16"),
            ("PublicSubnetCidr1", "10.0.64.0/19"),
            ("PublicSubnetCidr2", "10.0.128.0/19"),
            ("PublicSubnetCidr3", "10.0.192.0/19"),
            ("SshPortIngressIpv4Range", "0.0.0.0/0"),
            ("UserDefinedTcpIngressPortsIngressIpv4Range", "5.6.7.8/32"),
            ("UserDefinedTcpIngressPortsCount", "0"),
        ])
    );
    assert_eq!(ANYWHERE, "0.0.0.0/0");
}

#[test]
fn network_parameters_with_ports() {
    let mut spec = document();
    spec.aws_resources.user_defined_tcp_ingress_ports = vec![22, 8080, 0, 4294967295];
    let parameters = build_network_parameters(&spec);
    assert_eq!(parameters.len(), 10);
    assert_eq!(parameters[6], pair("SshPortIngressIpv4Range", "0.0.0.0/0"));
    assert_eq!(parameters[8], pair("UserDefinedTcpIngressPorts", "22,8080,0,4294967295"));
    assert_eq!(parameters[9], pair("UserDefinedTcpIngressPortsCount", "4"));
}

#[test]
fn ports_are_written_in_decimal() {
    assert_eq!(ports_as_text(&vec![0, 7, 10, 65535]), vec!["0", "7", "10", "65535"]);
    assert!(ports_as_text(&vec![]).is_empty());
}

#[test]
fn fleet_parameters_of_an_on_demand_fleet() {
    assert_eq!(
        build_fleet_parameters(&document(), &inputs()),
        pairs(&[
            ("Id", "dev-1"),
            ("UserId", "user-1"),
            ("KmsKeyArn", "arn:key"),
            ("AadTag", "tag"),
            ("S3BucketName", "bucket"),
            ("Ec2KeyPairName", "dev-1-ec2-key"),
            ("InstanceProfileArn", "arn:profile"),
            ("PublicSubnetIds", "subnet-2"),
            ("SecurityGroupIds", "sg-1"),
            ("InstanceMode", "on-demand"),
            ("OnDemandPercentageAboveBaseCapacity", "100"),
            ("ImageIdSsmParameter", "/aws/service/image"),
            ("ImageVolumeType", "gp3"),
            ("ImageVolumeIops", "3000"),
            ("ImageVolumeSize", "40"),
            ("ArchType", "amd64"),
            ("OsType", "ubuntu20.04"),
            ("InstanceTypes", "g5.xlarge,g5.2xlarge"),
            ("InstanceTypesCount", "2"),
            ("AsgName", "dev-1-amd64"),
            ("AsgDesiredCapacity", "2"),
        ])
    );
}

#[test]
fn fleet_parameters_of_a_spot_fleet_with_image_and_email() {
    let mut spec = document();
    spec.machine.instance_mode = String::from("spot");
    spec.machine.image_id = String::from("ami-1");
    spec.machine.image_volume_size_in_gb = 0;
    spec.machine.instance_types = vec![];
    spec.machine.arch_type = String::from("arm64");
    spec.machine.machines = 1;
    spec.ssh_key_email = Some(String::from("a@b.c"));
    assert_eq!(
        build_fleet_parameters(&spec, &inputs()),
        pairs(&[
            ("Id", "dev-1"),
            ("UserId", "user-1"),
            ("KmsKeyArn", "arn:key"),
            ("AadTag", "tag"),
            ("S3BucketName", "bucket"),
            ("Ec2KeyPairName", "dev-1-ec2-key"),
            ("InstanceProfileArn", "arn:profile"),
            ("PublicSubnetIds", "subnet-2"),
            ("SecurityGroupIds", "sg-1"),
            ("InstanceMode", "spot"),
            ("OnDemandPercentageAboveBaseCapacity", "0"),
            ("ImageId", "ami-1"),
            ("ImageVolumeType", "gp3"),
            ("ImageVolumeIops", "3000"),
            ("SshKeyEmail", "a@b.c"),
            ("ArchType", "arm64"),
            ("OsType", "ubuntu20.04"),
            ("AsgName", "dev-1-arm64"),
            ("AsgDesiredCapacity", "1"),
        ])
    );
}

#[test]
fn the_last_output_of_a_key_counts() {
    let outputs = pairs(&[("VpcId", "vpc-1"), ("Other", "x"), ("VpcId", "vpc-2")]);
    assert_eq!(find_output(&outputs, "VpcId"), Some(String::from("vpc-2")));
    assert_eq!(find_output(&outputs, "Other"), Some(String::from("x")));
    assert_eq!(find_output(&outputs, "Missing"), None);
    assert_eq!(find_output(&vec![], "VpcId"), None);
}

#[test]
fn pairs_are_appended_in_order() {
    let mut list = vec![pair("a", "1")];
    push_pair(&mut list, "b", "2");
    assert_eq!(list, pairs(&[("a", "1"), ("b", "2")]));
}
