use machine_rs::action::Resource;
use machine_rs::deployment::{
    Identity, Machine, Plugin, ResourceState, Resources, Spec, UploadArtifacts, ValidationError,
    MAX_MACHINES, MIN_MACHINES,
};

fn sample(id: &str, bucket: &str) -> Spec {
    Spec {
        id: id.to_string(),
        aad_tag: String::from("hi"),
        ssh_key_email: Some(String::from("abc@abc.com")),
        unsafe_temporary_aws_secret_key_id: Some(String::from("a")),
        unsafe_temporary_aws_secret_access_key: Some(String::from("b")),
        aws_resources: Resources {
            profile_name: Some(String::from("default")),
            region: String::from("us-east-1"),
            s3_bucket: bucket.to_string(),
            ssh_ingress_ipv4_cidr: String::from("1.2.3.4/0"),
            user_defined_tcp_ingress_ports_ipv4_cidr: String::from("0.0.0.0/0"),
            ..Resources::default()
        },
        machine: Machine {
            arch_type: String::from("arm64"),
            os_type: String::from("al2023"),
            machines: 1,
            instance_types: vec![String::from("c6g.large")],
            instance_mode: String::from("spot"),
            ip_mode: String::from("elastic"),
            image_id: String::from("abc"),
            image_id_ssm_parameter: String::from("aaa"),
            image_volume_type: String::from("io1"),
            image_volume_size_in_gb: 20,
            image_volume_iops: 200,
            volume_type: String::from("gp3"),
            volume_size_in_gb: 222,
            volume_iops: 3000,
            volume_throughput: 500,
        },
        upload_artifacts: UploadArtifacts {
            init_bash_local_file_path: String::from("/tmp/aaa.bash"),
        },
        plugins: vec![Plugin::Other(String::from("cloudwatch-agent"))],
        post_init_script: String::from("echo 123"),
        wait_for_init_script_completion: true,
        image_name_to_create: String::from("aaa"),
        wait_for_image_create_completion: true,
        auto_delete_after_apply: true,
        auto_delete_after_apply_delete_all: true,
        spec_file_path: String::from("/tmp/spec.yaml"),
    }
}

#[test]
fn test_spec() {
    let id = random_manager::secure_string(10);
    let bucket = format!("test-{}", id_manager::time::timestamp(8));

    let cfg = sample(&id, &bucket);
    let orig = sample(&id, &bucket);

    assert_eq!(cfg, orig);
    assert!(cfg.validate().is_ok());
    assert!(orig.validate().is_ok());

    assert_eq!(cfg.id, id);
    assert_eq!(cfg.aad_tag, "hi");
    assert_eq!(cfg.ssh_key_email.clone().unwrap(), "abc@abc.com");

    assert_eq!(cfg.aws_resources.region, "us-east-1");
    assert_eq!(cfg.aws_resources.s3_bucket, bucket);
    assert_eq!(cfg.aws_resources.ssh_ingress_ipv4_cidr, "1.2.3.4/0");

    assert_eq!(cfg.machine.machines, 1);
    assert_eq!(cfg.machine.arch_type, "arm64");
    assert_eq!(cfg.machine.os_type, "al2023");
    let instance_types = cfg.machine.instance_types;
    assert_eq!(instance_types[0], "c6g.large");

    assert_eq!(cfg.upload_artifacts.init_bash_local_file_path, "/tmp/aaa.bash");

    assert_eq!(cfg.plugins[0], Plugin::Other(String::from("cloudwatch-agent")));
}

#[test]
fn default_resources_are_blank() {
    let res = Resources::default();
    assert_eq!(res.profile_name, None);
    assert_eq!(res.identity, Identity::default());
    assert_eq!(res.identity.user_id, "");
    assert_eq!(res.region, "us-east-1");
    assert_eq!(res.ssh_ingress_ipv4_cidr, "0.0.0.0/0");
    assert_eq!(res.user_defined_tcp_ingress_ports_ipv4_cidr, "0.0.0.0/0");
    assert!(res.user_defined_tcp_ingress_ports.is_empty());
    assert_eq!(res.s3_bucket, "");
    assert_eq!(res.kms_key_id, None);
    assert_eq!(res.kms_key_arn, None);
    assert!(!res.ec2_key_import);
    assert_eq!(res.cloudformation_vpc_id, None);
    assert_eq!(res.cloudformation_asg_logical_id, None);
    assert!(!res.has_external_network());
}

#[test]
fn id_of_28_characters_is_accepted() {
    let spec = sample(&"a".repeat(28), "bucket");
    assert_eq!(spec.validate(), Ok(()));
}

#[test]
fn id_of_29_characters_is_rejected() {
    let spec = sample(&"a".repeat(29), "bucket");
    assert_eq!(spec.validate(), Err(ValidationError::IdTooLong));
}

#[test]
fn id_length_counts_characters() {
    let spec = sample(&"é".repeat(28), "bucket");
    assert_eq!(spec.validate(), Ok(()));
    let spec = sample(&"é".repeat(29), "bucket");
    assert_eq!(spec.validate(), Err(ValidationError::IdTooLong));
}

#[test]
fn empty_id_is_rejected() {
    let spec = sample("", "bucket");
    assert_eq!(spec.validate(), Err(ValidationError::EmptyId));
}

#[test]
fn empty_region_is_rejected() {
    let mut spec = sample("dev", "bucket");
    spec.aws_resources.region = String::new();
    assert_eq!(spec.validate(), Err(ValidationError::EmptyRegion));
}

#[test]
fn ten_ingress_ports_are_accepted_eleven_are_not() {
    let mut spec = sample("dev", "bucket");
    spec.aws_resources.user_defined_tcp_ingress_ports = (1..=10).collect();
    assert_eq!(spec.validate(), Ok(()));
    spec.aws_resources.user_defined_tcp_ingress_ports = (1..=11).collect();
    assert_eq!(spec.validate(), Err(ValidationError::TooManyIngressPorts));
}

#[test]
fn machine_count_is_bounded() {
    assert_eq!(MIN_MACHINES, 1);
    assert_eq!(MAX_MACHINES, 2);
    let mut spec = sample("dev", "bucket");
    spec.machine.machines = 0;
    assert_eq!(spec.validate(), Err(ValidationError::TooFewMachines));
    spec.machine.machines = 1;
    assert_eq!(spec.validate(), Ok(()));
    spec.machine.machines = 2;
    assert_eq!(spec.validate(), Ok(()));
    spec.machine.machines = 3;
    assert_eq!(spec.validate(), Err(ValidationError::TooManyMachines));
}

#[test]
fn delete_all_requires_auto_delete() {
    let mut spec = sample("dev", "bucket");
    spec.auto_delete_after_apply = false;
    spec.auto_delete_after_apply_delete_all = true;
    assert_eq!(spec.validate(), Err(ValidationError::DeleteAllRequiresAutoDelete));
    spec.auto_delete_after_apply_delete_all = false;
    assert_eq!(spec.validate(), Ok(()));
}

#[test]
fn image_wait_requires_init_wait() {
    let mut spec = sample("dev", "bucket");
    spec.wait_for_init_script_completion = false;
    spec.wait_for_image_create_completion = true;
    assert_eq!(spec.validate(), Err(ValidationError::ImageWaitRequiresInitWait));
}

#[test]
fn static_ip_plugin_requires_elastic_mode() {
    let mut spec = sample("dev", "bucket");
    spec.plugins = vec![Plugin::Other(String::from("imds")), Plugin::StaticIpProvisioner];
    assert!(spec.has_static_ip_provisioner());
    assert!(spec.is_elastic());
    assert_eq!(spec.validate(), Ok(()));
    spec.machine.ip_mode = String::from("ephemeral");
    assert!(!spec.is_elastic());
    assert_eq!(spec.validate(), Err(ValidationError::StaticIpRequiresElastic));
    spec.plugins = vec![Plugin::Other(String::from("imds"))];
    assert!(!spec.has_static_ip_provisioner());
    assert_eq!(spec.validate(), Ok(()));
}

#[test]
fn the_first_broken_rule_is_reported() {
    let mut spec = sample(&"a".repeat(29), "bucket");
    spec.aws_resources.region = String::new();
    spec.machine.machines = 0;
    assert_eq!(spec.validate(), Err(ValidationError::IdTooLong));
    spec.id = String::from("dev");
    assert_eq!(spec.validate(), Err(ValidationError::EmptyRegion));
    spec.aws_resources.region = String::from("us-west-2");
    assert_eq!(spec.validate(), Err(ValidationError::TooFewMachines));
}

#[test]
fn identities_match_field_by_field() {
    let a = Identity {
        account_id: String::from("1"),
        role_arn: String::from("arn:role"),
        user_id: String::from("u"),
    };
    let mut b = a.clone();
    assert!(a.matches(&b));
    b.role_arn = String::from("arn:other");
    assert!(!a.matches(&b));
}

#[test]
fn external_network_is_told_by_either_field() {
    let mut res = Resources::default();
    res.existing_vpc_security_group_id = Some(String::from("sg-1"));
    assert!(res.has_external_network());
    let mut res = Resources::default();
    res.existing_vpc_subnet_ids_for_asg = Some(vec![String::from("subnet-1")]);
    assert!(res.has_external_network());
}

#[test]
fn a_resource_is_skipped_absent_or_created() {
    let mut res = Resources::default();
    for r in [Resource::EncryptionKey, Resource::Role, Resource::Network, Resource::Fleet] {
        assert_eq!(res.resource_state(r), ResourceState::Absent);
    }
    res.kms_key_arn = Some(String::from("arn:key"));
    assert_eq!(res.resource_state(Resource::EncryptionKey), ResourceState::Created);
    res.cloudformation_ec2_instance_profile_arn = Some(String::from("arn:profile"));
    assert_eq!(res.resource_state(Resource::Role), ResourceState::Created);
    res.cloudformation_asg_logical_id = Some(String::from("asg"));
    assert_eq!(res.resource_state(Resource::Fleet), ResourceState::Created);
    res.cloudformation_vpc_security_group_id = Some(String::from("sg-1"));
    assert_eq!(res.resource_state(Resource::Network), ResourceState::Created);
    res.existing_vpc_subnet_ids_for_asg = Some(vec![String::from("subnet-1")]);
    assert_eq!(res.resource_state(Resource::Network), ResourceState::Skipped);
    assert_eq!(res.resource_state(Resource::Fleet), ResourceState::Created);
    let mut res = Resources::default();
    res.existing_vpc_security_group_id = Some(String::from("sg-9"));
    assert_eq!(res.resource_state(Resource::Network), ResourceState::Skipped);
}
