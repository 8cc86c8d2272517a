use machine_rs::deployment::{Plugin, Spec, ID_PREFIX};
use machine_rs::generate::{
    bucket_name_of, do_all_fit, ingress_range_of, is_listed, new_names, some_unless_empty,
    DefaultSpecOption, GenerationError, Surroundings,
};

fn options() -> DefaultSpecOption {
    DefaultSpecOption {
        log_level: String::from("info"),
        ssh_key_email: String::new(),
        unsafe_temporary_aws_secret_key_id: String::new(),
        unsafe_temporary_aws_secret_access_key: String::new(),
        ssh_ingress_ipv4_cidr: String::new(),
        user_defined_tcp_ingress_ports_ipv4_cidr: String::from("10.0.0.0/8"),
        user_defined_tcp_ingress_ports: vec![22, 443],
        arch_type: String::from("amd64"),
        os_type: String::from("ubuntu20.04"),
        aad_tag: String::from("my-aad-tag"),
        profile_name: String::from("default"),
        region: String::from("us-west-2"),
        instance_mode: String::from("on-demand"),
        instance_size: String::from("2xlarge"),
        instance_types: vec![],
        ip_mode: String::from("ephemeral"),
        ec2_key_import: false,
        image_id: String::new(),
        image_id_ssm_parameter: String::from("/param"),
        image_volume_type: String::from("gp3"),
        image_volume_size_in_gb: 20,
        image_volume_iops: 3000,
        existing_vpc_security_group_id: String::new(),
        existing_vpc_subnet_ids_for_asg: vec![],
        plugins: vec![String::from("imds")],
        post_init_script: String::from("echo DONE"),
        id_prefix: String::new(),
        volume_type: String::from("gp3"),
        volume_size_in_gb: 300,
        volume_iops: 3000,
        volume_throughput: 500,
        wait_for_init_script_completion: true,
        image_name_to_create: String::new(),
        wait_for_image_create_completion: false,
        auto_delete_after_apply: false,
        auto_delete_after_apply_delete_all: false,
        spec_file_path: String::from("/tmp/dev/spec.yaml"),
    }
}

fn surroundings() -> Surroundings {
    Surroundings {
        id: String::from("dev-202610-abcdef"),
        s3_bucket: String::from("dev-202610-host123-us-west-2"),
        public_ip: Some(String::from("8.8.4.4")),
        valid_instance_types: vec![],
        default_instance_types: Some(vec![String::from("c6a.2xlarge"), String::from("m6a.2xlarge")]),
        plugins: vec![Plugin::Other(String::from("imds")), Plugin::Other(String::from("post-init-script"))],
        resolved_image_id: String::from("ami-9"),
    }
}

#[test]
fn a_new_document_takes_its_values_from_the_options() {
    let spec = Spec::default(options(), surroundings()).unwrap();
    assert_eq!(spec.id, "dev-202610-abcdef");
    assert_eq!(spec.aad_tag, "my-aad-tag");
    assert_eq!(spec.ssh_key_email, None);
    assert_eq!(spec.unsafe_temporary_aws_secret_key_id, None);
    assert_eq!(spec.aws_resources.profile_name, Some(String::from("default")));
    assert_eq!(spec.aws_resources.region, "us-west-2");
    assert_eq!(spec.aws_resources.ssh_ingress_ipv4_cidr, "8.8.4.4/32");
    assert_eq!(spec.aws_resources.user_defined_tcp_ingress_ports_ipv4_cidr, "10.0.0.0/8");
    assert_eq!(spec.aws_resources.user_defined_tcp_ingress_ports, vec![22, 443]);
    assert_eq!(spec.aws_resources.s3_bucket, "dev-202610-host123-us-west-2");
    assert_eq!(spec.aws_resources.ec2_key_name, "dev-202610-abcdef-ec2-key");
    assert_eq!(spec.aws_resources.ssh_private_key_path, "/tmp/dev/spec-ec2-access.key");
    assert_eq!(spec.aws_resources.ssh_public_key_path, None);
    assert_eq!(spec.aws_resources.ssh_commands_path, "/tmp/dev/spec-ssh-commands.sh");
    assert_eq!(spec.aws_resources.release_info_file_path, "/tmp/dev/spec-release-info");
    assert_eq!(spec.aws_resources.existing_vpc_security_group_id, None);
    assert_eq!(spec.aws_resources.existing_vpc_subnet_ids_for_asg, None);
    assert_eq!(spec.aws_resources.kms_key_id, None);
    assert_eq!(spec.aws_resources.cloudformation_asg_logical_id, None);
    assert_eq!(spec.aws_resources.identity.user_id, "");
    assert_eq!(spec.machine.machines, 1);
    assert_eq!(spec.machine.arch_type, "amd64");
    assert_eq!(spec.machine.instance_types, vec!["c6a.2xlarge", "m6a.2xlarge"]);
    assert_eq!(spec.machine.image_id, "ami-9");
    assert_eq!(spec.machine.image_id_ssm_parameter, "/param");
    assert_eq!(spec.machine.volume_size_in_gb, 300);
    assert_eq!(spec.upload_artifacts.init_bash_local_file_path, "/tmp/dev/spec-init.bash");
    assert_eq!(spec.plugins, surroundings().plugins);
    assert_eq!(spec.post_init_script, "echo DONE");
    assert!(spec.wait_for_init_script_completion);
    assert_eq!(spec.spec_file_path, "/tmp/dev/spec.yaml");
    assert_eq!(spec.validate(), Ok(()));
}

#[test]
fn given_values_win_over_the_surroundings() {
    let mut opts = options();
    opts.ssh_ingress_ipv4_cidr = String::from("1.2.3.4/32");
    opts.instance_types = vec![String::from("t3.large")];
    opts.image_id = String::from("ami-1");
    opts.ec2_key_import = true;
    opts.ssh_key_email = String::from("a@b.c");
    opts.existing_vpc_security_group_id = String::from("sg-1");
    opts.existing_vpc_subnet_ids_for_asg = vec![String::from("subnet-1")];
    let spec = Spec::default(opts, surroundings()).unwrap();
    assert_eq!(spec.aws_resources.ssh_ingress_ipv4_cidr, "1.2.3.4/32");
    assert_eq!(spec.machine.instance_types, vec!["t3.large"]);
    assert_eq!(spec.machine.image_id, "ami-1");
    assert_eq!(
        spec.aws_resources.ssh_public_key_path,
        Some(String::from("/tmp/dev/spec-ec2-access.pub.pem"))
    );
    assert_eq!(spec.ssh_key_email, Some(String::from("a@b.c")));
    assert_eq!(spec.aws_resources.existing_vpc_security_group_id, Some(String::from("sg-1")));
    assert_eq!(
        spec.aws_resources.existing_vpc_subnet_ids_for_asg,
        Some(vec![String::from("subnet-1")])
    );
    assert!(spec.aws_resources.has_external_network());
}

#[test]
fn without_public_address_ingress_is_open() {
    let mut around = surroundings();
    around.public_ip = None;
    let spec = Spec::default(options(), around).unwrap();
    assert_eq!(spec.aws_resources.ssh_ingress_ipv4_cidr, "0.0.0.0/0");
}

#[test]
fn without_parameter_the_image_stays_empty() {
    let mut opts = options();
    opts.image_id_ssm_parameter = String::new();
    let spec = Spec::default(opts, surroundings()).unwrap();
    assert_eq!(spec.machine.image_id, "");
}

#[test]
fn a_small_image_volume_is_refused() {
    let mut opts = options();
    opts.image_volume_size_in_gb = 19;
    assert_eq!(Spec::default(opts, surroundings()), Err(GenerationError::ImageVolumeTooSmall));
    let mut opts = options();
    opts.image_volume_size_in_gb = 1;
    assert_eq!(Spec::default(opts, surroundings()), Err(GenerationError::ImageVolumeTooSmall));
    let mut opts = options();
    opts.image_volume_size_in_gb = 0;
    assert!(Spec::default(opts, surroundings()).is_ok());
}

#[test]
fn too_many_iops_for_the_size_are_refused() {
    let mut opts = options();
    opts.image_volume_type = String::from("io1");
    opts.image_volume_size_in_gb = 20;
    opts.image_volume_iops = 1000;
    assert!(Spec::default(opts.clone(), surroundings()).is_ok());
    opts.image_volume_iops = 1001;
    assert_eq!(Spec::default(opts.clone(), surroundings()), Err(GenerationError::ImageVolumeIopsTooHigh));
    opts.image_volume_type = String::from("gp3");
    assert!(Spec::default(opts.clone(), surroundings()).is_ok());
    opts.image_volume_type = String::from("io2");
    opts.image_volume_size_in_gb = u32::MAX;
    opts.image_volume_iops = u32::MAX;
    assert!(Spec::default(opts, surroundings()).is_ok());
}

#[test]
fn unknown_default_instance_types_are_refused() {
    let mut around = surroundings();
    around.default_instance_types = None;
    assert_eq!(Spec::default(options(), around), Err(GenerationError::NoInstanceTypes));
}

#[test]
fn an_instance_type_that_does_not_fit_is_refused() {
    let mut around = surroundings();
    around.valid_instance_types = vec![String::from("g5.xlarge"), String::from("g5.2xlarge")];
    assert_eq!(Spec::default(options(), around.clone()), Err(GenerationError::UnsupportedInstanceType));
    let mut opts = options();
    opts.instance_types = vec![String::from("g5.2xlarge")];
    assert!(Spec::default(opts, around).is_ok());
}

#[test]
fn a_document_path_without_file_name_is_refused() {
    let mut opts = options();
    opts.spec_file_path = String::from("/");
    assert_eq!(Spec::default(opts, surroundings()), Err(GenerationError::InvalidSpecFilePath));
}

#[test]
fn a_bucket_name_joins_its_parts() {
    assert_eq!(bucket_name_of("dev", "202610", "abc1234", "us-east-1"), "dev-202610-abc1234-us-east-1");
    assert_eq!(bucket_name_of("", "", "", ""), "---");
}

#[test]
fn new_names_hold_prefix_and_region() {
    let (id, bucket) = new_names("", "us-east-1");
    assert_eq!(ID_PREFIX, "dev");
    assert!(id.starts_with("dev-"));
    assert!(bucket.starts_with("dev-"));
    assert!(bucket.ends_with("-us-east-1"));
    assert_eq!(bucket.matches('-').count(), 5);
    let parts: Vec<&str> = bucket.split('-').collect();
    assert!(parts[1].len() <= 6);
    assert!(parts[1].chars().all(|c| c.is_ascii_digit()));
    assert!(!parts[2].is_empty() && parts[2].len() <= 7);
    let (id, bucket) = new_names("team", "eu-west-3");
    assert!(id.starts_with("team-"));
    assert!(bucket.starts_with("team-"));
    assert!(bucket.ends_with("-eu-west-3"));
}

#[test]
fn helpers_of_generation() {
    assert_eq!(some_unless_empty(&String::new()), None);
    assert_eq!(some_unless_empty(&String::from("x")), Some(String::from("x")));
    assert_eq!(ingress_range_of(&String::from("1.1.1.1/8"), &None), "1.1.1.1/8");
    assert_eq!(ingress_range_of(&String::new(), &Some(String::from("2.2.2.2"))), "2.2.2.2/32");
    assert_eq!(ingress_range_of(&String::new(), &None), "0.0.0.0/0");
    let list = vec![String::from("a"), String::from("b")];
    assert!(is_listed(&list, "b"));
    assert!(!is_listed(&list, "c"));
    assert!(do_all_fit(&list, &vec![]));
    assert!(do_all_fit(&list, &vec![String::from("b"), String::from("a"), String::from("z")]));
    assert!(!do_all_fit(&list, &vec![String::from("a")]));
    assert!(do_all_fit(&vec![], &vec![String::from("a")]));
}
