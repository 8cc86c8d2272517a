use machine_rs::action::{Pair, StackKind};
use machine_rs::artifacts::{
    asg_ubuntu_yaml, ec2_instance_role_yaml, template_of, template_path, vpc_yaml, NotText,
    ASG_UBUNTU_YAML_PATH,
};
use machine_rs::naming::{
    encryption_key_name_of, key_pair_name_of, scaling_group_name_of, StackName, StorageNamespace,
};
use machine_rs::paths::{
    get_init_script_path, get_release_info_file_path, get_ssh_commands_path,
    get_ssh_private_key_path, get_ssh_public_key_path, sibling_of,
};
use machine_rs::text::{copy_text, copy_texts, first_piece, join_commas};

#[test]
fn stack_names_hold_the_id_and_the_kind() {
    assert_eq!(StackName::Ec2InstanceRole(String::from("dev-1")).encode(), "dev-1-ec2-instance-role");
    assert_eq!(StackName::Vpc(String::from("dev-1")).encode(), "dev-1-vpc");
    assert_eq!(StackName::Asg(String::from("dev-1")).encode(), "dev-1-asg");
    assert_eq!(StackName::of(StackKind::Vpc, &String::from("x")), "x-vpc");
    assert_eq!(StackName::of(StackKind::Asg, &String::from("x")), "x-asg");
    assert_eq!(StackName::of(StackKind::Ec2InstanceRole, &String::from("x")), "x-ec2-instance-role");
}

#[test]
fn storage_keys_start_with_the_id() {
    assert_eq!(
        StorageNamespace::DevMachineConfigFile(String::from("dev-1")).encode(),
        "dev-1/dev-machine.config.yaml"
    );
    assert_eq!(
        StorageNamespace::Ec2AccessKeyCompressedEncrypted(String::from("dev-1")).encode(),
        "dev-1/ec2-access-key.zstd.seal_aes_256.encrypted"
    );
    assert_eq!(StorageNamespace::InitScript(String::from("dev-1")).encode(), "dev-1/init.bash");
    assert_eq!(StorageNamespace::InitScript(String::new()).encode(), "/init.bash");
}

#[test]
fn key_and_group_names_are_derived_from_the_id() {
    let id = String::from("dev-1");
    assert_eq!(key_pair_name_of(&id), "dev-1-ec2-key");
    assert_eq!(encryption_key_name_of(&id), "dev-1-cmk");
    assert_eq!(scaling_group_name_of(&id, "amd64"), "dev-1-amd64");
}

#[test]
fn local_files_stand_beside_the_document() {
    assert_eq!(get_ssh_private_key_path("/tmp/spec.yaml").unwrap(), "/tmp/spec-ec2-access.key");
    assert_eq!(get_ssh_public_key_path("/tmp/spec.yaml").unwrap(), "/tmp/spec-ec2-access.pub.pem");
    assert_eq!(get_ssh_commands_path("/tmp/spec.yaml").unwrap(), "/tmp/spec-ssh-commands.sh");
    assert_eq!(get_init_script_path("/tmp/spec.yaml").unwrap(), "/tmp/spec-init.bash");
    assert_eq!(get_release_info_file_path("/tmp/spec.yaml").unwrap(), "/tmp/spec-release-info");
    assert_eq!(get_init_script_path("a/b/c.d.yaml").unwrap(), "a/b/c.d-init.bash");
    assert_eq!(get_init_script_path("spec.yaml").unwrap(), "spec-init.bash");
    assert_eq!(sibling_of("/x/y.z", ".bak").unwrap(), "/x/y.bak");
}

#[test]
fn a_path_without_file_name_has_no_local_files() {
    assert_eq!(get_ssh_private_key_path(""), None);
    assert_eq!(get_ssh_private_key_path("/"), None);
    assert_eq!(get_init_script_path("/tmp/.."), None);
}

#[test]
fn templates_are_decoded_from_their_bytes() {
    let body = "Resources:\n  Vpc: {}\n";
    assert_eq!(vpc_yaml(body.as_bytes()), Ok(body.to_string()));
    assert_eq!(asg_ubuntu_yaml("é".as_bytes()), Ok(String::from("é")));
    assert_eq!(ec2_instance_role_yaml(b""), Ok(String::new()));
    assert_eq!(template_of(StackKind::Asg, b"abc"), Ok(String::from("abc")));
}

#[test]
fn a_template_that_is_not_text_is_refused() {
    let broken: [u8; 2] = [0xc3, 0x28];
    assert_eq!(vpc_yaml(&broken), Err(NotText { template: StackKind::Vpc }));
    assert_eq!(asg_ubuntu_yaml(&broken), Err(NotText { template: StackKind::Asg }));
    assert_eq!(
        ec2_instance_role_yaml(&[0xff]),
        Err(NotText { template: StackKind::Ec2InstanceRole })
    );
}

#[test]
fn each_template_has_its_path() {
    assert_eq!(template_path(StackKind::Asg), ASG_UBUNTU_YAML_PATH);
    assert_eq!(template_path(StackKind::Asg), "src/aws/cfn-templates/asg_ubuntu.yaml");
    assert_eq!(
        template_path(StackKind::Ec2InstanceRole),
        "src/aws/cfn-templates/ec2_instance_role.yaml"
    );
    assert_eq!(template_path(StackKind::Vpc), "src/aws/cfn-templates/vpc.yaml");
}

#[test]
fn texts_are_joined_with_commas() {
    assert_eq!(join_commas(&vec![]), "");
    assert_eq!(join_commas(&vec![String::from("a")]), "a");
    assert_eq!(join_commas(&vec![String::from("a"), String::from("b"), String::from("c")]), "a,b,c");
    assert_eq!(join_commas(&vec![String::new(), String::new()]), ",");
}

#[test]
fn the_first_piece_ends_before_the_separator() {
    assert_eq!(first_piece("amd64-gpu-g5-nvidia-a10g", '-'), "amd64");
    assert_eq!(first_piece("arm64", '-'), "arm64");
    assert_eq!(first_piece("-x", '-'), "");
    assert_eq!(first_piece("", '-'), "");
}

#[test]
fn copies_hold_the_same_text() {
    assert_eq!(copy_text("abc"), "abc");
    let v = vec![String::from("a"), String::from("b")];
    assert_eq!(copy_texts(&v), v);
}

#[test]
fn pairs_compare_by_key_and_value() {
    let p = Pair { key: String::from("k"), value: String::from("v") };
    assert_eq!(p.clone(), p);
}
