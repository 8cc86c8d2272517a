use machine_rs::action::{Action, Event, StableAddress, StackKind, StackTarget};
use machine_rs::deployment::{Identity, Machine, Resources, Spec, UploadArtifacts};
use machine_rs::orchestrator::Orchestrator;
use machine_rs::phase::{Failure, Mode, Phase};

fn created_document() -> Spec {
    let mut res = Resources::default();
    res.identity = Identity {
        account_id: String::from("123"),
        role_arn: String::from("arn:role"),
        user_id: String::from("user-1"),
    };
    res.s3_bucket = String::from("bucket");
    res.ec2_key_name = String::from("dev-1-ec2-key");
    res.ssh_private_key_path = String::from("/tmp/spec-ec2-access.key");
    res.kms_key_id = Some(String::from("key-1"));
    res.kms_key_arn = Some(String::from("arn:key-1"));
    res.cloudformation_ec2_instance_role = Some(String::from("dev-1-ec2-instance-role"));
    res.cloudformation_ec2_instance_profile_arn = Some(String::from("arn:profile"));
    res.cloudformation_vpc = Some(String::from("dev-1-vpc"));
    res.cloudformation_vpc_id = Some(String::from("vpc-1"));
    res.cloudformation_vpc_security_group_id = Some(String::from("sg-1"));
    res.cloudformation_vpc_public_subnet_ids = Some(vec![String::from("subnet-1")]);
    res.cloudformation_asg = Some(String::from("dev-1-asg"));
    res.cloudformation_asg_logical_id = Some(String::from("asg-logical-1"));
    Spec {
        id: String::from("dev-1"),
        aad_tag: String::from("tag"),
        ssh_key_email: None,
        unsafe_temporary_aws_secret_key_id: None,
        unsafe_temporary_aws_secret_access_key: None,
        aws_resources: res,
        machine: Machine {
            machines: 2,
            arch_type: String::from("amd64"),
            os_type: String::from("ubuntu20.04"),
            instance_types: vec![String::from("c6a.large")],
            instance_mode: String::from("on-demand"),
            ip_mode: String::from("ephemeral"),
            image_id: String::from("ami-1"),
            image_id_ssm_parameter: String::new(),
            image_volume_type: String::from("gp3"),
            image_volume_size_in_gb: 20,
            image_volume_iops: 3000,
            volume_type: String::from("gp3"),
            volume_size_in_gb: 300,
            volume_iops: 3000,
            volume_throughput: 500,
        },
        upload_artifacts: UploadArtifacts { init_bash_local_file_path: String::from("/tmp/spec-init.bash") },
        plugins: vec![],
        post_init_script: String::new(),
        wait_for_init_script_completion: false,
        image_name_to_create: String::new(),
        wait_for_image_create_completion: false,
        auto_delete_after_apply: false,
        auto_delete_after_apply_delete_all: false,
        spec_file_path: String::from("/tmp/spec.yaml"),
    }
}

fn orphan(alloc: &str) -> StableAddress {
    StableAddress {
        allocation_id: Some(alloc.to_string()),
        instance_id: None,
        public_ip: Some(String::from("9.9.9.9")),
    }
}

fn answer(batch: &[Action]) -> Event {
    match batch.last() {
        Some(Action::FetchIdentity) => Event::Caller(created_document().aws_resources.identity),
        Some(Action::Confirm) => Event::Answer(true),
        Some(Action::ListOrphanVolumes { .. }) => {
            Event::Volumes(vec![String::from("vol-1"), String::from("vol-2")])
        }
        Some(Action::ListAddresses { .. }) => Event::Addresses(vec![orphan("a-1")]),
        _ => Event::Completed,
    }
}

fn run_to_end(run: &mut Orchestrator, first: Vec<Action>) -> Vec<Action> {
    let mut trace = first.clone();
    let mut batch = first;
    let mut steps = 0;
    while !run.is_done() && !run.is_declined() && run.failure().is_none() {
        batch = run.advance_with(answer(&batch), 0);
        trace.extend(batch.iter().cloned());
        steps += 1;
        assert!(steps < 100);
    }
    trace
}

/// The calls of a trace that delete something or wait for a deletion.
fn delete_calls(trace: &[Action]) -> Vec<String> {
    trace
        .iter()
        .filter_map(|a| match a {
            Action::DeleteKeyPair { .. } => Some(String::from("key-pair")),
            Action::ScheduleKeyDeletion { .. } => Some(String::from("key")),
            Action::DeleteStack { kind, .. } => Some(format!("delete {:?}", kind)),
            Action::PollStack { kind, target: StackTarget::DeleteComplete, .. } => {
                Some(format!("confirm {:?}", kind))
            }
            Action::EmptyBucket { .. } => Some(String::from("empty bucket")),
            Action::DeleteBucket { .. } => Some(String::from("bucket")),
            Action::ListOrphanVolumes { .. } => Some(String::from("find volumes")),
            Action::DeleteVolume { volume_id } => Some(format!("volume {}", volume_id)),
            Action::ReleaseAddress { allocation_id } => Some(format!("address {}", allocation_id)),
            _ => None,
        })
        .collect()
}

#[test]
fn a_full_teardown_goes_in_order() {
    let (mut run, first) = Orchestrator::delete(created_document(), true, true);
    assert_eq!(run.mode, Mode::Delete);
    let trace = run_to_end(&mut run, first);
    assert!(run.is_done());
    assert_eq!(
        delete_calls(&trace),
        vec![
            "key-pair",
            "key",
            "delete Ec2InstanceRole",
            "delete Asg",
            "confirm Asg",
            "delete Vpc",
            "confirm Vpc",
            "confirm Ec2InstanceRole",
            "empty bucket",
            "bucket",
            "find volumes",
            "volume vol-1",
            "volume vol-2",
            "address a-1",
        ]
    );
    assert_eq!(run.spec, created_document());
}

#[test]
fn the_bucket_stays_unless_all_is_deleted() {
    let (mut run, first) = Orchestrator::delete(created_document(), false, true);
    let trace = run_to_end(&mut run, first);
    assert!(run.is_done());
    let calls = delete_calls(&trace);
    assert!(!calls.contains(&String::from("bucket")));
    assert!(!calls.contains(&String::from("empty bucket")));
    assert_eq!(&calls[calls.len() - 4..], ["find volumes", "volume vol-1", "volume vol-2", "address a-1"]);
}

#[test]
fn the_batches_of_a_teardown() {
    let (mut run, first) = Orchestrator::delete(created_document(), true, true);
    assert_eq!(first, vec![Action::FetchIdentity]);
    let batch = run.advance_with(answer(&first), 0);
    assert_eq!(
        batch,
        vec![
            Action::Pace { secs: 2 },
            Action::RemoveLocalFile { path: String::from("/tmp/spec-ec2-access.key") },
            Action::RemoveLocalFile { path: String::from("/tmp/spec-ec2-access.key.zstd") },
            Action::RemoveLocalFile { path: String::from("/tmp/spec-ec2-access.key.zstd.encrypted") },
            Action::DeleteKeyPair { key_name: String::from("dev-1-ec2-key") },
        ]
    );
    let batch = run.advance_with(Event::Completed, 0);
    assert_eq!(
        batch,
        vec![
            Action::Pace { secs: 2 },
            Action::ScheduleKeyDeletion { key_id: String::from("key-1"), pending_days: 7 },
        ]
    );
    let batch = run.advance_with(Event::Completed, 0);
    assert_eq!(
        batch,
        vec![
            Action::Pace { secs: 2 },
            Action::DeleteStack { kind: StackKind::Ec2InstanceRole, name: String::from("dev-1-ec2-instance-role") },
        ]
    );
    let batch = run.advance_with(Event::Completed, 0);
    assert_eq!(
        batch,
        vec![
            Action::Pace { secs: 2 },
            Action::DeleteStack { kind: StackKind::Asg, name: String::from("dev-1-asg") },
            Action::Pace { secs: 2 },
            Action::PollStack {
                kind: StackKind::Asg,
                name: String::from("dev-1-asg"),
                target: StackTarget::DeleteComplete,
                timeout_secs: 620,
                interval_secs: 30,
            },
        ]
    );
    let batch = run.advance_with(Event::Completed, 0);
    assert_eq!(
        batch,
        vec![
            Action::Pace { secs: 2 },
            Action::DeleteStack { kind: StackKind::Vpc, name: String::from("dev-1-vpc") },
            Action::Pace { secs: 10 },
            Action::PollStack {
                kind: StackKind::Vpc,
                name: String::from("dev-1-vpc"),
                target: StackTarget::DeleteComplete,
                timeout_secs: 500,
                interval_secs: 30,
            },
        ]
    );
    let batch = run.advance_with(Event::Completed, 0);
    assert_eq!(
        batch,
        vec![
            Action::Pace { secs: 2 },
            Action::PollStack {
                kind: StackKind::Ec2InstanceRole,
                name: String::from("dev-1-ec2-instance-role"),
                target: StackTarget::DeleteComplete,
                timeout_secs: 500,
                interval_secs: 30,
            },
        ]
    );
    let batch = run.advance_with(Event::Completed, 0);
    assert_eq!(
        batch,
        vec![
            Action::Pace { secs: 2 },
            Action::EmptyBucket { bucket: String::from("bucket") },
            Action::DeleteBucket { bucket: String::from("bucket") },
        ]
    );
    let batch = run.advance_with(Event::Completed, 0);
    assert_eq!(batch, vec![Action::ListOrphanVolumes { id: String::from("dev-1") }]);
    let batch = run.advance_with(Event::Volumes(vec![String::from("vol-1")]), 0);
    assert_eq!(
        batch,
        vec![
            Action::DeleteVolume { volume_id: String::from("vol-1") },
            Action::Pace { secs: 2 },
            Action::ListAddresses { id: String::from("dev-1") },
        ]
    );
    let batch = run.advance_with(Event::Addresses(vec![orphan("a-1"), orphan("a-2")]), 0);
    assert_eq!(
        batch,
        vec![
            Action::ReleaseAddress { allocation_id: String::from("a-1") },
            Action::Pace { secs: 2 },
            Action::ReleaseAddress { allocation_id: String::from("a-2") },
            Action::Pace { secs: 2 },
        ]
    );
    assert!(run.is_done());
}

#[test]
fn a_teardown_of_nothing_only_sweeps() {
    let mut spec = created_document();
    let identity = spec.aws_resources.identity.clone();
    spec.aws_resources = Resources::default();
    spec.aws_resources.identity = identity;
    let (mut run, first) = Orchestrator::delete(spec, false, true);
    let trace = run_to_end(&mut run, first);
    assert!(run.is_done());
    assert_eq!(
        delete_calls(&trace),
        vec!["key-pair", "find volumes", "volume vol-1", "volume vol-2", "address a-1"]
    );
}

#[test]
fn an_external_network_is_left_in_place() {
    let mut spec = created_document();
    spec.aws_resources.existing_vpc_subnet_ids_for_asg = Some(vec![String::from("subnet-mine")]);
    let (mut run, first) = Orchestrator::delete(spec, true, true);
    let trace = run_to_end(&mut run, first);
    assert!(run.is_done());
    let calls = delete_calls(&trace);
    assert!(!calls.contains(&String::from("delete Vpc")));
    assert!(!calls.contains(&String::from("confirm Vpc")));
    assert!(calls.contains(&String::from("delete Asg")));
}

#[test]
fn a_failed_delete_ends_the_teardown() {
    let (mut run, first) = Orchestrator::delete(created_document(), true, true);
    let mut batch = first;
    while run.phase != Phase::DropFleet {
        batch = run.advance_with(answer(&batch), 0);
    }
    let batch = run.advance_with(Event::Failed, 0);
    assert!(batch.is_empty());
    assert_eq!(run.failure(), Some(Failure::Provider));
}

#[test]
fn a_document_that_was_never_applied_is_not_torn_down() {
    let mut spec = created_document();
    spec.aws_resources.identity = Identity::default();
    let (mut run, first) = Orchestrator::delete(spec, true, true);
    let batch = run.advance_with(answer(&first), 0);
    assert!(batch.is_empty());
    assert_eq!(run.failure(), Some(Failure::UnknownIdentity));
}

#[test]
fn an_address_without_allocation_fails_the_sweep() {
    let (mut run, first) = Orchestrator::delete(created_document(), false, true);
    let mut batch = first;
    while run.phase != Phase::FindAddresses {
        batch = run.advance_with(answer(&batch), 0);
    }
    let mut broken = orphan("a-1");
    broken.allocation_id = None;
    let batch = run.advance_with(Event::Addresses(vec![orphan("a-0"), broken]), 0);
    assert!(batch.is_empty());
    assert_eq!(run.failure(), Some(Failure::MalformedAddress));
}

#[test]
fn an_apply_may_tear_down_when_it_is_done() {
    let mut spec = created_document();
    spec.auto_delete_after_apply = true;
    spec.auto_delete_after_apply_delete_all = true;
    let platform = machine_rs::orchestrator::Platform {
        default_image_id_ssm_parameter: None,
        default_user_name: Some(String::from("ubuntu")),
    };
    let (mut run, first) = Orchestrator::apply(spec, "/tmp/spec.yaml", platform, true).unwrap();
    let mut trace = first.clone();
    let mut batch = first;
    while !run.is_done() {
        let event = match batch.last() {
            Some(Action::ListFleet { .. }) => Event::Fleet(vec![]),
            _ => answer(&batch),
        };
        batch = run.advance_with(event, 0);
        trace.extend(batch.iter().cloned());
        assert!(run.failure().is_none());
    }
    let calls = delete_calls(&trace);
    assert_eq!(calls[0], "key-pair");
    assert_eq!(
        &calls[3..],
        [
            "delete Asg",
            "confirm Asg",
            "delete Vpc",
            "confirm Vpc",
            "confirm Ec2InstanceRole",
            "empty bucket",
            "bucket",
            "find volumes",
            "volume vol-1",
            "volume vol-2",
            "address a-1",
        ]
    );
}

#[test]
fn a_pause_scales_the_fleet_to_nothing() {
    let (mut run, first) = Orchestrator::pause(created_document(), false);
    assert_eq!(run.mode, Mode::Pause);
    let batch = run.advance_with(answer(&first), 0);
    assert_eq!(batch, vec![Action::Confirm]);
    let batch = run.advance_with(Event::Answer(true), 0);
    assert_eq!(
        batch,
        vec![Action::SetDesiredCapacity { group: String::from("asg-logical-1"), capacity: 0 }]
    );
    assert!(run.advance_with(Event::Completed, 0).is_empty());
    assert!(run.is_done());
}

#[test]
fn a_resume_scales_the_fleet_back() {
    let (mut run, first) = Orchestrator::resume(created_document(), true);
    assert_eq!(run.mode, Mode::Resume);
    let batch = run.advance_with(answer(&first), 0);
    assert_eq!(
        batch,
        vec![Action::SetDesiredCapacity { group: String::from("asg-logical-1"), capacity: 2 }]
    );
    run.advance_with(Event::Completed, 0);
    assert!(run.is_done());
}

#[test]
fn a_pause_without_fleet_fails() {
    let mut spec = created_document();
    spec.aws_resources.cloudformation_asg_logical_id = None;
    let (mut run, first) = Orchestrator::pause(spec, true);
    let batch = run.advance_with(answer(&first), 0);
    assert!(batch.is_empty());
    assert_eq!(run.failure(), Some(Failure::MissingFleet));
}

#[test]
fn a_stack_without_name_is_not_deleted() {
    let mut spec = created_document();
    spec.aws_resources.cloudformation_ec2_instance_role = None;
    let (mut run, first) = Orchestrator::delete(spec, true, true);
    let trace = run_to_end(&mut run, first);
    assert_eq!(run.failure(), Some(Failure::MissingStackName));
    assert_eq!(delete_calls(&trace), vec!["key-pair", "key"]);
}
