//! The batches of actions that begin each step.

use vstd::prelude::*;
use vstd::string::*;
use crate::action::{actions_view, Action, StackKind, StackTarget};
use crate::naming::{encryption_key_name_of, StorageNamespace};
use crate::orchestrator::{
    no_actions, push_action, text_of, Orchestrator, KEY_DELETION_DAYS, POLL_INTERVAL_SECS,
};
use crate::params::{
    build_fleet_parameters, build_network_parameters, build_role_parameters, build_stack_tags,
    fleet_create_wait_secs, fleet_delete_wait_secs, FleetInputs,
};
use crate::phase::{Mode, Phase};

verus! {

impl Orchestrator {
    /// The actions that begin a step before any resource is created.
    fn begin_setup(&self) -> (batch: Vec<Action>)
        requires
            self.phase.rank() <= 5,
        ensures
            forall|pick: usize| actions_view(batch@) == #[trigger] self.entry(pick),
    {
        let spec = &self.spec;
        let res = &spec.aws_resources;
        let mut batch = no_actions();
        match self.phase {
            Phase::Identity => {
                push_action(&mut batch, Action::FetchIdentity);
            },
            Phase::Image => {
                push_action(
                    &mut batch,
                    Action::ResolveImage {
                        ssm_parameter: spec.machine.image_id_ssm_parameter.clone(),
                    },
                );
            },
            Phase::Confirm => {
                push_action(&mut batch, Action::Confirm);
            },
            Phase::Storage => {
                push_action(&mut batch, Action::Pace { secs: 2 });
                push_action(&mut batch, Action::CreateBucket { bucket: res.s3_bucket.clone() });
                push_action(&mut batch, Action::Pace { secs: 2 });
                push_action(&mut batch, self.document_upload());
                push_action(
                    &mut batch,
                    Action::PutObject {
                        local_path: spec.upload_artifacts.init_bash_local_file_path.clone(),
                        bucket: res.s3_bucket.clone(),
                        key: StorageNamespace::InitScript(spec.id.clone()).encode(),
                    },
                );
            },
            Phase::Key => {
                push_action(&mut batch, Action::Pace { secs: 2 });
                push_action(&mut batch, Action::CreateKey { name: encryption_key_name_of(&spec.id) });
            },
            Phase::Credential => {
                push_action(&mut batch, Action::Pace { secs: 2 });
                if res.ec2_key_import {
                    push_action(
                        &mut batch,
                        Action::ImportKeyPair {
                            key_name: res.ec2_key_name.clone(),
                            public_key_path: text_of(&res.ssh_public_key_path),
                        },
                    );
                } else {
                    push_action(
                        &mut batch,
                        Action::CreateKeyPair {
                            key_name: res.ec2_key_name.clone(),
                            private_key_path: res.ssh_private_key_path.clone(),
                        },
                    );
                }
                push_action(
                    &mut batch,
                    Action::SealAndUpload {
                        private_key_path: res.ssh_private_key_path.clone(),
                        key_id: text_of(&res.kms_key_id),
                        aad_tag: spec.aad_tag.clone(),
                        bucket: res.s3_bucket.clone(),
                        key: StorageNamespace::Ec2AccessKeyCompressedEncrypted(
                            spec.id.clone(),
                        ).encode(),
                    },
                );
                push_action(&mut batch, Action::Persist);
                push_action(&mut batch, Action::Pace { secs: 1 });
                push_action(&mut batch, self.document_upload());
                push_action(&mut batch, Action::Persist);
            },
            _ => {},
        }
        batch
    }

    /// The actions that create a stack and wait for it.
    fn begin_stack(&self, pick: usize) -> (batch: Vec<Action>)
        requires
            6 <= self.phase.rank() <= 8,
        ensures
            actions_view(batch@) == self.entry(pick),
    {
        let spec = &self.spec;
        let res = &spec.aws_resources;
        let mut batch = no_actions();
        let tags = build_stack_tags(spec);
        push_action(&mut batch, Action::Pace { secs: 2 });
        match self.phase {
            Phase::Role => {
                let key_arn = text_of(&res.kms_key_arn);
                push_action(
                    &mut batch,
                    Action::CreateStack {
                        kind: StackKind::Ec2InstanceRole,
                        name: text_of(&res.cloudformation_ec2_instance_role),
                        tags,
                        parameters: build_role_parameters(spec, key_arn.as_str()),
                    },
                );
                push_action(&mut batch, Action::Pace { secs: 10 });
                push_action(
                    &mut batch,
                    Action::PollStack {
                        kind: StackKind::Ec2InstanceRole,
                        name: text_of(&res.cloudformation_ec2_instance_role),
                        target: StackTarget::CreateComplete,
                        timeout_secs: 500,
                        interval_secs: POLL_INTERVAL_SECS,
                    },
                );
            },
            Phase::Network => {
                push_action(
                    &mut batch,
                    Action::CreateStack {
                        kind: StackKind::Vpc,
                        name: text_of(&res.cloudformation_vpc),
                        tags,
                        parameters: build_network_parameters(spec),
                    },
                );
                push_action(&mut batch, Action::Pace { secs: 10 });
                push_action(
                    &mut batch,
                    Action::PollStack {
                        kind: StackKind::Vpc,
                        name: text_of(&res.cloudformation_vpc),
                        target: StackTarget::CreateComplete,
                        timeout_secs: 300,
                        interval_secs: POLL_INTERVAL_SECS,
                    },
                );
            },
            _ => {
                let inputs = FleetInputs {
                    key_arn: text_of(&res.kms_key_arn),
                    profile_arn: text_of(&res.cloudformation_ec2_instance_profile_arn),
                    subnet: self.subnet_at(pick),
                    security_group: self.security_group_text(),
                    fallback_image_parameter: text_of(
                        &self.platform.default_image_id_ssm_parameter,
                    ),
                };
                assert(inputs@ == self.fleet_inputs(pick));
                push_action(
                    &mut batch,
                    Action::CreateStack {
                        kind: StackKind::Asg,
                        name: text_of(&res.cloudformation_asg),
                        tags,
                        parameters: build_fleet_parameters(spec, &inputs),
                    },
                );
                push_action(&mut batch, Action::Pace { secs: 30 });
                push_action(
                    &mut batch,
                    Action::PollStack {
                        kind: StackKind::Asg,
                        name: text_of(&res.cloudformation_asg),
                        target: StackTarget::CreateComplete,
                        timeout_secs: fleet_create_wait_secs(spec.machine.machines),
                        interval_secs: POLL_INTERVAL_SECS,
                    },
                );
            },
        }
        batch
    }

    /// The actions that begin a step on the created fleet.
    fn begin_fleet(&self) -> (batch: Vec<Action>)
        requires
            9 <= self.phase.rank() <= 15,
        ensures
            forall|pick: usize| actions_view(batch@) == #[trigger] self.entry(pick),
    {
        let spec = &self.spec;
        let res = &spec.aws_resources;
        let mut batch = no_actions();
        match self.phase {
            Phase::Discover => {
                push_action(
                    &mut batch,
                    Action::ListFleet { group: text_of(&res.cloudformation_asg_logical_id) },
                );
            },
            Phase::Addresses => {
                push_action(&mut batch, Action::ListAddresses { id: spec.id.clone() });
            },
            Phase::Publish => {
                push_action(
                    &mut batch,
                    Action::ProtectKeyFile { path: res.ssh_private_key_path.clone() },
                );
                push_action(&mut batch, Action::PublishFleet { path: res.ssh_commands_path.clone() });
                push_action(&mut batch, Action::Persist);
                push_action(&mut batch, Action::Pace { secs: 1 });
                push_action(&mut batch, self.document_upload());
                push_action(&mut batch, Action::Pace { secs: 20 });
            },
            Phase::RemoteWait => {
                push_action(&mut batch, Action::RemoteTail { member: 0 });
            },
            Phase::Scrub => {
                push_action(&mut batch, Action::Pace { secs: 5 });
                push_action(&mut batch, Action::RemoteCleanup { member: 0, show_release: false });
            },
            Phase::CaptureImage => {
                let instance_id = if self.fleet.len() > 0 {
                    self.fleet[0].instance_id.clone()
                } else {
                    String::new()
                };
                push_action(
                    &mut batch,
                    Action::CreateImage { instance_id, name: spec.image_name_to_create.clone() },
                );
            },
            _ => {
                push_action(&mut batch, Action::Pace { secs: 30 });
                push_action(
                    &mut batch,
                    Action::PollImage {
                        image_id: self.image_id.clone(),
                        timeout_secs: 5000,
                        interval_secs: 60,
                    },
                );
            },
        }
        batch
    }

    /// The actions that begin a step of the teardown, or the scaling of the
    /// fleet.
    fn begin_teardown(&self) -> (batch: Vec<Action>)
        requires
            16 <= self.phase.rank() <= 25,
        ensures
            forall|pick: usize| actions_view(batch@) == #[trigger] self.entry(pick),
    {
        let spec = &self.spec;
        let res = &spec.aws_resources;
        let mut batch = no_actions();
        match self.phase {
            Phase::DropCredentials => {
                let compressed = res.ssh_private_key_path.clone().concat(".zstd");
                let sealed = compressed.clone().concat(".encrypted");
                push_action(&mut batch, Action::Pace { secs: 2 });
                push_action(
                    &mut batch,
                    Action::RemoveLocalFile { path: res.ssh_private_key_path.clone() },
                );
                push_action(&mut batch, Action::RemoveLocalFile { path: compressed });
                push_action(&mut batch, Action::RemoveLocalFile { path: sealed });
                push_action(&mut batch, Action::DeleteKeyPair { key_name: res.ec2_key_name.clone() });
            },
            Phase::DropKey => {
                push_action(&mut batch, Action::Pace { secs: 2 });
                push_action(
                    &mut batch,
                    Action::ScheduleKeyDeletion {
                        key_id: text_of(&res.kms_key_id),
                        pending_days: KEY_DELETION_DAYS,
                    },
                );
            },
            Phase::RequestRoleDelete => {
                push_action(&mut batch, Action::Pace { secs: 2 });
                push_action(
                    &mut batch,
                    Action::DeleteStack {
                        kind: StackKind::Ec2InstanceRole,
                        name: text_of(&res.cloudformation_ec2_instance_role),
                    },
                );
            },
            Phase::DropFleet => {
                push_action(&mut batch, Action::Pace { secs: 2 });
                push_action(
                    &mut batch,
                    Action::DeleteStack {
                        kind: StackKind::Asg,
                        name: text_of(&res.cloudformation_asg),
                    },
                );
                push_action(&mut batch, Action::Pace { secs: 2 });
                push_action(
                    &mut batch,
                    Action::PollStack {
                        kind: StackKind::Asg,
                        name: text_of(&res.cloudformation_asg),
                        target: StackTarget::DeleteComplete,
                        timeout_secs: fleet_delete_wait_secs(spec.machine.machines),
                        interval_secs: POLL_INTERVAL_SECS,
                    },
                );
            },
            Phase::DropNetwork => {
                push_action(&mut batch, Action::Pace { secs: 2 });
                push_action(
                    &mut batch,
                    Action::DeleteStack {
                        kind: StackKind::Vpc,
                        name: text_of(&res.cloudformation_vpc),
                    },
                );
                push_action(&mut batch, Action::Pace { secs: 10 });
                push_action(
                    &mut batch,
                    Action::PollStack {
                        kind: StackKind::Vpc,
                        name: text_of(&res.cloudformation_vpc),
                        target: StackTarget::DeleteComplete,
                        timeout_secs: 500,
                        interval_secs: POLL_INTERVAL_SECS,
                    },
                );
            },
            Phase::ConfirmRoleDelete => {
                push_action(&mut batch, Action::Pace { secs: 2 });
                push_action(
                    &mut batch,
                    Action::PollStack {
                        kind: StackKind::Ec2InstanceRole,
                        name: text_of(&res.cloudformation_ec2_instance_role),
                        target: StackTarget::DeleteComplete,
                        timeout_secs: 500,
                        interval_secs: POLL_INTERVAL_SECS,
                    },
                );
            },
            Phase::DropStorage => {
                push_action(&mut batch, Action::Pace { secs: 2 });
                push_action(&mut batch, Action::EmptyBucket { bucket: res.s3_bucket.clone() });
                push_action(&mut batch, Action::DeleteBucket { bucket: res.s3_bucket.clone() });
            },
            Phase::FindVolumes => {
                push_action(&mut batch, Action::ListOrphanVolumes { id: spec.id.clone() });
            },
            Phase::FindAddresses => {
                push_action(&mut batch, Action::ListAddresses { id: spec.id.clone() });
            },
            _ => {
                let capacity = match self.mode {
                    Mode::Resume => spec.machine.machines,
                    _ => 0,
                };
                push_action(
                    &mut batch,
                    Action::SetDesiredCapacity {
                        group: text_of(&res.cloudformation_asg_logical_id),
                        capacity,
                    },
                );
            },
        }
        batch
    }

    /// The actions that begin the current step. `pick` selects the subnet of
    /// the fleet among the choices.
    pub fn begin(&self, pick: usize) -> (batch: Vec<Action>)
        ensures
            actions_view(batch@) == self.entry(pick),
    {
        if self.phase.terminal() {
            no_actions()
        } else {
            match self.phase {
                Phase::Identity
                | Phase::Image
                | Phase::Confirm
                | Phase::Storage
                | Phase::Key
                | Phase::Credential => self.begin_setup(),
                Phase::Role | Phase::Network | Phase::Fleet => self.begin_stack(pick),
                Phase::Discover
                | Phase::Addresses
                | Phase::Publish
                | Phase::RemoteWait
                | Phase::Scrub
                | Phase::CaptureImage
                | Phase::AwaitImage => self.begin_fleet(),
                _ => self.begin_teardown(),
            }
        }
    }
}

} // verus!
