//! The orchestrator of a run: it decides, step by step, what is created or
//! deleted, and records what was created in the document.
//!
//! The orchestrator performs nothing itself. It hands out a batch of actions;
//! the caller performs them in order and hands back the outcome of the last
//! one as an event, or `Event::Failed` as soon as one fails that is not best
//! effort. A batch that holds `Persist` asks for the document, as the
//! orchestrator holds it at that moment, to be written before the actions
//! that follow: a run that dies can be taken up from what was written.
//!
//! One run at a time is assumed for a deployment. Nothing here keeps two
//! operators from applying the same document at once: no lock is taken and
//! no lease is held on the document.

use vstd::prelude::*;
use vstd::string::*;
use crate::action::{
    actions_view, Action, ActionView, Droplet, StableAddress, StackKind, StackTarget,
};
use crate::deployment::Spec;
use crate::fleet::FleetMember;
use crate::naming::{
    config_file_key, encryption_key_name, init_script_key, sealed_key_key, StorageNamespace,
};
use crate::params::{
    fleet_create_wait, fleet_delete_wait, fleet_parameters, network_parameters, role_parameters,
    stack_tags, FleetInputsView,
};
use crate::phase::{Failure, Mode, Phase, LAST_RANK};
use crate::poller::Poller;

verus! {

/// Checks of the fleet before discovery gives up and goes on with what it
/// found: ten, half a minute apart.
pub const DISCOVERY_TIMEOUT_SECS: u64 = 270;

/// Time between two checks of the fleet, of the stable addresses, or of a
/// stack.
pub const POLL_INTERVAL_SECS: u64 = 30;

/// Time between two looks at the init log of a machine.
pub const REMOTE_INTERVAL_SECS: u64 = 40;

/// Days before a scheduled key deletion takes effect.
pub const KEY_DELETION_DAYS: u32 = 7;

/// What is known of the platform of the machines.
#[derive(Clone, Debug, PartialEq, Eq)]
pub struct Platform {
    /// The managed parameter that names the default image of the
    /// architecture and operating system, if one is known.
    pub default_image_id_ssm_parameter: Option<String>,
    /// The user of the operating system, if one is known.
    pub default_user_name: Option<String>,
}

/// The state of a run.
#[derive(Clone, Debug, PartialEq, Eq)]
pub struct Orchestrator {
    /// The document, with everything recorded so far.
    pub spec: Spec,
    pub mode: Mode,
    /// The step whose outcome is awaited.
    pub phase: Phase,
    pub platform: Platform,
    pub skip_prompt: bool,
    /// Whether a teardown also removes the bucket.
    pub delete_all: bool,
    /// The caller is not the one that the document names. The run goes on:
    /// this is only for a warning.
    pub identity_differs: bool,
    /// The wait for the discovery of the fleet.
    pub poller: Poller,
    /// The fleet member that `RemoteWait` or `Scrub` works on.
    pub cursor: usize,
    /// The machines as they were listed last.
    pub droplets: Vec<Droplet>,
    /// The stable addresses as they were listed last.
    pub addresses: Vec<StableAddress>,
    /// The machines with their effective addresses, once published.
    pub fleet: Vec<FleetMember>,
    /// The image that was created, if any.
    pub image_id: String,
}

/// A text as an empty one where it is missing.
pub open spec fn text_or_empty(s: Option<String>) -> Seq<char> {
    match s {
        Some(t) => t@,
        None => Seq::empty(),
    }
}

impl Orchestrator {
    /// The run tears down: it is a delete, or an apply that deletes when it
    /// is done.
    pub open spec fn tears_down(self) -> bool {
        self.mode == Mode::Delete || (self.mode == Mode::Apply && self.spec.auto_delete_after_apply)
    }

    /// The teardown also removes the bucket.
    pub open spec fn wipes_storage(self) -> bool {
        if self.mode == Mode::Delete {
            self.delete_all
        } else {
            self.spec.auto_delete_after_apply_delete_all
        }
    }

    /// The step is taken in the current state: a step for which this does
    /// not hold is skipped.
    pub open spec fn applies(self, phase: Phase) -> bool {
        let spec = self.spec;
        let res = spec.aws_resources;
        let applying = self.mode == Mode::Apply;
        match phase {
            Phase::Identity => true,
            Phase::Image => applying && spec.machine.image_id@.len() == 0
                && spec.machine.image_id_ssm_parameter@.len() > 0,
            Phase::Confirm => !self.skip_prompt,
            Phase::Storage => applying,
            Phase::Key => applying && res.kms_key_id is None && res.kms_key_arn is None,
            Phase::Credential => applying,
            Phase::Role => applying && res.cloudformation_ec2_instance_profile_arn is None,
            Phase::Network => applying && res.cloudformation_vpc_id is None
                && res.existing_vpc_security_group_id is None
                && res.existing_vpc_subnet_ids_for_asg is None
                && res.cloudformation_vpc_security_group_id is None
                && res.cloudformation_vpc_public_subnet_ids is None,
            Phase::Fleet => applying && res.cloudformation_asg_logical_id is None,
            Phase::Discover => applying,
            Phase::Addresses => applying && spec.wants_elastic_ip(),
            Phase::Publish => applying,
            Phase::RemoteWait => applying && spec.wait_for_init_script_completion
                && self.droplets@.len() > 0,
            Phase::Scrub => applying && spec.image_name_to_create@.len() > 0 && self.droplets@.len()
                > 0,
            Phase::CaptureImage => applying && spec.image_name_to_create@.len() > 0,
            Phase::AwaitImage => applying && spec.image_name_to_create@.len() > 0
                && spec.wait_for_image_create_completion,
            Phase::DropCredentials => self.tears_down(),
            Phase::DropKey => self.tears_down() && res.kms_key_id is Some && res.kms_key_arn
                is Some,
            Phase::RequestRoleDelete => self.tears_down()
                && res.cloudformation_ec2_instance_profile_arn is Some,
            Phase::DropFleet => self.tears_down() && spec.machine.machines > 0
                && res.cloudformation_asg_logical_id is Some,
            Phase::DropNetwork => self.tears_down() && res.existing_vpc_security_group_id is None
                && res.existing_vpc_subnet_ids_for_asg is None && res.cloudformation_vpc_id
                is Some && res.cloudformation_vpc_security_group_id is Some
                && res.cloudformation_vpc_public_subnet_ids is Some,
            Phase::ConfirmRoleDelete => self.tears_down()
                && res.cloudformation_ec2_instance_profile_arn is Some,
            Phase::DropStorage => self.tears_down() && self.wipes_storage(),
            Phase::FindVolumes => self.tears_down(),
            Phase::FindAddresses => self.tears_down(),
            Phase::Scale => self.mode == Mode::Pause || self.mode == Mode::Resume,
            Phase::Done => true,
            Phase::Declined => true,
            Phase::Failed(_) => true,
        }
    }

    /// The first step after `from` that is taken in the current state.
    pub open spec fn next_applicable(self, from: Phase) -> Phase
        decreases LAST_RANK - from.rank(),
    {
        let n = from.successor();
        if from.is_terminal() || self.applies(n) {
            n
        } else {
            self.next_applicable(n)
        }
    }

    /// The subnets among which the one of the fleet is picked: those
    /// supplied from outside, else those of the network stack.
    pub open spec fn subnet_choices(self) -> Seq<Seq<char>> {
        let res = self.spec.aws_resources;
        match res.existing_vpc_subnet_ids_for_asg {
            Some(subnets) => subnets.deep_view(),
            None => match res.cloudformation_vpc_public_subnet_ids {
                Some(subnets) => subnets.deep_view(),
                None => Seq::empty(),
            },
        }
    }

    /// The security group of the fleet: the one supplied from outside, else
    /// the one of the network stack.
    pub open spec fn security_group(self) -> Option<Seq<char>> {
        let res = self.spec.aws_resources;
        match res.existing_vpc_security_group_id {
            Some(group) => Some(group@),
            None => res.cloudformation_vpc_security_group_id.deep_view(),
        }
    }

    /// What keeps the step from being taken, if anything: the document
    /// lacks what the step needs.
    pub open spec fn obstacle(self, phase: Phase) -> Option<Failure> {
        let spec = self.spec;
        let res = spec.aws_resources;
        match phase {
            Phase::Credential => if res.kms_key_id is None {
                Some(Failure::MissingEncryptionKey)
            } else if res.ec2_key_import && res.ssh_public_key_path is None {
                Some(Failure::MissingPublicKey)
            } else {
                None
            },
            Phase::Role => if res.kms_key_arn is None {
                Some(Failure::MissingEncryptionKey)
            } else if res.cloudformation_ec2_instance_role is None {
                Some(Failure::MissingStackName)
            } else {
                None
            },
            Phase::Network => if res.cloudformation_vpc is None {
                Some(Failure::MissingStackName)
            } else {
                None
            },
            Phase::Fleet => if res.kms_key_arn is None {
                Some(Failure::MissingEncryptionKey)
            } else if res.cloudformation_ec2_instance_profile_arn is None {
                Some(Failure::MissingProfile)
            } else if res.cloudformation_asg is None {
                Some(Failure::MissingStackName)
            } else if self.security_group() is None || self.subnet_choices().len() == 0 {
                Some(Failure::MissingNetwork)
            } else if spec.machine.image_id@.len() == 0
                && self.platform.default_image_id_ssm_parameter is None {
                Some(Failure::MissingImageParameter)
            } else {
                None
            },
            Phase::Discover => if res.cloudformation_asg_logical_id is None {
                Some(Failure::MissingFleet)
            } else {
                None
            },
            Phase::Publish => if self.platform.default_user_name is None {
                Some(Failure::MissingUserName)
            } else if !crate::fleet::addresses_complete(self.addresses@) {
                Some(Failure::MalformedAddress)
            } else {
                None
            },
            Phase::RequestRoleDelete | Phase::ConfirmRoleDelete => if res.cloudformation_ec2_instance_role is None {
                Some(Failure::MissingStackName)
            } else {
                None
            },
            Phase::DropFleet => if res.cloudformation_asg is None {
                Some(Failure::MissingStackName)
            } else {
                None
            },
            Phase::DropNetwork => if res.cloudformation_vpc is None {
                Some(Failure::MissingStackName)
            } else {
                None
            },
            Phase::Scale => if res.cloudformation_asg_logical_id is None {
                Some(Failure::MissingFleet)
            } else {
                None
            },
            _ => None,
        }
    }

    /// The state is one that a run comes to from its first step: the step
    /// whose outcome is awaited is one that is taken, the document holds what
    /// the step needs, and a step that works on the fleet works on one of its
    /// members.
    pub open spec fn is_consistent(self) -> bool {
        &&& !self.phase.is_terminal() ==> self.applies(self.phase) && self.obstacle(self.phase)
            is None
        &&& self.phase == Phase::RemoteWait || self.phase == Phase::Scrub ==> self.cursor
            < self.droplets@.len()
        &&& 11 <= self.phase.rank() <= 15 ==> self.fleet@.len() == self.droplets@.len()
    }

    /// Where a run lands when it leaves the step `from`: at the next step
    /// that is taken, or in a failure where the document lacks what that
    /// step needs.
    pub open spec fn landing(self, from: Phase) -> Phase {
        let next = self.next_applicable(from);
        match self.obstacle(next) {
            Some(failure) => Phase::Failed(failure),
            None => next,
        }
    }

    /// The upload of the document to shared storage.
    pub open spec fn upload_document(self) -> ActionView {
        ActionView::PutObject {
            local_path: self.spec.spec_file_path@,
            bucket: self.spec.aws_resources.s3_bucket@,
            key: config_file_key(self.spec.id@),
        }
    }

    /// What the fleet stack needs beside the document, with the subnet
    /// that `pick` selects.
    pub open spec fn fleet_inputs(self, pick: usize) -> FleetInputsView {
        let res = self.spec.aws_resources;
        FleetInputsView {
            key_arn: text_or_empty(res.kms_key_arn),
            profile_arn: text_or_empty(res.cloudformation_ec2_instance_profile_arn),
            subnet: if self.subnet_choices().len() > 0 {
                self.subnet_choices()[pick as int % self.subnet_choices().len() as int]
            } else {
                Seq::empty()
            },
            security_group: match self.security_group() {
                Some(group) => group,
                None => Seq::empty(),
            },
            fallback_image_parameter: text_or_empty(self.platform.default_image_id_ssm_parameter),
        }
    }

    /// The number of machines that `Scale` asks for.
    pub open spec fn scale_target(self) -> u32 {
        if self.mode == Mode::Resume {
            self.spec.machine.machines
        } else {
            0
        }
    }

    /// The instance whose image is taken: the first machine of the fleet.
    pub open spec fn image_source(self) -> Seq<char> {
        if self.fleet@.len() > 0 {
            self.fleet@[0].instance_id@
        } else {
            Seq::empty()
        }
    }

    /// The actions that begin the current step.
    pub open spec fn entry(self, pick: usize) -> Seq<ActionView> {
        let spec = self.spec;
        let res = spec.aws_resources;
        let id = spec.id@;
        let tags = stack_tags(res.identity.user_id@);
        let none = Seq::<ActionView>::empty();
        match self.phase {
            Phase::Identity => none.push(ActionView::FetchIdentity),
            Phase::Image => none.push(
                ActionView::ResolveImage { ssm_parameter: spec.machine.image_id_ssm_parameter@ },
            ),
            Phase::Confirm => none.push(ActionView::Confirm),
            Phase::Storage => none.push(ActionView::Pace { secs: 2 }).push(
                ActionView::CreateBucket { bucket: res.s3_bucket@ },
            ).push(ActionView::Pace { secs: 2 }).push(self.upload_document()).push(
                ActionView::PutObject {
                    local_path: spec.upload_artifacts.init_bash_local_file_path@,
                    bucket: res.s3_bucket@,
                    key: init_script_key(id),
                },
            ),
            Phase::Key => none.push(ActionView::Pace { secs: 2 }).push(
                ActionView::CreateKey { name: encryption_key_name(id) },
            ),
            Phase::Credential => none.push(ActionView::Pace { secs: 2 }).push(
                if res.ec2_key_import {
                    ActionView::ImportKeyPair {
                        key_name: res.ec2_key_name@,
                        public_key_path: text_or_empty(res.ssh_public_key_path),
                    }
                } else {
                    ActionView::CreateKeyPair {
                        key_name: res.ec2_key_name@,
                        private_key_path: res.ssh_private_key_path@,
                    }
                },
            ).push(
                ActionView::SealAndUpload {
                    private_key_path: res.ssh_private_key_path@,
                    key_id: text_or_empty(res.kms_key_id),
                    aad_tag: spec.aad_tag@,
                    bucket: res.s3_bucket@,
                    key: sealed_key_key(id),
                },
            ).push(ActionView::Persist).push(ActionView::Pace { secs: 1 }).push(
                self.upload_document(),
            ).push(ActionView::Persist),
            Phase::Role => none.push(ActionView::Pace { secs: 2 }).push(
                ActionView::CreateStack {
                    kind: StackKind::Ec2InstanceRole,
                    name: text_or_empty(res.cloudformation_ec2_instance_role),
                    tags,
                    parameters: role_parameters(spec, text_or_empty(res.kms_key_arn)),
                },
            ).push(ActionView::Pace { secs: 10 }).push(
                ActionView::PollStack {
                    kind: StackKind::Ec2InstanceRole,
                    name: text_or_empty(res.cloudformation_ec2_instance_role),
                    target: StackTarget::CreateComplete,
                    timeout_secs: 500,
                    interval_secs: POLL_INTERVAL_SECS,
                },
            ),
            Phase::Network => none.push(ActionView::Pace { secs: 2 }).push(
                ActionView::CreateStack {
                    kind: StackKind::Vpc,
                    name: text_or_empty(res.cloudformation_vpc),
                    tags,
                    parameters: network_parameters(spec),
                },
            ).push(ActionView::Pace { secs: 10 }).push(
                ActionView::PollStack {
                    kind: StackKind::Vpc,
                    name: text_or_empty(res.cloudformation_vpc),
                    target: StackTarget::CreateComplete,
                    timeout_secs: 300,
                    interval_secs: POLL_INTERVAL_SECS,
                },
            ),
            Phase::Fleet => none.push(ActionView::Pace { secs: 2 }).push(
                ActionView::CreateStack {
                    kind: StackKind::Asg,
                    name: text_or_empty(res.cloudformation_asg),
                    tags,
                    parameters: fleet_parameters(spec, self.fleet_inputs(pick)),
                },
            ).push(ActionView::Pace { secs: 30 }).push(
                ActionView::PollStack {
                    kind: StackKind::Asg,
                    name: text_or_empty(res.cloudformation_asg),
                    target: StackTarget::CreateComplete,
                    timeout_secs: fleet_create_wait(spec.machine.machines),
                    interval_secs: POLL_INTERVAL_SECS,
                },
            ),
            Phase::Discover => none.push(
                ActionView::ListFleet { group: text_or_empty(res.cloudformation_asg_logical_id) },
            ),
            Phase::Addresses => none.push(ActionView::ListAddresses { id }),
            Phase::Publish => none.push(
                ActionView::ProtectKeyFile { path: res.ssh_private_key_path@ },
            ).push(ActionView::PublishFleet { path: res.ssh_commands_path@ }).push(
                ActionView::Persist,
            ).push(ActionView::Pace { secs: 1 }).push(self.upload_document()).push(
                ActionView::Pace { secs: 20 },
            ),
            Phase::RemoteWait => none.push(ActionView::RemoteTail { member: 0 }),
            Phase::Scrub => none.push(ActionView::Pace { secs: 5 }).push(
                ActionView::RemoteCleanup { member: 0, show_release: false },
            ),
            Phase::CaptureImage => none.push(
                ActionView::CreateImage {
                    instance_id: self.image_source(),
                    name: spec.image_name_to_create@,
                },
            ),
            Phase::AwaitImage => none.push(ActionView::Pace { secs: 30 }).push(
                ActionView::PollImage {
                    image_id: self.image_id@,
                    timeout_secs: 5000,
                    interval_secs: 60,
                },
            ),
            Phase::DropCredentials => none.push(ActionView::Pace { secs: 2 }).push(
                ActionView::RemoveLocalFile { path: res.ssh_private_key_path@ },
            ).push(ActionView::RemoveLocalFile { path: res.ssh_private_key_path@ + ".zstd"@ }).push(
                ActionView::RemoveLocalFile {
                    path: res.ssh_private_key_path@ + ".zstd"@ + ".encrypted"@,
                },
            ).push(ActionView::DeleteKeyPair { key_name: res.ec2_key_name@ }),
            Phase::DropKey => none.push(ActionView::Pace { secs: 2 }).push(
                ActionView::ScheduleKeyDeletion {
                    key_id: text_or_empty(res.kms_key_id),
                    pending_days: KEY_DELETION_DAYS,
                },
            ),
            Phase::RequestRoleDelete => none.push(ActionView::Pace { secs: 2 }).push(
                ActionView::DeleteStack {
                    kind: StackKind::Ec2InstanceRole,
                    name: text_or_empty(res.cloudformation_ec2_instance_role),
                },
            ),
            Phase::DropFleet => none.push(ActionView::Pace { secs: 2 }).push(
                ActionView::DeleteStack {
                    kind: StackKind::Asg,
                    name: text_or_empty(res.cloudformation_asg),
                },
            ).push(ActionView::Pace { secs: 2 }).push(
                ActionView::PollStack {
                    kind: StackKind::Asg,
                    name: text_or_empty(res.cloudformation_asg),
                    target: StackTarget::DeleteComplete,
                    timeout_secs: fleet_delete_wait(spec.machine.machines),
                    interval_secs: POLL_INTERVAL_SECS,
                },
            ),
            Phase::DropNetwork => none.push(ActionView::Pace { secs: 2 }).push(
                ActionView::DeleteStack {
                    kind: StackKind::Vpc,
                    name: text_or_empty(res.cloudformation_vpc),
                },
            ).push(ActionView::Pace { secs: 10 }).push(
                ActionView::PollStack {
                    kind: StackKind::Vpc,
                    name: text_or_empty(res.cloudformation_vpc),
                    target: StackTarget::DeleteComplete,
                    timeout_secs: 500,
                    interval_secs: POLL_INTERVAL_SECS,
                },
            ),
            Phase::ConfirmRoleDelete => none.push(ActionView::Pace { secs: 2 }).push(
                ActionView::PollStack {
                    kind: StackKind::Ec2InstanceRole,
                    name: text_or_empty(res.cloudformation_ec2_instance_role),
                    target: StackTarget::DeleteComplete,
                    timeout_secs: 500,
                    interval_secs: POLL_INTERVAL_SECS,
                },
            ),
            Phase::DropStorage => none.push(ActionView::Pace { secs: 2 }).push(
                ActionView::EmptyBucket { bucket: res.s3_bucket@ },
            ).push(ActionView::DeleteBucket { bucket: res.s3_bucket@ }),
            Phase::FindVolumes => none.push(ActionView::ListOrphanVolumes { id }),
            Phase::FindAddresses => none.push(ActionView::ListAddresses { id }),
            Phase::Scale => none.push(
                ActionView::SetDesiredCapacity {
                    group: text_or_empty(res.cloudformation_asg_logical_id),
                    capacity: self.scale_target(),
                },
            ),
            Phase::Done => none,
            Phase::Declined => none,
            Phase::Failed(_) => none,
        }
    }
}

/// Appends an action to a batch.
pub fn push_action(batch: &mut Vec<Action>, action: Action)
    ensures
        actions_view(final(batch)@) == actions_view(old(batch)@).push(action@),
{
    batch.push(action);
    assert(actions_view(batch@) =~= actions_view(old(batch)@).push(action@));
}

/// Appends a batch to a batch.
pub fn append_actions(batch: &mut Vec<Action>, more: Vec<Action>)
    ensures
        actions_view(final(batch)@) == actions_view(old(batch)@) + actions_view(more@),
{
    let ghost added = more@;
    let mut more = more;
    batch.append(&mut more);
    assert(actions_view(batch@) =~= actions_view(old(batch)@) + actions_view(added));
}

/// An empty batch.
pub fn no_actions() -> (batch: Vec<Action>)
    ensures
        actions_view(batch@) == Seq::<ActionView>::empty(),
{
    let batch: Vec<Action> = Vec::new();
    assert(actions_view(batch@) =~= Seq::<ActionView>::empty());
    batch
}

/// A copy of a text, or an empty text where it is missing.
pub fn text_of(s: &Option<String>) -> (r: String)
    ensures
        r@ == text_or_empty(*s),
{
    match s {
        Some(t) => t.clone(),
        None => String::new(),
    }
}

impl Orchestrator {
    /// Whether the run tears down.
    pub fn is_tearing_down(&self) -> (r: bool)
        ensures
            r == self.tears_down(),
    {
        match self.mode {
            Mode::Delete => true,
            Mode::Apply => self.spec.auto_delete_after_apply,
            _ => false,
        }
    }

    /// Whether the step is taken in the current state.
    pub fn phase_applies(&self, phase: Phase) -> (r: bool)
        ensures
            r == self.applies(phase),
    {
        let spec = &self.spec;
        let res = &spec.aws_resources;
        let applying = match self.mode {
            Mode::Apply => true,
            _ => false,
        };
        let tearing = self.is_tearing_down();
        match phase {
            Phase::Identity => true,
            Phase::Image => applying && spec.machine.image_id.as_str().unicode_len() == 0
                && spec.machine.image_id_ssm_parameter.as_str().unicode_len() > 0,
            Phase::Confirm => !self.skip_prompt,
            Phase::Storage => applying,
            Phase::Key => applying && res.kms_key_id.is_none() && res.kms_key_arn.is_none(),
            Phase::Credential => applying,
            Phase::Role => applying && res.cloudformation_ec2_instance_profile_arn.is_none(),
            Phase::Network => applying && res.cloudformation_vpc_id.is_none()
                && res.existing_vpc_security_group_id.is_none()
                && res.existing_vpc_subnet_ids_for_asg.is_none()
                && res.cloudformation_vpc_security_group_id.is_none()
                && res.cloudformation_vpc_public_subnet_ids.is_none(),
            Phase::Fleet => applying && res.cloudformation_asg_logical_id.is_none(),
            Phase::Discover => applying,
            Phase::Addresses => applying && spec.is_elastic(),
            Phase::Publish => applying,
            Phase::RemoteWait => applying && spec.wait_for_init_script_completion
                && self.droplets.len() > 0,
            Phase::Scrub => applying && spec.image_name_to_create.as_str().unicode_len() > 0
                && self.droplets.len() > 0,
            Phase::CaptureImage => applying && spec.image_name_to_create.as_str().unicode_len()
                > 0,
            Phase::AwaitImage => applying && spec.image_name_to_create.as_str().unicode_len() > 0
                && spec.wait_for_image_create_completion,
            Phase::DropCredentials => tearing,
            Phase::DropKey => tearing && res.kms_key_id.is_some() && res.kms_key_arn.is_some(),
            Phase::RequestRoleDelete => tearing
                && res.cloudformation_ec2_instance_profile_arn.is_some(),
            Phase::DropFleet => tearing && spec.machine.machines > 0
                && res.cloudformation_asg_logical_id.is_some(),
            Phase::DropNetwork => tearing && res.existing_vpc_security_group_id.is_none()
                && res.existing_vpc_subnet_ids_for_asg.is_none()
                && res.cloudformation_vpc_id.is_some()
                && res.cloudformation_vpc_security_group_id.is_some()
                && res.cloudformation_vpc_public_subnet_ids.is_some(),
            Phase::ConfirmRoleDelete => tearing
                && res.cloudformation_ec2_instance_profile_arn.is_some(),
            Phase::DropStorage => tearing && match self.mode {
                Mode::Delete => self.delete_all,
                _ => spec.auto_delete_after_apply_delete_all,
            },
            Phase::FindVolumes => tearing,
            Phase::FindAddresses => tearing,
            Phase::Scale => match self.mode {
                Mode::Pause | Mode::Resume => true,
                _ => false,
            },
            Phase::Done => true,
            Phase::Declined => true,
            Phase::Failed(_) => true,
        }
    }

    /// The first step after `from` that is taken in the current state.
    pub fn following(&self, from: Phase) -> (next: Phase)
        ensures
            next == self.next_applicable(from),
    {
        let mut at = from;
        loop
            invariant
                self.next_applicable(at) == self.next_applicable(from),
            decreases LAST_RANK - at.rank(),
        {
            let n = at.next();
            if at.terminal() || self.phase_applies(n) {
                return n;
            }
            at = n;
        }
    }

    /// The subnet that `pick` selects among the choices, or an empty text
    /// where there is no choice.
    pub fn subnet_at(&self, pick: usize) -> (subnet: String)
        ensures
            subnet@ == self.fleet_inputs(pick).subnet,
    {
        let res = &self.spec.aws_resources;
        let choices: Option<&Vec<String>> = match &res.existing_vpc_subnet_ids_for_asg {
            Some(subnets) => Some(subnets),
            None => match &res.cloudformation_vpc_public_subnet_ids {
                Some(subnets) => Some(subnets),
                None => None,
            },
        };
        match choices {
            Some(subnets) => {
                assert(subnets.deep_view() == self.subnet_choices());
                assert(subnets.deep_view().len() == subnets@.len());
                if subnets.len() > 0 {
                    subnets[pick % subnets.len()].clone()
                } else {
                    String::new()
                }
            },
            None => String::new(),
        }
    }

    /// The security group of the fleet, or an empty text where there is
    /// none.
    pub fn security_group_text(&self) -> (group: String)
        ensures
            group@ == self.fleet_inputs(0).security_group,
            self.security_group() is None ==> group@.len() == 0,
    {
        let res = &self.spec.aws_resources;
        match &res.existing_vpc_security_group_id {
            Some(group) => group.clone(),
            None => text_of(&res.cloudformation_vpc_security_group_id),
        }
    }

    /// What keeps the step from being taken, if anything.
    pub fn find_obstacle(&self, phase: Phase) -> (r: Option<Failure>)
        ensures
            r == self.obstacle(phase),
    {
        let spec = &self.spec;
        let res = &spec.aws_resources;
        match phase {
            Phase::Credential => if res.kms_key_id.is_none() {
                Some(Failure::MissingEncryptionKey)
            } else if res.ec2_key_import && res.ssh_public_key_path.is_none() {
                Some(Failure::MissingPublicKey)
            } else {
                None
            },
            Phase::Role => if res.kms_key_arn.is_none() {
                Some(Failure::MissingEncryptionKey)
            } else if res.cloudformation_ec2_instance_role.is_none() {
                Some(Failure::MissingStackName)
            } else {
                None
            },
            Phase::Network => if res.cloudformation_vpc.is_none() {
                Some(Failure::MissingStackName)
            } else {
                None
            },
            Phase::Fleet => {
                let no_group = res.existing_vpc_security_group_id.is_none()
                    && res.cloudformation_vpc_security_group_id.is_none();
                let no_subnet = match &res.existing_vpc_subnet_ids_for_asg {
                    Some(subnets) => {
                        assert(subnets.deep_view().len() == subnets@.len());
                        subnets.len() == 0
                    },
                    None => match &res.cloudformation_vpc_public_subnet_ids {
                        Some(subnets) => {
                            assert(subnets.deep_view().len() == subnets@.len());
                            subnets.len() == 0
                        },
                        None => true,
                    },
                };
                if res.kms_key_arn.is_none() {
                    Some(Failure::MissingEncryptionKey)
                } else if res.cloudformation_ec2_instance_profile_arn.is_none() {
                    Some(Failure::MissingProfile)
                } else if res.cloudformation_asg.is_none() {
                    Some(Failure::MissingStackName)
                } else if no_group || no_subnet {
                    Some(Failure::MissingNetwork)
                } else if spec.machine.image_id.as_str().unicode_len() == 0
                    && self.platform.default_image_id_ssm_parameter.is_none() {
                    Some(Failure::MissingImageParameter)
                } else {
                    None
                }
            },
            Phase::Discover => if res.cloudformation_asg_logical_id.is_none() {
                Some(Failure::MissingFleet)
            } else {
                None
            },
            Phase::Publish => if self.platform.default_user_name.is_none() {
                Some(Failure::MissingUserName)
            } else if !crate::fleet::are_addresses_complete(&self.addresses) {
                Some(Failure::MalformedAddress)
            } else {
                None
            },
            Phase::RequestRoleDelete | Phase::ConfirmRoleDelete => if res.cloudformation_ec2_instance_role.is_none(
            ) {
                Some(Failure::MissingStackName)
            } else {
                None
            },
            Phase::DropFleet => if res.cloudformation_asg.is_none() {
                Some(Failure::MissingStackName)
            } else {
                None
            },
            Phase::DropNetwork => if res.cloudformation_vpc.is_none() {
                Some(Failure::MissingStackName)
            } else {
                None
            },
            Phase::Scale => if res.cloudformation_asg_logical_id.is_none() {
                Some(Failure::MissingFleet)
            } else {
                None
            },
            _ => None,
        }
    }

    /// The upload of the document to shared storage.
    pub fn document_upload(&self) -> (action: Action)
        ensures
            action@ == self.upload_document(),
    {
        Action::PutObject {
            local_path: self.spec.spec_file_path.clone(),
            bucket: self.spec.aws_resources.s3_bucket.clone(),
            key: StorageNamespace::DevMachineConfigFile(self.spec.id.clone()).encode(),
        }
    }
}

} // verus!
