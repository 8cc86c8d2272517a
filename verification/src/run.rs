//! Starting a run, and driving it.

use vstd::prelude::*;
use crate::action::{actions_view, Action, Event, StackKind};
use crate::deployment::{Resources, Spec, ValidationError};
use crate::naming::{key_pair_name, key_pair_name_of, stack_name, StackName};
use crate::orchestrator::{Orchestrator, Platform, DISCOVERY_TIMEOUT_SECS, POLL_INTERVAL_SECS};
use crate::phase::{Failure, Mode, Phase};
use crate::poller::Poller;
use crate::text::copy_text;
use crate::transition::discovery_poller;

verus! {

/// Calls `random_manager::usize`: a random number, of which nothing is known.
#[verifier::external_body]
fn random_pick() -> usize {
    random_manager::usize()
}

/// The name under which a stack goes: the one that the document holds, or
/// else the one derived from the deployment id.
pub open spec fn settled_stack_name(held: Option<String>, kind: StackKind, id: Seq<char>) -> Seq<
    char,
> {
    match held {
        Some(name) => name@,
        None => stack_name(kind, id),
    }
}

/// `after` is `before` made ready for an apply: it names its file, its key
/// pair and its stacks, and is otherwise unchanged.
pub open spec fn made_ready(before: Spec, path: Seq<char>, after: Spec) -> bool {
    let was = before.aws_resources;
    let now = after.aws_resources;
    &&& after == (Spec {
        spec_file_path: after.spec_file_path,
        aws_resources: Resources {
            ec2_key_name: now.ec2_key_name,
            cloudformation_ec2_instance_role: now.cloudformation_ec2_instance_role,
            cloudformation_vpc: now.cloudformation_vpc,
            cloudformation_asg: now.cloudformation_asg,
            ..was
        },
        ..before
    })
    &&& after.spec_file_path@ == path
    &&& now.ec2_key_name@ == key_pair_name(before.id@)
    &&& now.cloudformation_ec2_instance_role is Some
    &&& now.cloudformation_ec2_instance_role->0@ == settled_stack_name(
        was.cloudformation_ec2_instance_role,
        StackKind::Ec2InstanceRole,
        before.id@,
    )
    &&& now.cloudformation_vpc is Some
    &&& now.cloudformation_vpc->0@ == settled_stack_name(
        was.cloudformation_vpc,
        StackKind::Vpc,
        before.id@,
    )
    &&& now.cloudformation_asg is Some
    &&& now.cloudformation_asg->0@ == settled_stack_name(
        was.cloudformation_asg,
        StackKind::Asg,
        before.id@,
    )
}

/// The name of a stack: the held one, or the derived one.
fn settle_stack_name(held: Option<String>, kind: StackKind, id: &String) -> (name: Option<String>)
    ensures
        name is Some,
        name->0@ == settled_stack_name(held, kind, id@),
{
    match held {
        Some(name) => Some(name),
        None => Some(StackName::of(kind, id)),
    }
}

impl Orchestrator {
    /// The run has not taken any event yet.
    pub open spec fn is_fresh(self) -> bool {
        &&& self.phase == Phase::Identity
        &&& !self.identity_differs
        &&& self.poller == discovery_poller()
        &&& self.cursor == 0
        &&& self.droplets@.len() == 0
        &&& self.addresses@.len() == 0
        &&& self.fleet@.len() == 0
        &&& self.image_id@.len() == 0
    }

    /// A run in its first step.
    fn start(spec: Spec, mode: Mode, platform: Platform, skip_prompt: bool, delete_all: bool) -> (r:
        (Orchestrator, Vec<Action>))
        ensures
            r.0.is_fresh(),
            r.0.is_consistent(),
            r.0.spec == spec,
            r.0.mode == mode,
            r.0.platform == platform,
            r.0.skip_prompt == skip_prompt,
            r.0.delete_all == delete_all,
            actions_view(r.1@) == r.0.entry(0),
    {
        let run = Orchestrator {
            spec,
            mode,
            phase: Phase::Identity,
            platform,
            skip_prompt,
            delete_all,
            identity_differs: false,
            poller: Poller::bounded(DISCOVERY_TIMEOUT_SECS, POLL_INTERVAL_SECS),
            cursor: 0,
            droplets: Vec::new(),
            addresses: Vec::new(),
            fleet: Vec::new(),
            image_id: String::new(),
        };
        let batch = run.begin(0);
        (run, batch)
    }

    /// Starts an apply: the run that creates what the document still lacks.
    /// The document is checked first, and nothing is asked of any
    /// collaborator where it breaks a rule. A valid document is made to name
    /// its file, its key pair and its stacks.
    pub fn apply(spec: Spec, spec_file_path: &str, platform: Platform, skip_prompt: bool) -> (r:
        Result<(Orchestrator, Vec<Action>), ValidationError>)
        ensures
            match r {
                Err(e) => spec.first_violation() == Some(e),
                Ok((run, batch)) => {
                    &&& spec.is_valid()
                    &&& run.is_fresh()
                    &&& run.is_consistent()
                    &&& run.mode == Mode::Apply
                    &&& run.platform == platform
                    &&& run.skip_prompt == skip_prompt
                    &&& !run.delete_all
                    &&& made_ready(spec, spec_file_path@, run.spec)
                    &&& actions_view(batch@) == run.entry(0)
                },
            },
    {
        let ghost before = spec;
        let mut spec = spec;
        spec.spec_file_path = copy_text(spec_file_path);
        match spec.validate() {
            Err(e) => {
                return Err(e);
            },
            Ok(()) => {},
        }
        spec.aws_resources.ec2_key_name = key_pair_name_of(&spec.id);
        let role = spec.aws_resources.cloudformation_ec2_instance_role.take();
        spec.aws_resources.cloudformation_ec2_instance_role = settle_stack_name(
            role,
            StackKind::Ec2InstanceRole,
            &spec.id,
        );
        let vpc = spec.aws_resources.cloudformation_vpc.take();
        spec.aws_resources.cloudformation_vpc = settle_stack_name(vpc, StackKind::Vpc, &spec.id);
        let asg = spec.aws_resources.cloudformation_asg.take();
        spec.aws_resources.cloudformation_asg = settle_stack_name(asg, StackKind::Asg, &spec.id);
        assert(before.provisions_static_ip() == spec.provisions_static_ip());
        Ok(Orchestrator::start(spec, Mode::Apply, platform, skip_prompt, false))
    }

    /// Starts a delete: the run that tears down what the document records.
    /// With `delete_all` the bucket goes too.
    pub fn delete(spec: Spec, delete_all: bool, skip_prompt: bool) -> (r: (
        Orchestrator,
        Vec<Action>,
    ))
        ensures
            r.0.is_fresh(),
            r.0.is_consistent(),
            r.0.spec == spec,
            r.0.mode == Mode::Delete,
            r.0.skip_prompt == skip_prompt,
            r.0.delete_all == delete_all,
            r.0.platform.default_image_id_ssm_parameter is None,
            r.0.platform.default_user_name is None,
            actions_view(r.1@) == r.0.entry(0),
    {
        let platform = Platform { default_image_id_ssm_parameter: None, default_user_name: None };
        Orchestrator::start(spec, Mode::Delete, platform, skip_prompt, delete_all)
    }

    /// Starts a pause: the run that scales the fleet to no machine.
    pub fn pause(spec: Spec, skip_prompt: bool) -> (r: (Orchestrator, Vec<Action>))
        ensures
            r.0.is_fresh(),
            r.0.is_consistent(),
            r.0.spec == spec,
            r.0.mode == Mode::Pause,
            r.0.skip_prompt == skip_prompt,
            !r.0.delete_all,
            actions_view(r.1@) == r.0.entry(0),
    {
        let platform = Platform { default_image_id_ssm_parameter: None, default_user_name: None };
        Orchestrator::start(spec, Mode::Pause, platform, skip_prompt, false)
    }

    /// Starts a resume: the run that scales the fleet back to the number of
    /// machines that the document asks for.
    pub fn resume(spec: Spec, skip_prompt: bool) -> (r: (Orchestrator, Vec<Action>))
        ensures
            r.0.is_fresh(),
            r.0.is_consistent(),
            r.0.spec == spec,
            r.0.mode == Mode::Resume,
            r.0.skip_prompt == skip_prompt,
            !r.0.delete_all,
            actions_view(r.1@) == r.0.entry(0),
    {
        let platform = Platform { default_image_id_ssm_parameter: None, default_user_name: None };
        Orchestrator::start(spec, Mode::Resume, platform, skip_prompt, false)
    }

    /// Takes the outcome of the last batch and hands out the next one. The
    /// subnet of the fleet is picked at random among the choices.
    pub fn advance(&mut self, event: Event) -> (batch: Vec<Action>)
        ensures
            exists|pick: usize| old(self).advances(event, pick, *final(self), actions_view(batch@)),
    {
        let pick = random_pick();
        let batch = self.advance_with(event, pick);
        assert(old(self).advances(event, pick, *self, actions_view(batch@)));
        batch
    }

    /// Whether the run is complete.
    pub fn is_done(&self) -> (r: bool)
        ensures
            r == (self.phase == Phase::Done),
    {
        match self.phase {
            Phase::Done => true,
            _ => false,
        }
    }

    /// Whether the operator declined the run.
    pub fn is_declined(&self) -> (r: bool)
        ensures
            r == (self.phase == Phase::Declined),
    {
        match self.phase {
            Phase::Declined => true,
            _ => false,
        }
    }

    /// Why the run failed, if it did.
    pub fn failure(&self) -> (r: Option<Failure>)
        ensures
            r == (match self.phase {
                Phase::Failed(f) => Some(f),
                _ => None::<Failure>,
            }),
    {
        match self.phase {
            Phase::Failed(f) => Some(f),
            _ => None,
        }
    }
}

} // verus!
