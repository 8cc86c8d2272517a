//! How a run goes from one step to the next.

use vstd::prelude::*;
use vstd::string::*;
use crate::action::{actions_view, Action, ActionView, Event, Pair, StableAddress};
use crate::deployment::{Records, Resources};
use crate::fleet::{
    addresses_settled, are_addresses_settled, assemble_fleet, fleet_discovered, init_complete,
    is_fleet_discovered, is_fleet_of, is_init_complete,
};
use crate::orchestrator::{
    append_actions, no_actions, push_action, text_of, text_or_empty, Orchestrator,
    DISCOVERY_TIMEOUT_SECS, POLL_INTERVAL_SECS, REMOTE_INTERVAL_SECS,
};
use crate::params::{find_output, output_value};
use crate::phase::{Failure, Mode, Phase, LAST_RANK};
use crate::poller::{Poller, Verdict};
use crate::text::{pieces_of, split_on};

verus! {

/// How a step takes an event.
pub enum Outcome {
    /// The run is over: the event changes nothing.
    Ignore,
    /// The run fails.
    Fail(Failure),
    /// The run stops at the operator's word.
    Stop,
    /// The step is not done: it asks again.
    Stay,
    /// The step is done: the run goes on to the next one.
    Leave,
}

/// The wait that the discovery of the fleet starts with.
pub open spec fn discovery_poller() -> Poller {
    Poller {
        timeout_secs: Some(DISCOVERY_TIMEOUT_SECS),
        interval_secs: POLL_INTERVAL_SECS,
        elapsed_secs: 0,
    }
}

/// The outputs of the network stack hold all that is recorded of it.
pub open spec fn network_outputs_complete(outputs: Seq<Pair>) -> bool {
    &&& output_value(outputs, "VpcId"@) is Some
    &&& output_value(outputs, "SecurityGroupId"@) is Some
    &&& output_value(outputs, "PublicSubnetIds"@) is Some
}

/// Every address has an allocation id.
pub open spec fn all_allocated(addresses: Seq<StableAddress>) -> bool {
    forall|i: int| 0 <= i < addresses.len() ==> (#[trigger] addresses[i]).allocation_id is Some
}

/// The deletion of each volume, each followed by a short pause.
pub open spec fn volume_deletes(volumes: Seq<String>) -> Seq<ActionView>
    decreases volumes.len(),
{
    if volumes.len() == 0 {
        Seq::empty()
    } else {
        volume_deletes(volumes.drop_last()).push(
            ActionView::DeleteVolume { volume_id: volumes.last()@ },
        ).push(ActionView::Pace { secs: 2 })
    }
}

/// The release of each address, each followed by a short pause.
pub open spec fn address_releases(addresses: Seq<StableAddress>) -> Seq<ActionView>
    decreases addresses.len(),
{
    if addresses.len() == 0 {
        Seq::empty()
    } else {
        address_releases(addresses.drop_last()).push(
            ActionView::ReleaseAddress {
                allocation_id: text_or_empty(addresses.last().allocation_id),
            },
        ).push(ActionView::Pace { secs: 2 })
    }
}

impl Orchestrator {
    /// How the current step takes an event.
    pub open spec fn outcome(self, event: Event) -> Outcome {
        let unexpected = Outcome::Fail(Failure::UnexpectedEvent);
        let more_members = self.cursor + 1 < self.droplets@.len();
        if self.phase.is_terminal() {
            Outcome::Ignore
        } else if event is Failed {
            Outcome::Fail(Failure::Provider)
        } else {
            match self.phase {
                Phase::Identity => match event {
                    Event::Caller(_) => if self.mode != Mode::Apply
                        && self.spec.aws_resources.identity.user_id@.len() == 0 {
                        Outcome::Fail(Failure::UnknownIdentity)
                    } else {
                        Outcome::Leave
                    },
                    _ => unexpected,
                },
                Phase::Image | Phase::CaptureImage => match event {
                    Event::Image(_) => Outcome::Leave,
                    _ => unexpected,
                },
                Phase::Confirm => match event {
                    Event::Answer(yes) => if yes {
                        Outcome::Leave
                    } else {
                        Outcome::Stop
                    },
                    _ => unexpected,
                },
                Phase::Key => match event {
                    Event::Key { .. } => Outcome::Leave,
                    _ => unexpected,
                },
                Phase::Role => match event {
                    Event::Outputs(outputs) => if output_value(outputs@, "InstanceProfileArn"@)
                        is Some {
                        Outcome::Leave
                    } else {
                        Outcome::Fail(Failure::MissingOutput)
                    },
                    _ => unexpected,
                },
                Phase::Network => match event {
                    Event::Outputs(outputs) => if network_outputs_complete(outputs@) {
                        Outcome::Leave
                    } else {
                        Outcome::Fail(Failure::MissingOutput)
                    },
                    _ => unexpected,
                },
                Phase::Fleet => match event {
                    Event::Outputs(outputs) => if output_value(outputs@, "AsgLogicalId"@)
                        is Some {
                        Outcome::Leave
                    } else {
                        Outcome::Fail(Failure::MissingOutput)
                    },
                    _ => unexpected,
                },
                Phase::Discover => match event {
                    Event::Fleet(droplets) => if self.poller.verdict(
                        fleet_discovered(droplets@, self.spec.machine.machines),
                    ) is Wait {
                        Outcome::Stay
                    } else {
                        Outcome::Leave
                    },
                    _ => unexpected,
                },
                Phase::Addresses => match event {
                    Event::Addresses(addresses) => if addresses_settled(
                        addresses@,
                        self.spec.machine.machines,
                    ) {
                        Outcome::Leave
                    } else {
                        Outcome::Stay
                    },
                    _ => unexpected,
                },
                Phase::RemoteWait => match event {
                    Event::RemoteOutput(log) => if init_complete(log@) && !more_members {
                        Outcome::Leave
                    } else {
                        Outcome::Stay
                    },
                    Event::RemoteFailed => Outcome::Stay,
                    _ => unexpected,
                },
                Phase::Scrub => match event {
                    Event::Completed | Event::RemoteFailed => if more_members {
                        Outcome::Stay
                    } else {
                        Outcome::Leave
                    },
                    _ => unexpected,
                },
                Phase::FindVolumes => match event {
                    Event::Volumes(_) => Outcome::Leave,
                    _ => unexpected,
                },
                Phase::FindAddresses => match event {
                    Event::Addresses(addresses) => if all_allocated(addresses@) {
                        Outcome::Leave
                    } else {
                        Outcome::Fail(Failure::MalformedAddress)
                    },
                    _ => unexpected,
                },
                _ => match event {
                    Event::Completed => Outcome::Leave,
                    _ => unexpected,
                },
            }
        }
    }

    /// What is recorded of the created resources once the event is taken.
    pub open spec fn recorded(self, event: Event) -> Records {
        let before = self.spec.aws_resources.records();
        match (self.phase, event) {
            (Phase::Key, Event::Key { id, arn }) => Records {
                key_id: Some(id@),
                key_arn: Some(arn@),
                ..before
            },
            (Phase::Role, Event::Outputs(outputs)) => Records {
                profile_arn: output_value(outputs@, "InstanceProfileArn"@).deep_view(),
                ..before
            },
            (Phase::Network, Event::Outputs(outputs)) => Records {
                vpc_id: output_value(outputs@, "VpcId"@).deep_view(),
                security_group: output_value(outputs@, "SecurityGroupId"@).deep_view(),
                subnets: match output_value(outputs@, "PublicSubnetIds"@) {
                    Some(list) => Some(pieces_of(list@, ',')),
                    None => None,
                },
                ..before
            },
            (Phase::Fleet, Event::Outputs(outputs)) => Records {
                fleet_id: output_value(outputs@, "AsgLogicalId"@).deep_view(),
                ..before
            },
            _ => before,
        }
    }

    /// The caller's identity is taken into the document: an apply of a
    /// document that names no caller yet.
    pub open spec fn adopts_caller(self) -> bool {
        self.phase == Phase::Identity && self.mode == Mode::Apply
            && self.spec.aws_resources.identity.user_id@.len() == 0
    }

    /// `post` holds what the current step learns from the event, and
    /// otherwise what the run held before.
    pub open spec fn absorbed(self, event: Event, post: Orchestrator) -> bool {
        &&& post.mode == self.mode
        &&& post.platform == self.platform
        &&& post.skip_prompt == self.skip_prompt
        &&& post.delete_all == self.delete_all
        &&& self.spec.same_request(post.spec)
        &&& post.spec.aws_resources.records() == self.recorded(event)
        &&& self.phase.creates() is None ==> post.spec.aws_resources == (Resources {
            identity: post.spec.aws_resources.identity,
            ..self.spec.aws_resources
        })
        &&& match event {
            Event::Caller(caller) if self.phase == Phase::Identity => {
                &&& post.spec.aws_resources.identity == (if self.adopts_caller() {
                    caller
                } else {
                    self.spec.aws_resources.identity
                })
                &&& post.identity_differs == (!self.adopts_caller()
                    && !self.spec.aws_resources.identity.same_caller(caller))
            },
            _ => post.spec.aws_resources.identity == self.spec.aws_resources.identity
                && post.identity_differs == self.identity_differs,
        }
        &&& match event {
            Event::Image(image) if self.phase == Phase::Image => post.spec.machine.image_id
                == image && post.image_id == self.image_id,
            Event::Image(image) if self.phase == Phase::CaptureImage => post.image_id == image
                && post.spec.machine.image_id == self.spec.machine.image_id,
            _ => post.spec.machine.image_id == self.spec.machine.image_id && post.image_id
                == self.image_id,
        }
        &&& match event {
            Event::Fleet(droplets) if self.phase == Phase::Discover => post.droplets == droplets,
            _ => post.droplets == self.droplets,
        }
        &&& match event {
            Event::Addresses(addresses) if self.phase == Phase::Addresses => post.addresses
                == addresses,
            _ => post.addresses == self.addresses,
        }
    }

    /// What is collected from a machine whose init script is done, where
    /// an image is waited for.
    pub open spec fn release_part(self) -> Seq<ActionView> {
        if self.spec.wait_for_image_create_completion {
            Seq::empty().push(
                ActionView::CollectReleaseInfo {
                    member: self.cursor,
                    local_path: self.spec.aws_resources.release_info_file_path@,
                },
            ).push(ActionView::RemoteCleanup { member: self.cursor, show_release: true })
        } else {
            Seq::empty()
        }
    }

    /// The actions that end the current step, once the event is taken.
    pub open spec fn exit(self, event: Event) -> Seq<ActionView> {
        let none = Seq::<ActionView>::empty();
        let saved = none.push(ActionView::Persist);
        let saved_and_shared = saved.push(ActionView::Pace { secs: 1 }).push(
            self.upload_document(),
        );
        match self.phase {
            Phase::Identity => if self.mode == Mode::Apply {
                saved
            } else {
                none
            },
            Phase::Image | Phase::Fleet => saved,
            Phase::Key | Phase::Role | Phase::Network => saved_and_shared,
            Phase::RemoteWait => self.release_part(),
            Phase::Scrub => if event is RemoteFailed {
                none.push(ActionView::Pace { secs: 100 })
            } else {
                none
            },
            Phase::FindVolumes => match event {
                Event::Volumes(volumes) => volume_deletes(volumes@),
                _ => none,
            },
            Phase::FindAddresses => match event {
                Event::Addresses(addresses) => address_releases(addresses@),
                _ => none,
            },
            _ => none,
        }
    }

    /// The fleet member that the step works on once the event is taken.
    pub open spec fn next_cursor(self, event: Event) -> usize {
        match (self.phase, event) {
            (Phase::RemoteWait, Event::RemoteOutput(log)) => if init_complete(log@) {
                (self.cursor + 1) as usize
            } else {
                self.cursor
            },
            (Phase::Scrub, _) => (self.cursor + 1) as usize,
            _ => self.cursor,
        }
    }

    /// The actions with which the current step asks again.
    pub open spec fn retry(self, event: Event) -> Seq<ActionView> {
        let none = Seq::<ActionView>::empty();
        let wait = none.push(ActionView::Pace { secs: POLL_INTERVAL_SECS });
        match self.phase {
            Phase::Discover => wait.push(
                ActionView::ListFleet {
                    group: text_or_empty(self.spec.aws_resources.cloudformation_asg_logical_id),
                },
            ),
            Phase::Addresses => wait.push(ActionView::ListAddresses { id: self.spec.id@ }),
            Phase::RemoteWait => if self.next_cursor(event) != self.cursor {
                self.release_part().push(ActionView::RemoteTail { member: self.next_cursor(event) })
            } else {
                none.push(ActionView::Pace { secs: REMOTE_INTERVAL_SECS }).push(
                    ActionView::RemoteTail { member: self.cursor },
                )
            },
            Phase::Scrub => self.exit(event).push(
                ActionView::RemoteCleanup { member: self.next_cursor(event), show_release: false },
            ),
            _ => none,
        }
    }

    /// The run goes from `self` to `post` on `event` and hands out `batch`.
    /// `pick` selects the subnet of the fleet where the fleet stack is
    /// created.
    pub open spec fn advances(
        self,
        event: Event,
        pick: usize,
        post: Orchestrator,
        batch: Seq<ActionView>,
    ) -> bool {
        match self.outcome(event) {
            Outcome::Ignore => post == self && batch.len() == 0,
            Outcome::Fail(failure) => post == (Orchestrator {
                phase: Phase::Failed(failure),
                ..self
            }) && batch.len() == 0,
            Outcome::Stop => post == (Orchestrator { phase: Phase::Declined, ..self })
                && batch.len() == 0,
            Outcome::Stay => {
                &&& self.absorbed(event, post)
                &&& post.phase == self.phase
                &&& post.poller == (if self.phase == Phase::Discover {
                    self.poller.after(false)
                } else {
                    self.poller
                })
                &&& post.cursor == self.next_cursor(event)
                &&& post.fleet == self.fleet
                &&& batch == self.retry(event)
            },
            Outcome::Leave => {
                &&& self.absorbed(event, post)
                &&& post.phase == post.landing(self.phase)
                &&& post.poller == discovery_poller()
                &&& post.cursor == 0
                &&& if post.phase == Phase::Publish {
                    is_fleet_of(post.fleet@, post.droplets@, post.addresses@)
                } else {
                    post.fleet == self.fleet
                }
                &&& batch == self.exit(event) + post.entry(pick)
            },
        }
    }
}

/// Where a run lands does not depend on how far it has come: two states
/// that hold the same document, mode, flags, machines and addresses land
/// at the same step.
pub proof fn lemma_landing_ignores_progress(a: Orchestrator, b: Orchestrator, from: Phase)
    requires
        a.spec == b.spec,
        a.mode == b.mode,
        a.skip_prompt == b.skip_prompt,
        a.delete_all == b.delete_all,
        a.platform == b.platform,
        a.droplets == b.droplets,
        a.addresses == b.addresses,
    ensures
        a.next_applicable(from) == b.next_applicable(from),
        a.landing(from) == b.landing(from),
    decreases LAST_RANK - from.rank(),
{
    let n = from.successor();
    if from.is_terminal() || a.applies(n) {
    } else {
        lemma_landing_ignores_progress(a, b, n);
    }
}

impl Orchestrator {
    /// Ends the run in a failure.
    fn fail(&mut self, failure: Failure) -> (batch: Vec<Action>)
        ensures
            *final(self) == (Orchestrator { phase: Phase::Failed(failure), ..*old(self) }),
            actions_view(batch@).len() == 0,
    {
        self.phase = Phase::Failed(failure);
        no_actions()
    }

    /// Leaves the step `from` for the next one that is taken, and begins
    /// it.
    fn leave(&mut self, from: Phase, exit: Vec<Action>, pick: usize) -> (batch: Vec<Action>)
        ensures
            *final(self) == (Orchestrator {
                phase: final(self).phase,
                poller: final(self).poller,
                cursor: final(self).cursor,
                fleet: final(self).fleet,
                ..*old(self)
            }),
            final(self).phase == final(self).landing(from),
            final(self).poller == discovery_poller(),
            final(self).cursor == 0,
            if final(self).phase == Phase::Publish {
                is_fleet_of(final(self).fleet@, final(self).droplets@, final(self).addresses@)
            } else {
                final(self).fleet == old(self).fleet
            },
            actions_view(batch@) == actions_view(exit@) + final(self).entry(pick),
    {
        let next = self.following(from);
        let landed = match self.find_obstacle(next) {
            Some(failure) => Phase::Failed(failure),
            None => next,
        };
        let ghost before = *self;
        self.phase = landed;
        self.poller = Poller::bounded(DISCOVERY_TIMEOUT_SECS, POLL_INTERVAL_SECS);
        self.cursor = 0;
        match landed {
            Phase::Publish => {
                self.fleet = assemble_fleet(&self.droplets, &self.addresses);
            },
            _ => {},
        }
        proof {
            lemma_landing_ignores_progress(before, *self, from);
        }
        let mut batch = exit;
        let entry = self.begin(pick);
        append_actions(&mut batch, entry);
        batch
    }

    /// The actions that write the document.
    fn saved(&self) -> (batch: Vec<Action>)
        ensures
            actions_view(batch@) == Seq::<ActionView>::empty().push(ActionView::Persist),
    {
        let mut batch = no_actions();
        push_action(&mut batch, Action::Persist);
        batch
    }

    /// The actions that write the document and share it.
    fn saved_and_shared(&self) -> (batch: Vec<Action>)
        ensures
            actions_view(batch@) == Seq::<ActionView>::empty().push(ActionView::Persist).push(
                ActionView::Pace { secs: 1 },
            ).push(self.upload_document()),
    {
        let mut batch = no_actions();
        push_action(&mut batch, Action::Persist);
        push_action(&mut batch, Action::Pace { secs: 1 });
        push_action(&mut batch, self.document_upload());
        batch
    }

    /// What is collected from a machine whose init script is done.
    fn release_batch(&self) -> (batch: Vec<Action>)
        ensures
            actions_view(batch@) == self.release_part(),
    {
        let mut batch = no_actions();
        if self.spec.wait_for_image_create_completion {
            push_action(
                &mut batch,
                Action::CollectReleaseInfo {
                    member: self.cursor,
                    local_path: self.spec.aws_resources.release_info_file_path.clone(),
                },
            );
            push_action(
                &mut batch,
                Action::RemoteCleanup { member: self.cursor, show_release: true },
            );
        }
        batch
    }

    /// Whether the step works on a further fleet member after this one.
    fn has_more_members(&self) -> (r: bool)
        ensures
            r == (self.cursor + 1 < self.droplets@.len()),
            r ==> self.cursor < usize::MAX,
    {
        self.droplets.len() > 0 && self.cursor < self.droplets.len() - 1
    }

    /// Takes the caller's identity.
    fn take_caller(&mut self, caller: crate::deployment::Identity, pick: usize) -> (batch: Vec<
        Action,
    >)
        requires
            old(self).phase == Phase::Identity,
        ensures
            old(self).advances(Event::Caller(caller), pick, *final(self), actions_view(batch@)),
    {
        let named = self.spec.aws_resources.identity.user_id.as_str().unicode_len() > 0;
        match self.mode {
            Mode::Apply => {
                if named {
                    self.identity_differs = !self.spec.aws_resources.identity.matches(&caller);
                } else {
                    self.spec.aws_resources.identity = caller;
                    self.identity_differs = false;
                }
                let exit = self.saved();
                self.leave(Phase::Identity, exit, pick)
            },
            _ => {
                if named {
                    self.identity_differs = !self.spec.aws_resources.identity.matches(&caller);
                    self.leave(Phase::Identity, no_actions(), pick)
                } else {
                    self.fail(Failure::UnknownIdentity)
                }
            },
        }
    }

    /// Takes the image that was resolved or created.
    fn take_image(&mut self, image: String, pick: usize) -> (batch: Vec<Action>)
        requires
            old(self).phase == Phase::Image || old(self).phase == Phase::CaptureImage,
        ensures
            old(self).advances(Event::Image(image), pick, *final(self), actions_view(batch@)),
    {
        match self.phase {
            Phase::Image => {
                self.spec.machine.image_id = image;
                let exit = self.saved();
                self.leave(Phase::Image, exit, pick)
            },
            _ => {
                self.image_id = image;
                self.leave(Phase::CaptureImage, no_actions(), pick)
            },
        }
    }

    /// Takes the encryption key that was created.
    fn take_key(&mut self, id: String, arn: String, pick: usize) -> (batch: Vec<Action>)
        requires
            old(self).phase == Phase::Key,
        ensures
            old(self).advances(Event::Key { id, arn }, pick, *final(self), actions_view(batch@)),
    {
        self.spec.aws_resources.kms_key_id = Some(id);
        self.spec.aws_resources.kms_key_arn = Some(arn);
        let exit = self.saved_and_shared();
        self.leave(Phase::Key, exit, pick)
    }

    /// Takes the outputs of the stack that was created.
    fn take_outputs(&mut self, outputs: Vec<Pair>, pick: usize) -> (batch: Vec<Action>)
        requires
            old(self).phase == Phase::Role || old(self).phase == Phase::Network || old(
                self,
            ).phase == Phase::Fleet,
        ensures
            old(self).advances(Event::Outputs(outputs), pick, *final(self), actions_view(batch@)),
    {
        match self.phase {
            Phase::Role => {
                match find_output(&outputs, "InstanceProfileArn") {
                    Some(arn) => {
                        self.spec.aws_resources.cloudformation_ec2_instance_profile_arn = Some(arn);
                        let exit = self.saved_and_shared();
                        self.leave(Phase::Role, exit, pick)
                    },
                    None => self.fail(Failure::MissingOutput),
                }
            },
            Phase::Network => {
                let vpc = find_output(&outputs, "VpcId");
                let group = find_output(&outputs, "SecurityGroupId");
                let subnets = find_output(&outputs, "PublicSubnetIds");
                match (vpc, group, subnets) {
                    (Some(vpc), Some(group), Some(subnets)) => {
                        let pieces = split_on(subnets.as_str(), ',');
                        self.spec.aws_resources.cloudformation_vpc_id = Some(vpc);
                        self.spec.aws_resources.cloudformation_vpc_security_group_id = Some(group);
                        self.spec.aws_resources.cloudformation_vpc_public_subnet_ids = Some(pieces);
                        let exit = self.saved_and_shared();
                        self.leave(Phase::Network, exit, pick)
                    },
                    _ => self.fail(Failure::MissingOutput),
                }
            },
            _ => {
                match find_output(&outputs, "AsgLogicalId") {
                    Some(group) => {
                        self.spec.aws_resources.cloudformation_asg_logical_id = Some(group);
                        let exit = self.saved();
                        self.leave(Phase::Fleet, exit, pick)
                    },
                    None => self.fail(Failure::MissingOutput),
                }
            },
        }
    }

    /// Takes the machines that were listed.
    fn take_fleet(&mut self, droplets: Vec<crate::action::Droplet>, pick: usize) -> (batch: Vec<
        Action,
    >)
        requires
            old(self).phase == Phase::Discover,
        ensures
            old(self).advances(Event::Fleet(droplets), pick, *final(self), actions_view(batch@)),
    {
        let found = is_fleet_discovered(&droplets, self.spec.machine.machines);
        self.droplets = droplets;
        match self.poller.observe(found) {
            Verdict::Wait { .. } => {
                let mut batch = no_actions();
                push_action(&mut batch, Action::Pace { secs: POLL_INTERVAL_SECS });
                push_action(
                    &mut batch,
                    Action::ListFleet {
                        group: text_of(&self.spec.aws_resources.cloudformation_asg_logical_id),
                    },
                );
                batch
            },
            _ => self.leave(Phase::Discover, no_actions(), pick),
        }
    }

    /// Takes the stable addresses that were listed: those of the fleet
    /// that is created, or the orphaned ones that are released.
    fn take_addresses(&mut self, addresses: Vec<StableAddress>, pick: usize) -> (batch: Vec<
        Action,
    >)
        requires
            old(self).phase == Phase::Addresses || old(self).phase == Phase::FindAddresses,
        ensures
            old(self).advances(
                Event::Addresses(addresses),
                pick,
                *final(self),
                actions_view(batch@),
            ),
    {
        match self.phase {
            Phase::Addresses => {
                let settled = are_addresses_settled(&addresses, self.spec.machine.machines);
                self.addresses = addresses;
                if settled {
                    self.leave(Phase::Addresses, no_actions(), pick)
                } else {
                    let mut batch = no_actions();
                    push_action(&mut batch, Action::Pace { secs: POLL_INTERVAL_SECS });
                    push_action(&mut batch, Action::ListAddresses { id: self.spec.id.clone() });
                    batch
                }
            },
            _ => {
                let mut exit = no_actions();
                let mut i: usize = 0;
                while i < addresses.len()
                    invariant
                        *self == *old(self),
                        self.phase == Phase::FindAddresses,
                        i <= addresses.len(),
                        all_allocated(addresses@.take(i as int)),
                        actions_view(exit@) == address_releases(addresses@.take(i as int)),
                    decreases addresses.len() - i,
                {
                    proof {
                        assert(addresses@.take(i + 1).drop_last() =~= addresses@.take(i as int));
                        assert(addresses@.take(i + 1).last() == addresses@[i as int]);
                    }
                    match &addresses[i].allocation_id {
                        Some(allocation_id) => {
                            push_action(
                                &mut exit,
                                Action::ReleaseAddress { allocation_id: allocation_id.clone() },
                            );
                            push_action(&mut exit, Action::Pace { secs: 2 });
                        },
                        None => {
                            assert(!all_allocated(addresses@)) by {
                                assert(addresses@[i as int].allocation_id is None);
                            }
                            return self.fail(Failure::MalformedAddress);
                        },
                    }
                    assert(all_allocated(addresses@.take(i + 1))) by {
                        assert forall|k: int| 0 <= k < i + 1 implies (#[trigger] addresses@.take(
                            i + 1,
                        )[k]).allocation_id is Some by {
                            if k < i {
                                assert(addresses@.take(i as int)[k] == addresses@[k]);
                            }
                        }
                    }
                    i += 1;
                }
                proof {
                    assert(addresses@.take(addresses.len() as int) =~= addresses@);
                }
                self.leave(Phase::FindAddresses, exit, pick)
            },
        }
    }

    /// Takes the orphaned volumes that were listed.
    fn take_volumes(&mut self, volumes: Vec<String>, pick: usize) -> (batch: Vec<Action>)
        requires
            old(self).phase == Phase::FindVolumes,
        ensures
            old(self).advances(Event::Volumes(volumes), pick, *final(self), actions_view(batch@)),
    {
        let mut exit = no_actions();
        let mut i: usize = 0;
        while i < volumes.len()
            invariant
                *self == *old(self),
                i <= volumes.len(),
                actions_view(exit@) == volume_deletes(volumes@.take(i as int)),
            decreases volumes.len() - i,
        {
            proof {
                assert(volumes@.take(i + 1).drop_last() =~= volumes@.take(i as int));
                assert(volumes@.take(i + 1).last() == volumes@[i as int]);
            }
            push_action(&mut exit, Action::DeleteVolume { volume_id: volumes[i].clone() });
            push_action(&mut exit, Action::Pace { secs: 2 });
            i += 1;
        }
        proof {
            assert(volumes@.take(volumes.len() as int) =~= volumes@);
        }
        self.leave(Phase::FindVolumes, exit, pick)
    }

    /// Takes the end of the init log of the current fleet member.
    fn take_remote_log(&mut self, log: String, pick: usize) -> (batch: Vec<Action>)
        requires
            old(self).phase == Phase::RemoteWait,
        ensures
            old(self).advances(Event::RemoteOutput(log), pick, *final(self), actions_view(batch@)),
    {
        if is_init_complete(log.as_str()) {
            let release = self.release_batch();
            if self.has_more_members() {
                self.cursor = self.cursor + 1;
                let mut batch = release;
                push_action(&mut batch, Action::RemoteTail { member: self.cursor });
                batch
            } else {
                self.leave(Phase::RemoteWait, release, pick)
            }
        } else {
            self.look_again()
        }
    }

    /// The actions that look at the init log of the current member again.
    fn look_again(&self) -> (batch: Vec<Action>)
        ensures
            actions_view(batch@) == Seq::<ActionView>::empty().push(
                ActionView::Pace { secs: REMOTE_INTERVAL_SECS },
            ).push(ActionView::RemoteTail { member: self.cursor }),
    {
        let mut batch = no_actions();
        push_action(&mut batch, Action::Pace { secs: REMOTE_INTERVAL_SECS });
        push_action(&mut batch, Action::RemoteTail { member: self.cursor });
        batch
    }

    /// Takes the outcome of the removal of credentials on the current
    /// fleet member.
    fn take_scrubbed(&mut self, failed: bool, pick: usize) -> (batch: Vec<Action>)
        requires
            old(self).phase == Phase::Scrub,
        ensures
            old(self).advances(
                if failed {
                    Event::RemoteFailed
                } else {
                    Event::Completed
                },
                pick,
                *final(self),
                actions_view(batch@),
            ),
    {
        let mut exit = no_actions();
        if failed {
            push_action(&mut exit, Action::Pace { secs: 100 });
        }
        if self.has_more_members() {
            self.cursor = self.cursor + 1;
            push_action(
                &mut exit,
                Action::RemoteCleanup { member: self.cursor, show_release: false },
            );
            exit
        } else {
            self.leave(Phase::Scrub, exit, pick)
        }
    }

    /// Takes the completion of a step that has nothing to report.
    fn take_completed(&mut self, pick: usize) -> (batch: Vec<Action>)
        requires
            !old(self).phase.is_terminal(),
            old(self).outcome(Event::Completed) is Leave,
            old(self).phase != Phase::Scrub,
        ensures
            old(self).advances(Event::Completed, pick, *final(self), actions_view(batch@)),
    {
        let phase = self.phase;
        self.leave(phase, no_actions(), pick)
    }

    /// Takes the operator's answer.
    fn take_answer(&mut self, yes: bool, pick: usize) -> (batch: Vec<Action>)
        requires
            old(self).phase == Phase::Confirm,
        ensures
            old(self).advances(Event::Answer(yes), pick, *final(self), actions_view(batch@)),
    {
        if yes {
            self.leave(Phase::Confirm, no_actions(), pick)
        } else {
            self.phase = Phase::Declined;
            no_actions()
        }
    }

    /// Takes the outcome of the last batch and hands out the next one,
    /// with `pick` to select the subnet of the fleet.
    pub fn advance_with(&mut self, event: Event, pick: usize) -> (batch: Vec<Action>)
        ensures
            old(self).advances(event, pick, *final(self), actions_view(batch@)),
    {
        if self.phase.terminal() {
            return no_actions();
        }
        let phase = self.phase;
        match event {
            Event::Failed => self.fail(Failure::Provider),
            Event::Completed => match phase {
                Phase::Scrub => self.take_scrubbed(false, pick),
                Phase::Storage
                | Phase::Credential
                | Phase::Publish
                | Phase::AwaitImage
                | Phase::DropCredentials
                | Phase::DropKey
                | Phase::RequestRoleDelete
                | Phase::DropFleet
                | Phase::DropNetwork
                | Phase::ConfirmRoleDelete
                | Phase::DropStorage
                | Phase::Scale => self.take_completed(pick),
                _ => self.fail(Failure::UnexpectedEvent),
            },
            Event::Answer(yes) => match phase {
                Phase::Confirm => self.take_answer(yes, pick),
                _ => self.fail(Failure::UnexpectedEvent),
            },
            Event::Caller(caller) => match phase {
                Phase::Identity => self.take_caller(caller, pick),
                _ => self.fail(Failure::UnexpectedEvent),
            },
            Event::Image(image) => match phase {
                Phase::Image | Phase::CaptureImage => self.take_image(image, pick),
                _ => self.fail(Failure::UnexpectedEvent),
            },
            Event::Key { id, arn } => match phase {
                Phase::Key => self.take_key(id, arn, pick),
                _ => self.fail(Failure::UnexpectedEvent),
            },
            Event::Outputs(outputs) => match phase {
                Phase::Role | Phase::Network | Phase::Fleet => self.take_outputs(outputs, pick),
                _ => self.fail(Failure::UnexpectedEvent),
            },
            Event::Fleet(droplets) => match phase {
                Phase::Discover => self.take_fleet(droplets, pick),
                _ => self.fail(Failure::UnexpectedEvent),
            },
            Event::Addresses(addresses) => match phase {
                Phase::Addresses | Phase::FindAddresses => self.take_addresses(addresses, pick),
                _ => self.fail(Failure::UnexpectedEvent),
            },
            Event::Volumes(volumes) => match phase {
                Phase::FindVolumes => self.take_volumes(volumes, pick),
                _ => self.fail(Failure::UnexpectedEvent),
            },
            Event::RemoteOutput(log) => match phase {
                Phase::RemoteWait => self.take_remote_log(log, pick),
                _ => self.fail(Failure::UnexpectedEvent),
            },
            Event::RemoteFailed => match phase {
                Phase::RemoteWait => self.look_again(),
                Phase::Scrub => self.take_scrubbed(true, pick),
                _ => self.fail(Failure::UnexpectedEvent),
            },
        }
    }
}

} // verus!
