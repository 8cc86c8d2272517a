//! What holds of every run.
//!
//! A run is taken here as the states it goes through, the events it takes
//! and the batches it hands out: whatever the collaborators answer, each
//! step of it follows the transition of the orchestrator.

use vstd::prelude::*;
use crate::action::{ActionView, Event, Resource, StableAddress, StackKind, StackTarget};
use crate::deployment::{Records, ResourceState, Resources};
use crate::fleet::{address_map, addresses_settled, law_settled_addresses_map_each_instance};
use crate::orchestrator::Orchestrator;
use crate::params::output_value;
use crate::text::pieces_of;
use crate::phase::{Mode, Phase, LAST_RANK};
use crate::transition::{address_releases, volume_deletes, Outcome};

verus! {

/// The states, events and batches of a run. The state `states[i]` takes
/// the event `events[i]`, hands out the batch `batches[i]` and becomes
/// `states[i + 1]`. The batch that the start of a run hands out is not among
/// them: it only asks who the caller is.
pub struct Run {
    pub states: Seq<Orchestrator>,
    pub events: Seq<Event>,
    pub picks: Seq<usize>,
    pub batches: Seq<Seq<ActionView>>,
}

impl Run {
    /// The step `i` of the run follows the transition of the orchestrator.
    pub open spec fn step_holds(self, i: int) -> bool {
        self.states[i].advances(self.events[i], self.picks[i], self.states[i + 1], self.batches[i])
    }

    /// Every step of the run follows the transition of the orchestrator.
    pub open spec fn is_valid(self) -> bool {
        &&& self.states.len() == self.events.len() + 1
        &&& self.picks.len() == self.events.len()
        &&& self.batches.len() == self.events.len()
        &&& forall|i: int| 0 <= i < self.events.len() ==> #[trigger] self.step_holds(i)
    }

    /// The state in which the run ends.
    pub open spec fn last(self) -> Orchestrator {
        self.states[self.states.len() - 1]
    }
}

/// The step after `from` that is taken is a later one, its condition holds
/// unless it is the end of the run, and no step between the two is one
/// whose condition holds: a run skips no step that it should take.
pub proof fn law_no_step_is_skipped(m: Orchestrator, from: Phase)
    requires
        !from.is_terminal(),
    ensures
        m.next_applicable(from).rank() > from.rank(),
        m.next_applicable(from) == Phase::Done || (!m.next_applicable(from).is_terminal()
            && m.applies(m.next_applicable(from))),
        forall|p: Phase|
            from.rank() < p.rank() < m.next_applicable(from).rank() ==> !#[trigger] m.applies(p),
    decreases LAST_RANK - from.rank(),
{
    let n = from.successor();
    if m.applies(n) {
        assert forall|p: Phase| from.rank() < p.rank() < n.rank() implies !#[trigger] m.applies(
            p,
        ) by {}
    } else {
        law_no_step_is_skipped(m, n);
        assert forall|p: Phase|
            from.rank() < p.rank() < m.next_applicable(from).rank() implies !#[trigger] m.applies(
            p,
        ) by {
            if p.rank() == n.rank() {
                assert(p == n);
            }
        }
    }
}

/// A resource is created exactly where it is absent: an apply takes the
/// step that creates a resource if and only if the resource is neither
/// recorded nor supplied from outside, and no other run takes it at all.
pub proof fn law_only_absent_resources_are_created(m: Orchestrator, phase: Phase)
    requires
        phase.creates() is Some,
    ensures
        m.applies(phase) <==> m.mode == Mode::Apply && m.spec.aws_resources.state_of(
            phase.creates()->0,
        ) == ResourceState::Absent,
{
}

/// A network is deleted exactly where it is the deployment's own and fully
/// recorded: a teardown never takes the step for a network that is skipped.
pub proof fn law_skipped_network_is_not_deleted(m: Orchestrator)
    ensures
        m.applies(Phase::DropNetwork) ==> m.spec.aws_resources.state_of(Resource::Network)
            == ResourceState::Created,
{
}

/// The deletion of orphaned volumes concerns no recorded resource.
pub proof fn lemma_volume_deletes_are_sweeps(volumes: Seq<String>)
    ensures
        forall|j: int|
            0 <= j < volume_deletes(volumes).len() ==> (#[trigger] volume_deletes(volumes)[j])
                is DeleteVolume || volume_deletes(volumes)[j] is Pace,
    decreases volumes.len(),
{
    if volumes.len() > 0 {
        lemma_volume_deletes_are_sweeps(volumes.drop_last());
    }
}

/// The release of orphaned addresses concerns no recorded resource.
pub proof fn lemma_address_releases_are_sweeps(addresses: Seq<StableAddress>)
    ensures
        forall|j: int|
            0 <= j < address_releases(addresses).len() ==> (#[trigger] address_releases(
                addresses,
            )[j]) is ReleaseAddress || address_releases(addresses)[j] is Pace,
    decreases addresses.len(),
{
    if addresses.len() > 0 {
        lemma_address_releases_are_sweeps(addresses.drop_last());
    }
}

/// An action that begins a step concerns a recorded resource only in the
/// step that creates or deletes that resource.
pub proof fn lemma_entry_concerns(m: Orchestrator, pick: usize, j: int)
    requires
        0 <= j < m.entry(pick).len(),
    ensures
        m.entry(pick)[j].concerns() == Some(Resource::Network) ==> m.phase == Phase::Network
            || m.phase == Phase::DropNetwork,
        m.entry(pick)[j].creates() is Some ==> m.phase.creates() == m.entry(pick)[j].creates(),
{
}

/// An action that ends a step, or with which a step asks again, concerns
/// no recorded resource.
pub proof fn lemma_exit_concerns_nothing(m: Orchestrator, event: Event, j: int)
    ensures
        0 <= j < m.exit(event).len() ==> m.exit(event)[j].concerns() is None,
        0 <= j < m.retry(event).len() ==> m.retry(event)[j].concerns() is None,
{
    match event {
        Event::Volumes(volumes) => {
            lemma_volume_deletes_are_sweeps(volumes@);
        },
        Event::Addresses(addresses) => {
            lemma_address_releases_are_sweeps(addresses@);
        },
        _ => {},
    }
}

/// One step of a run leaves a network alone that the caller supplied.
pub proof fn lemma_step_leaves_external_network(
    pre: Orchestrator,
    event: Event,
    pick: usize,
    post: Orchestrator,
    batch: Seq<ActionView>,
)
    requires
        pre.advances(event, pick, post, batch),
        pre.spec.aws_resources.network_is_external(),
    ensures
        post.spec.aws_resources.network_is_external(),
        forall|j: int| 0 <= j < batch.len() ==> (#[trigger] batch[j]).concerns() != Some(
            Resource::Network,
        ),
{
    match pre.outcome(event) {
        Outcome::Stay => {
            assert forall|j: int| 0 <= j < batch.len() implies (#[trigger] batch[j]).concerns()
                != Some(Resource::Network) by {
                lemma_exit_concerns_nothing(pre, event, j);
            }
        },
        Outcome::Leave => {
            let exit = pre.exit(event);
            if !pre.phase.is_terminal() {
                law_no_step_is_skipped(post, pre.phase);
            }
            assert forall|j: int| 0 <= j < batch.len() implies (#[trigger] batch[j]).concerns()
                != Some(Resource::Network) by {
                if j < exit.len() {
                    lemma_exit_concerns_nothing(pre, event, j);
                } else {
                    lemma_entry_concerns(post, pick, j - exit.len());
                }
            }
        },
        _ => {},
    }
}

/// The states of a run up to `i` keep a network that the caller supplied.
proof fn lemma_external_network_persists(run: Run, i: int)
    requires
        run.is_valid(),
        run.states[0].spec.aws_resources.network_is_external(),
        0 <= i < run.states.len(),
    ensures
        run.states[i].spec.aws_resources.network_is_external(),
    decreases i,
{
    if i > 0 {
        lemma_external_network_persists(run, i - 1);
        assert(run.step_holds(i - 1));
        lemma_step_leaves_external_network(
            run.states[i - 1],
            run.events[i - 1],
            run.picks[i - 1],
            run.states[i],
            run.batches[i - 1],
        );
    }
}

/// Where the caller supplied a network or subnets of their own, no action
/// of a run creates a network, waits for one or deletes one: whatever the
/// run is for, wherever it starts and whatever the collaborators answer.
pub proof fn law_external_network_is_left_alone(run: Run)
    requires
        run.is_valid(),
        run.states[0].spec.aws_resources.network_is_external(),
    ensures
        forall|i: int, j: int|
            0 <= i < run.batches.len() && 0 <= j < run.batches[i].len() ==> (
            #[trigger] run.batches[i][j]).concerns() != Some(Resource::Network),
{
    assert forall|i: int, j: int|
        0 <= i < run.batches.len() && 0 <= j < run.batches[i].len() implies (
    #[trigger] run.batches[i][j]).concerns() != Some(Resource::Network) by {
        lemma_external_network_persists(run, i);
        assert(run.step_holds(i));
        lemma_step_leaves_external_network(
            run.states[i],
            run.events[i],
            run.picks[i],
            run.states[i + 1],
            run.batches[i],
        );
    }
}

/// One step of a run on a document that records every resource creates
/// nothing and records nothing new.
pub proof fn lemma_step_creates_nothing(
    pre: Orchestrator,
    event: Event,
    pick: usize,
    post: Orchestrator,
    batch: Seq<ActionView>,
)
    requires
        pre.advances(event, pick, post, batch),
        pre.spec.aws_resources.all_recorded(),
        pre.phase.creates() is None,
    ensures
        post.spec.aws_resources.all_recorded(),
        post.phase.creates() is None,
        post.spec.aws_resources.records() == pre.spec.aws_resources.records(),
        pre.outcome(event) is Stay || pre.outcome(event) is Leave ==> pre.spec.same_request(
            post.spec,
        ),
        forall|j: int| 0 <= j < batch.len() ==> (#[trigger] batch[j]).creates() is None,
{
    match pre.outcome(event) {
        Outcome::Stay => {
            assert forall|j: int| 0 <= j < batch.len() implies (#[trigger] batch[j]).creates()
                is None by {
                lemma_exit_concerns_nothing(pre, event, j);
            }
        },
        Outcome::Leave => {
            let exit = pre.exit(event);
            if !pre.phase.is_terminal() {
                law_no_step_is_skipped(post, pre.phase);
            }
            assert(post.phase.creates() is None);
            assert forall|j: int| 0 <= j < batch.len() implies (#[trigger] batch[j]).creates()
                is None by {
                if j < exit.len() {
                    lemma_exit_concerns_nothing(pre, event, j);
                } else {
                    lemma_entry_concerns(post, pick, j - exit.len());
                }
            }
        },
        _ => {},
    }
}

/// The states of a run on a document that records every resource keep
/// the records.
proof fn lemma_records_persist(run: Run, i: int)
    requires
        run.is_valid(),
        run.states[0].spec.aws_resources.all_recorded(),
        run.states[0].phase.creates() is None,
        0 <= i < run.states.len(),
    ensures
        run.states[i].spec.aws_resources.all_recorded(),
        run.states[i].phase.creates() is None,
        run.states[i].spec.aws_resources.records() == run.states[0].spec.aws_resources.records(),
    decreases i,
{
    if i > 0 {
        lemma_records_persist(run, i - 1);
        assert(run.step_holds(i - 1));
        lemma_step_creates_nothing(
            run.states[i - 1],
            run.events[i - 1],
            run.picks[i - 1],
            run.states[i],
            run.batches[i - 1],
        );
    }
}

/// A run on a document that records every resource creates nothing: no
/// action of it creates a key or a stack, and what the document records
/// stays as it is, whatever the collaborators answer. The run is taken from
/// a step that is not itself in the middle of a creation, as every run is
/// that starts at its first step.
pub proof fn law_apply_is_idempotent(run: Run)
    requires
        run.is_valid(),
        run.states[0].spec.aws_resources.all_recorded(),
        run.states[0].phase.creates() is None,
    ensures
        forall|i: int, j: int|
            0 <= i < run.batches.len() && 0 <= j < run.batches[i].len() ==> (
            #[trigger] run.batches[i][j]).creates() is None,
        forall|i: int|
            0 <= i < run.states.len() ==> (#[trigger] run.states[i]).spec.aws_resources.records()
                == run.states[0].spec.aws_resources.records(),
{
    assert forall|i: int, j: int|
        0 <= i < run.batches.len() && 0 <= j < run.batches[i].len() implies (
    #[trigger] run.batches[i][j]).creates() is None by {
        lemma_records_persist(run, i);
        assert(run.step_holds(i));
        lemma_step_creates_nothing(
            run.states[i],
            run.events[i],
            run.picks[i],
            run.states[i + 1],
            run.batches[i],
        );
    }
    assert forall|i: int| 0 <= i < run.states.len() implies (
    #[trigger] run.states[i]).spec.aws_resources.records()
        == run.states[0].spec.aws_resources.records() by {
        lemma_records_persist(run, i);
    }
}

/// The document has nothing left to learn from an apply: it records every
/// resource, names its caller, and its image is resolved or there is
/// nothing to resolve it from.
pub open spec fn is_settled(m: Orchestrator) -> bool {
    &&& m.spec.aws_resources.all_recorded()
    &&& m.spec.aws_resources.identity.user_id@.len() > 0
    &&& (m.spec.machine.image_id@.len() > 0 || m.spec.machine.image_id_ssm_parameter@.len() == 0)
}

/// The states of a run on a settled document hold the same document.
proof fn lemma_settled_document_persists(run: Run, i: int)
    requires
        run.is_valid(),
        run.states[0].phase == Phase::Identity,
        run.states[0].mode == Mode::Apply,
        is_settled(run.states[0]),
        0 <= i < run.states.len(),
    ensures
        run.states[i].spec == run.states[0].spec,
        run.states[i].mode == Mode::Apply,
        run.states[i].phase != Phase::Image,
        run.states[i].phase.creates() is None,
    decreases i,
{
    if i > 0 {
        lemma_settled_document_persists(run, i - 1);
        assert(run.step_holds(i - 1));
        let pre = run.states[i - 1];
        let post = run.states[i];
        if pre.outcome(run.events[i - 1]) is Leave && !pre.phase.is_terminal() {
            law_no_step_is_skipped(post, pre.phase);
        }
    }
}

/// An apply of a settled document leaves the document as it is, whatever
/// the collaborators answer: what a run holds beside the document, the
/// discovered fleet among it, is all that changes.
pub proof fn law_settled_document_is_unchanged(run: Run)
    requires
        run.is_valid(),
        run.states[0].phase == Phase::Identity,
        run.states[0].mode == Mode::Apply,
        is_settled(run.states[0]),
    ensures
        forall|i: int| 0 <= i < run.states.len() ==> (#[trigger] run.states[i]).spec
            == run.states[0].spec,
{
    assert forall|i: int| 0 <= i < run.states.len() implies (#[trigger] run.states[i]).spec
        == run.states[0].spec by {
        lemma_settled_document_persists(run, i);
    }
}

/// What the provider answers when it is asked to create a resource.
pub struct World {
    pub key_id: Seq<char>,
    pub key_arn: Seq<char>,
    pub profile_arn: Seq<char>,
    pub vpc_id: Seq<char>,
    pub security_group: Seq<char>,
    /// The subnets of the network, joined with commas.
    pub subnets: Seq<char>,
    pub fleet_id: Seq<char>,
}

/// What a document records once every resource that it lacks has been
/// created in `world`: what it records already, and for each absent
/// resource what the provider answers.
pub open spec fn completed(res: Resources, world: World) -> Records {
    let now = res.records();
    Records {
        key_id: if res.is_absent(Resource::EncryptionKey) {
            Some(world.key_id)
        } else {
            now.key_id
        },
        key_arn: if res.is_absent(Resource::EncryptionKey) {
            Some(world.key_arn)
        } else {
            now.key_arn
        },
        profile_arn: if res.is_absent(Resource::Role) {
            Some(world.profile_arn)
        } else {
            now.profile_arn
        },
        vpc_id: if res.is_absent(Resource::Network) {
            Some(world.vpc_id)
        } else {
            now.vpc_id
        },
        security_group: if res.is_absent(Resource::Network) {
            Some(world.security_group)
        } else {
            now.security_group
        },
        subnets: if res.is_absent(Resource::Network) {
            Some(pieces_of(world.subnets, ','))
        } else {
            now.subnets
        },
        fleet_id: if res.is_absent(Resource::Fleet) {
            Some(world.fleet_id)
        } else {
            now.fleet_id
        },
    }
}

/// The event is what `world` answers to the step that awaits it.
pub open spec fn answers(world: World, phase: Phase, event: Event) -> bool {
    match (phase, event) {
        (Phase::Key, Event::Key { id, arn }) => id@ == world.key_id && arn@ == world.key_arn,
        (Phase::Role, Event::Outputs(outputs)) => output_value(
            outputs@,
            "InstanceProfileArn"@,
        ).deep_view() == Some(world.profile_arn),
        (Phase::Network, Event::Outputs(outputs)) => {
            &&& output_value(outputs@, "VpcId"@).deep_view() == Some(world.vpc_id)
            &&& output_value(outputs@, "SecurityGroupId"@).deep_view() == Some(
                world.security_group,
            )
            &&& output_value(outputs@, "PublicSubnetIds"@).deep_view() == Some(world.subnets)
        },
        (Phase::Fleet, Event::Outputs(outputs)) => output_value(
            outputs@,
            "AsgLogicalId"@,
        ).deep_view() == Some(world.fleet_id),
        _ => true,
    }
}

/// Every event of the run is what `world` answers.
pub open spec fn answered_by(run: Run, world: World) -> bool {
    forall|i: int|
        0 <= i < run.events.len() ==> answers(
            world,
            (#[trigger] run.states[i]).phase,
            run.events[i],
        )
}

/// A step that creates a resource is only taken while the resource is
/// absent.
pub open spec fn creates_only_absent(m: Orchestrator) -> bool {
    m.phase.creates() is Some ==> m.spec.aws_resources.is_absent(m.phase.creates()->0)
}

/// One step of a run creates only what is absent and keeps what is
/// recorded; and the step that follows the creation of a resource records
/// the resource, or ends the run.
pub proof fn lemma_step_creates_only_absent(
    pre: Orchestrator,
    event: Event,
    pick: usize,
    post: Orchestrator,
    batch: Seq<ActionView>,
)
    requires
        pre.advances(event, pick, post, batch),
        creates_only_absent(pre),
    ensures
        creates_only_absent(post),
        forall|j: int|
            0 <= j < batch.len() && (#[trigger] batch[j]).creates() is Some
                ==> post.spec.aws_resources.is_absent(batch[j].creates()->0)
                && post.phase.creates() == batch[j].creates(),
        forall|r: Resource|
            pre.spec.aws_resources.is_recorded(r) ==> #[trigger] post.spec.aws_resources.is_recorded(
                r,
            ),
        pre.phase.is_terminal() ==> post.phase.is_terminal(),
        pre.phase.creates() is Some ==> post.phase.is_terminal()
            || post.spec.aws_resources.is_recorded(pre.phase.creates()->0),
{
    match pre.outcome(event) {
        Outcome::Stay => {
            assert forall|j: int|
                0 <= j < batch.len() && (#[trigger] batch[j]).creates() is Some implies false by {
                lemma_exit_concerns_nothing(pre, event, j);
            }
        },
        Outcome::Leave => {
            let exit = pre.exit(event);
            if !pre.phase.is_terminal() {
                law_no_step_is_skipped(post, pre.phase);
            }
            assert(creates_only_absent(post));
            assert forall|j: int|
                0 <= j < batch.len() && (#[trigger] batch[j]).creates()
                    is Some implies post.spec.aws_resources.is_absent(batch[j].creates()->0)
                && post.phase.creates() == batch[j].creates() by {
                if j < exit.len() {
                    lemma_exit_concerns_nothing(pre, event, j);
                } else {
                    lemma_entry_concerns(post, pick, j - exit.len());
                }
            }
        },
        _ => {},
    }
}

/// The states of a run create only what is absent, and keep what the
/// document recorded at the start.
proof fn lemma_run_creates_only_absent(run: Run, i: int)
    requires
        run.is_valid(),
        creates_only_absent(run.states[0]),
        0 <= i < run.states.len(),
    ensures
        creates_only_absent(run.states[i]),
        forall|r: Resource|
            run.states[0].spec.aws_resources.is_recorded(r) ==> #[trigger] run.states[i].spec.aws_resources.is_recorded(
                r,
            ),
    decreases i,
{
    if i > 0 {
        lemma_run_creates_only_absent(run, i - 1);
        assert(run.step_holds(i - 1));
        lemma_step_creates_only_absent(
            run.states[i - 1],
            run.events[i - 1],
            run.picks[i - 1],
            run.states[i],
            run.batches[i - 1],
        );
    }
}

/// Once a resource is recorded or the run has ended, it stays so.
proof fn lemma_recorded_persists(run: Run, r: Resource, i: int, k: int)
    requires
        run.is_valid(),
        creates_only_absent(run.states[0]),
        0 <= i <= k < run.states.len(),
        run.states[i].phase.is_terminal() || run.states[i].spec.aws_resources.is_recorded(r),
    ensures
        run.states[k].phase.is_terminal() || run.states[k].spec.aws_resources.is_recorded(r),
    decreases k - i,
{
    if i < k {
        lemma_recorded_persists(run, r, i, k - 1);
        lemma_run_creates_only_absent(run, k - 1);
        assert(run.step_holds(k - 1));
        lemma_step_creates_only_absent(
            run.states[k - 1],
            run.events[k - 1],
            run.picks[k - 1],
            run.states[k],
            run.batches[k - 1],
        );
    }
}

/// The actions that begin a step create at most one resource.
pub proof fn lemma_entry_creates_once(m: Orchestrator, pick: usize, a: int, b: int)
    requires
        0 <= a < m.entry(pick).len(),
        0 <= b < m.entry(pick).len(),
        m.entry(pick)[a].creates() is Some,
        m.entry(pick)[b].creates() is Some,
    ensures
        a == b,
{
}

/// A later batch does not create what an earlier batch created.
proof fn lemma_no_second_creation(run: Run, i: int, j: int, k: int, l: int)
    requires
        run.is_valid(),
        creates_only_absent(run.states[0]),
        0 <= i < k < run.batches.len(),
        0 <= j < run.batches[i].len(),
        0 <= l < run.batches[k].len(),
        run.batches[i][j].creates() is Some,
    ensures
        run.batches[k][l].creates() != run.batches[i][j].creates(),
{
    let r = run.batches[i][j].creates()->0;
    lemma_run_creates_only_absent(run, i);
    assert(run.step_holds(i));
    lemma_step_creates_only_absent(
        run.states[i],
        run.events[i],
        run.picks[i],
        run.states[i + 1],
        run.batches[i],
    );
    assert(run.step_holds(i + 1));
    lemma_step_creates_only_absent(
        run.states[i + 1],
        run.events[i + 1],
        run.picks[i + 1],
        run.states[i + 2],
        run.batches[i + 1],
    );
    lemma_recorded_persists(run, r, i + 2, k + 1);
    lemma_run_creates_only_absent(run, k);
    assert(run.step_holds(k));
    lemma_step_creates_only_absent(
        run.states[k],
        run.events[k],
        run.picks[k],
        run.states[k + 1],
        run.batches[k],
    );
}

/// No resource is created twice, and none that the document records: an
/// action of a run creates a resource only while the document lacks it, and
/// no two actions of a run create the same resource, whatever the
/// collaborators answer.
pub proof fn law_nothing_is_created_twice(run: Run)
    requires
        run.is_valid(),
        creates_only_absent(run.states[0]),
    ensures
        forall|i: int, j: int|
            0 <= i < run.batches.len() && 0 <= j < run.batches[i].len() && (
            #[trigger] run.batches[i][j]).creates() is Some ==> run.states[i
                + 1].spec.aws_resources.is_absent(run.batches[i][j].creates()->0)
                && !run.states[0].spec.aws_resources.is_recorded(run.batches[i][j].creates()->0),
        forall|i: int, j: int, k: int, l: int|
            0 <= i < run.batches.len() && 0 <= j < run.batches[i].len() && 0 <= k
                < run.batches.len() && 0 <= l < run.batches[k].len() && (i != k || j != l) && (
            #[trigger] run.batches[i][j]).creates() is Some ==> (
            #[trigger] run.batches[k][l]).creates() != run.batches[i][j].creates(),
{
    assert forall|i: int, j: int|
        0 <= i < run.batches.len() && 0 <= j < run.batches[i].len() && (
        #[trigger] run.batches[i][j]).creates() is Some implies run.states[i
        + 1].spec.aws_resources.is_absent(run.batches[i][j].creates()->0)
        && !run.states[0].spec.aws_resources.is_recorded(run.batches[i][j].creates()->0) by {
        lemma_run_creates_only_absent(run, i);
        lemma_run_creates_only_absent(run, i + 1);
        assert(run.step_holds(i));
        lemma_step_creates_only_absent(
            run.states[i],
            run.events[i],
            run.picks[i],
            run.states[i + 1],
            run.batches[i],
        );
    }
    assert forall|i: int, j: int, k: int, l: int|
        0 <= i < run.batches.len() && 0 <= j < run.batches[i].len() && 0 <= k
            < run.batches.len() && 0 <= l < run.batches[k].len() && (i != k || j != l) && (
        #[trigger] run.batches[i][j]).creates() is Some implies (
    #[trigger] run.batches[k][l]).creates() != run.batches[i][j].creates() by {
        if run.batches[k][l].creates() is Some {
            if i < k {
                lemma_no_second_creation(run, i, j, k, l);
            } else if k < i {
                lemma_no_second_creation(run, k, l, i, j);
            } else {
                assert(run.step_holds(i));
                let pre = run.states[i];
                let post = run.states[i + 1];
                let exit = pre.exit(run.events[i]);
                lemma_exit_concerns_nothing(pre, run.events[i], j);
                lemma_exit_concerns_nothing(pre, run.events[i], l);
                if pre.outcome(run.events[i]) is Leave {
                    lemma_entry_creates_once(post, run.picks[i], j - exit.len(), l - exit.len());
                }
            }
        }
    }
}

/// One step of a run brings the document no further from what it records
/// in the end.
pub proof fn lemma_step_heads_for_completion(
    pre: Orchestrator,
    event: Event,
    pick: usize,
    post: Orchestrator,
    batch: Seq<ActionView>,
    world: World,
)
    requires
        pre.advances(event, pick, post, batch),
        creates_only_absent(pre),
        answers(world, pre.phase, event),
    ensures
        completed(post.spec.aws_resources, world) == completed(pre.spec.aws_resources, world),
{
}

/// The states of a run head for the same records from its first step to
/// its last.
proof fn lemma_run_heads_for_completion(run: Run, world: World, i: int)
    requires
        run.is_valid(),
        answered_by(run, world),
        creates_only_absent(run.states[0]),
        0 <= i < run.states.len(),
    ensures
        completed(run.states[i].spec.aws_resources, world) == completed(
            run.states[0].spec.aws_resources,
            world,
        ),
    decreases i,
{
    if i > 0 {
        lemma_run_heads_for_completion(run, world, i - 1);
        lemma_run_creates_only_absent(run, i - 1);
        assert(run.step_holds(i - 1));
        lemma_step_heads_for_completion(
            run.states[i - 1],
            run.events[i - 1],
            run.picks[i - 1],
            run.states[i],
            run.batches[i - 1],
            world,
        );
    }
}

/// The document lacks nothing: every resource is recorded, or supplied
/// from outside.
pub open spec fn lacks_nothing(res: Resources) -> bool {
    forall|r: Resource| !#[trigger] res.is_absent(r)
}

/// An apply that is interrupted and taken up again ends with the same
/// resources as one that is not. `first` is a run from its first step to
/// the end; it is interrupted after its step `k`, where the document is as
/// `first.states[k]` holds it; `again` is the run that starts from that
/// document. Where both reach a document that lacks nothing, with the
/// provider answering alike, both documents record the same resources.
pub proof fn law_apply_is_resumable(first: Run, k: int, again: Run, world: World)
    requires
        first.is_valid(),
        again.is_valid(),
        answered_by(first, world),
        answered_by(again, world),
        first.states[0].phase == Phase::Identity,
        again.states[0].phase == Phase::Identity,
        0 <= k < first.states.len(),
        again.states[0].spec.aws_resources.records()
            == first.states[k].spec.aws_resources.records(),
        again.states[0].spec.aws_resources.network_is_external()
            == first.states[k].spec.aws_resources.network_is_external(),
        lacks_nothing(first.last().spec.aws_resources),
        lacks_nothing(again.last().spec.aws_resources),
    ensures
        again.last().spec.aws_resources.records() == first.last().spec.aws_resources.records(),
{
    let end = first.states.len() - 1;
    let end_again = again.states.len() - 1;
    lemma_run_heads_for_completion(first, world, k);
    lemma_run_heads_for_completion(first, world, end);
    lemma_run_heads_for_completion(again, world, end_again);
    let a = first.states[k].spec.aws_resources;
    let b = again.states[0].spec.aws_resources;
    assert(completed(a, world) == completed(b, world)) by {
        assert(a.is_absent(Resource::EncryptionKey) == b.is_absent(Resource::EncryptionKey));
        assert(a.is_absent(Resource::Role) == b.is_absent(Resource::Role));
        assert(a.is_absent(Resource::Network) == b.is_absent(Resource::Network));
        assert(a.is_absent(Resource::Fleet) == b.is_absent(Resource::Fleet));
    }
    let x = first.last().spec.aws_resources;
    let y = again.last().spec.aws_resources;
    assert(!x.is_absent(Resource::EncryptionKey) && !x.is_absent(Resource::Role) && !x.is_absent(
        Resource::Network,
    ) && !x.is_absent(Resource::Fleet));
    assert(!y.is_absent(Resource::EncryptionKey) && !y.is_absent(Resource::Role) && !y.is_absent(
        Resource::Network,
    ) && !y.is_absent(Resource::Fleet));
}

/// The place of a teardown action in the order of a teardown: what has no
/// dependents first (the local key files, the key pair, the encryption key,
/// the request to delete the role), then the fleet, then the network that
/// the fleet is attached to, then the confirmation that the role is gone,
/// then the bucket, and last the sweep of what may have outlived its stack.
/// `None` for an action that deletes nothing.
pub open spec fn teardown_stage(action: ActionView) -> Option<nat> {
    match action {
        ActionView::RemoveLocalFile { .. } => Some(0),
        ActionView::DeleteKeyPair { .. } => Some(0),
        ActionView::ScheduleKeyDeletion { .. } => Some(0),
        ActionView::DeleteStack { kind, .. } => Some(
            match kind {
                StackKind::Ec2InstanceRole => 0,
                StackKind::Asg => 1,
                StackKind::Vpc => 2,
            },
        ),
        ActionView::PollStack { kind, target, .. } => if target == StackTarget::DeleteComplete {
            Some(
                match kind {
                    StackKind::Asg => 1,
                    StackKind::Vpc => 2,
                    StackKind::Ec2InstanceRole => 3,
                },
            )
        } else {
            None
        },
        ActionView::EmptyBucket { .. } => Some(4),
        ActionView::DeleteBucket { .. } => Some(4),
        ActionView::ListOrphanVolumes { .. } => Some(5),
        ActionView::DeleteVolume { .. } => Some(5),
        ActionView::ReleaseAddress { .. } => Some(5),
        _ => None,
    }
}

/// The place in the order of a teardown that a run has come to.
pub open spec fn stage_of(phase: Phase) -> nat {
    match phase {
        Phase::DropFleet => 1,
        Phase::DropNetwork => 2,
        Phase::ConfirmRoleDelete => 3,
        Phase::DropStorage => 4,
        _ => if phase.rank() <= 18 {
            0
        } else {
            5
        },
    }
}

/// The teardown actions that begin a step are of the stage of the step.
pub proof fn lemma_entry_stage(m: Orchestrator, pick: usize, j: int)
    requires
        0 <= j < m.entry(pick).len(),
    ensures
        teardown_stage(m.entry(pick)[j]) is Some ==> teardown_stage(m.entry(pick)[j])->0
            == stage_of(m.phase),
{
}

/// The teardown actions that end a step, or with which a step asks again,
/// are of the stage of the step.
pub proof fn lemma_exit_stage(m: Orchestrator, event: Event, j: int)
    ensures
        0 <= j < m.exit(event).len() && teardown_stage(m.exit(event)[j]) is Some
            ==> teardown_stage(m.exit(event)[j])->0 == stage_of(m.phase),
        0 <= j < m.retry(event).len() ==> teardown_stage(m.retry(event)[j]) is None,
{
    match event {
        Event::Volumes(volumes) => {
            lemma_volume_deletes_are_sweeps(volumes@);
        },
        Event::Addresses(addresses) => {
            lemma_address_releases_are_sweeps(addresses@);
        },
        _ => {},
    }
}

/// One step of a run does not go back in the order of a teardown, and the
/// teardown actions of its batch are in order.
pub proof fn lemma_step_is_ordered(
    pre: Orchestrator,
    event: Event,
    pick: usize,
    post: Orchestrator,
    batch: Seq<ActionView>,
)
    requires
        pre.advances(event, pick, post, batch),
    ensures
        stage_of(pre.phase) <= stage_of(post.phase),
        forall|a: int|
            0 <= a < batch.len() && teardown_stage(#[trigger] batch[a]) is Some ==> stage_of(
                pre.phase,
            ) <= teardown_stage(batch[a])->0 <= stage_of(post.phase),
        forall|a: int, b: int|
            0 <= a < b < batch.len() && teardown_stage(#[trigger] batch[a]) is Some
                && teardown_stage(#[trigger] batch[b]) is Some ==> teardown_stage(batch[a])->0
                <= teardown_stage(batch[b])->0,
{
    match pre.outcome(event) {
        Outcome::Stay => {
            assert forall|a: int| 0 <= a < batch.len() implies teardown_stage(
                #[trigger] batch[a],
            ) is None by {
                lemma_exit_stage(pre, event, a);
            }
        },
        Outcome::Leave => {
            let exit = pre.exit(event);
            if !pre.phase.is_terminal() {
                law_no_step_is_skipped(post, pre.phase);
            }
            assert(stage_of(pre.phase) <= stage_of(post.phase));
            assert forall|a: int|
                0 <= a < batch.len() && teardown_stage(#[trigger] batch[a])
                    is Some implies teardown_stage(batch[a])->0 == (if a < exit.len() {
                stage_of(pre.phase)
            } else {
                stage_of(post.phase)
            }) by {
                if a < exit.len() {
                    lemma_exit_stage(pre, event, a);
                } else {
                    lemma_entry_stage(post, pick, a - exit.len());
                }
            }
        },
        _ => {},
    }
}

/// A run does not go back in the order of a teardown.
proof fn lemma_stages_rise(run: Run, i: int, j: int)
    requires
        run.is_valid(),
        0 <= i <= j < run.states.len(),
    ensures
        stage_of(run.states[i].phase) <= stage_of(run.states[j].phase),
    decreases j - i,
{
    if i < j {
        lemma_stages_rise(run, i, j - 1);
        assert(run.step_holds(j - 1));
        lemma_step_is_ordered(
            run.states[j - 1],
            run.events[j - 1],
            run.picks[j - 1],
            run.states[j],
            run.batches[j - 1],
        );
    }
}

/// The delete calls of a run come in the order of a teardown: of two
/// teardown actions the earlier one is of no later stage. So the fleet goes
/// before the network, the network before the role is confirmed gone, that
/// before the bucket, and the sweep of orphaned volumes and addresses comes
/// after every other delete call. This holds of every run, whatever the
/// document records and whatever failed in an earlier run; a run that fails
/// hands out nothing more.
pub proof fn law_teardown_is_ordered(run: Run)
    requires
        run.is_valid(),
    ensures
        forall|i: int, a: int, j: int, b: int|
            0 <= i <= j < run.batches.len() && 0 <= a < run.batches[i].len() && 0 <= b
                < run.batches[j].len() && (i < j || a < b) && teardown_stage(
                #[trigger] run.batches[i][a],
            ) is Some && teardown_stage(#[trigger] run.batches[j][b]) is Some ==> teardown_stage(
                run.batches[i][a],
            )->0 <= teardown_stage(run.batches[j][b])->0,
{
    assert forall|i: int, a: int, j: int, b: int|
        0 <= i <= j < run.batches.len() && 0 <= a < run.batches[i].len() && 0 <= b
            < run.batches[j].len() && (i < j || a < b) && teardown_stage(
            #[trigger] run.batches[i][a],
        ) is Some && teardown_stage(#[trigger] run.batches[j][b]) is Some implies teardown_stage(
        run.batches[i][a],
    )->0 <= teardown_stage(run.batches[j][b])->0 by {
        assert(run.step_holds(i));
        assert(run.step_holds(j));
        lemma_step_is_ordered(
            run.states[i],
            run.events[i],
            run.picks[i],
            run.states[i + 1],
            run.batches[i],
        );
        lemma_step_is_ordered(
            run.states[j],
            run.events[j],
            run.picks[j],
            run.states[j + 1],
            run.batches[j],
        );
        if i < j {
            lemma_stages_rise(run, i + 1, j);
        }
    }
}

/// An action that begins a step is performed on a fleet member only in
/// the steps that go through the fleet, and then on its first member.
pub proof fn lemma_entry_members(m: Orchestrator, pick: usize, j: int)
    requires
        0 <= j < m.entry(pick).len(),
    ensures
        m.entry(pick)[j].member() is Some ==> m.entry(pick)[j].member() == Some(0usize) && (
        m.phase == Phase::RemoteWait || m.phase == Phase::Scrub),
{
}

/// An action that ends a step, or with which a step asks again, is
/// performed on the fleet member that the step works on, or on the next.
pub proof fn lemma_exit_members(m: Orchestrator, event: Event, j: int)
    ensures
        0 <= j < m.exit(event).len() && m.exit(event)[j].member() is Some ==> m.phase
            == Phase::RemoteWait && m.exit(event)[j].member() == Some(m.cursor),
        0 <= j < m.retry(event).len() && m.retry(event)[j].member() is Some ==> (m.phase
            == Phase::RemoteWait || m.phase == Phase::Scrub) && (m.retry(event)[j].member()
            == Some(m.cursor) || m.retry(event)[j].member() == Some(m.next_cursor(event))),
{
    match event {
        Event::Volumes(volumes) => {
            lemma_volume_deletes_are_sweeps(volumes@);
        },
        Event::Addresses(addresses) => {
            lemma_address_releases_are_sweeps(addresses@);
        },
        _ => {},
    }
}

/// A step of a run keeps the state consistent, and every action that is
/// performed on a fleet member names a member of the fleet as the run
/// holds it.
pub proof fn law_steps_keep_consistency(
    pre: Orchestrator,
    event: Event,
    pick: usize,
    post: Orchestrator,
    batch: Seq<ActionView>,
)
    requires
        pre.advances(event, pick, post, batch),
        pre.is_consistent(),
    ensures
        post.is_consistent(),
        forall|j: int|
            0 <= j < batch.len() && (#[trigger] batch[j]).member() is Some ==> batch[j].member()->0
                < post.fleet@.len(),
{
    match pre.outcome(event) {
        Outcome::Stay => {
            assert forall|j: int|
                0 <= j < batch.len() && (#[trigger] batch[j]).member()
                    is Some implies batch[j].member()->0 < post.fleet@.len() by {
                lemma_exit_members(pre, event, j);
            }
        },
        Outcome::Leave => {
            law_no_step_is_skipped(post, pre.phase);
            let n = post.next_applicable(pre.phase);
            assert(11 <= n.rank() <= 15 ==> pre.phase.rank() >= 11 || n == Phase::Publish) by {
                if pre.phase.rank() < 11 && n.rank() > 11 {
                    assert(post.applies(n));
                    assert(!post.applies(Phase::Publish));
                }
            }
            let exit = pre.exit(event);
            assert forall|j: int|
                0 <= j < batch.len() && (#[trigger] batch[j]).member()
                    is Some implies batch[j].member()->0 < post.fleet@.len() by {
                if j < exit.len() {
                    lemma_exit_members(pre, event, j);
                } else {
                    lemma_entry_members(post, pick, j - exit.len());
                }
            }
        },
        _ => {},
    }
}

/// The document records everything that an apply creates: its keys, its
/// stacks with their names, and at least one machine; and the network is
/// its own.
pub open spec fn is_fully_created(m: Orchestrator) -> bool {
    let res = m.spec.aws_resources;
    &&& !res.network_is_external()
    &&& res.kms_key_id is Some
    &&& res.kms_key_arn is Some
    &&& res.cloudformation_ec2_instance_role is Some
    &&& res.cloudformation_ec2_instance_profile_arn is Some
    &&& res.cloudformation_vpc is Some
    &&& res.cloudformation_vpc_id is Some
    &&& res.cloudformation_vpc_security_group_id is Some
    &&& res.cloudformation_vpc_public_subnet_ids is Some
    &&& res.cloudformation_asg is Some
    &&& res.cloudformation_asg_logical_id is Some
    &&& m.spec.machine.machines > 0
}

/// The teardown of a deployment that is fully created takes every step:
/// the key pair and the encryption key, the request to delete the role,
/// the fleet, the network, the confirmation that the role is gone, and
/// the sweep of orphaned volumes and addresses; and the bucket exactly
/// where it is asked for. None of them lacks what it needs.
pub proof fn law_full_teardown_takes_every_step(m: Orchestrator)
    requires
        m.tears_down(),
        is_fully_created(m),
    ensures
        forall|p: Phase|
            16 <= p.rank() <= 24 && p != Phase::DropStorage ==> #[trigger] m.applies(p),
        m.applies(Phase::DropStorage) == m.wipes_storage(),
        forall|p: Phase| 16 <= p.rank() <= 24 ==> #[trigger] m.obstacle(p) is None,
{
}

/// Only an apply changes the document, and only up to the creation of the
/// fleet: a teardown, a pause and a resume leave it as it is, and so do the
/// steps of an apply that follow the creation of the fleet.
pub proof fn law_document_changes_only_while_creating(
    pre: Orchestrator,
    event: Event,
    pick: usize,
    post: Orchestrator,
    batch: Seq<ActionView>,
)
    requires
        pre.advances(event, pick, post, batch),
        pre.is_consistent(),
        pre.mode != Mode::Apply || pre.phase.rank() >= 9,
    ensures
        post.spec == pre.spec,
{
}

/// What a step records is written first: where a step changes the
/// document, the batch that it hands out begins by writing the document,
/// before anything else is asked of a collaborator.
pub proof fn law_changes_are_written_first(
    pre: Orchestrator,
    event: Event,
    pick: usize,
    post: Orchestrator,
    batch: Seq<ActionView>,
)
    requires
        pre.advances(event, pick, post, batch),
        post.spec != pre.spec,
    ensures
        batch.len() > 0,
        batch[0] == ActionView::Persist,
{
}

/// An apply with stable addresses goes on from the wait for them only when
/// there are exactly as many addresses as machines are asked for, each
/// attached to an instance of its own. The fleet that is then published
/// maps exactly that many instances to their stable addresses.
pub proof fn law_stable_addresses_settle_first(
    pre: Orchestrator,
    event: Event,
    pick: usize,
    post: Orchestrator,
    batch: Seq<ActionView>,
)
    requires
        pre.advances(event, pick, post, batch),
        pre.phase == Phase::Addresses,
        post.phase != Phase::Addresses,
        !(post.phase is Failed),
    ensures
        addresses_settled(post.addresses@, pre.spec.machine.machines),
        post.phase == Phase::Publish ==> address_map(post.addresses@).dom().finite()
            && address_map(post.addresses@).dom().len() == pre.spec.machine.machines,
{
    if post.phase == Phase::Publish {
        law_settled_addresses_map_each_instance(post.addresses@);
    }
}

/// A run that has failed, stopped or come to its end hands out nothing
/// more and stays as it is.
pub proof fn law_ended_run_is_silent(
    pre: Orchestrator,
    event: Event,
    pick: usize,
    post: Orchestrator,
    batch: Seq<ActionView>,
)
    requires
        pre.advances(event, pick, post, batch),
        pre.phase.is_terminal(),
    ensures
        post == pre,
        batch.len() == 0,
{
}

/// Whatever a step is waiting for, a failure of a collaborator ends the
/// run at once with the document as it was recorded last.
pub proof fn law_failure_is_fatal(
    pre: Orchestrator,
    pick: usize,
    post: Orchestrator,
    batch: Seq<ActionView>,
)
    requires
        pre.advances(Event::Failed, pick, post, batch),
        !pre.phase.is_terminal(),
    ensures
        post.phase == Phase::Failed(crate::phase::Failure::Provider),
        post.spec == pre.spec,
        batch.len() == 0,
{
}

} // verus!
