//! Discovery of the machines of a fleet and of their addresses.

use vstd::prelude::*;
use vstd::string::*;
use crate::action::{Droplet, StableAddress};
use crate::text::{contains_text, occurs_in, same_text};

verus! {

/// The text that the init script prints when it is done. The remote log is
/// searched for exactly this.
pub const INIT_SCRIPT_COMPLETE_MSG: &'static str = "INIT SCRIPT COMPLETE";

/// A machine of the fleet with the address under which it is reached.
#[derive(Clone, Debug, PartialEq, Eq)]
pub struct FleetMember {
    pub instance_id: String,
    pub instance_state: String,
    pub availability_zone: String,
    /// The stable address attached to the machine, or else its ephemeral
    /// public address.
    pub public_ip: String,
}

/// Every machine has a public address.
pub open spec fn all_addressed(droplets: Seq<Droplet>) -> bool {
    forall|i: int| 0 <= i < droplets.len() ==> (#[trigger] droplets[i]).public_ipv4@.len() > 0
}

/// The fleet is discovered: at least `target` machines, each with a public
/// address.
pub open spec fn fleet_discovered(droplets: Seq<Droplet>, target: u32) -> bool {
    droplets.len() >= target && all_addressed(droplets)
}

/// Whether the fleet is discovered.
pub fn is_fleet_discovered(droplets: &Vec<Droplet>, target: u32) -> (r: bool)
    ensures
        r == fleet_discovered(droplets@, target),
{
    if droplets.len() < target as usize {
        return false;
    }
    let mut i: usize = 0;
    while i < droplets.len()
        invariant
            i <= droplets.len(),
            forall|j: int| 0 <= j < i ==> (#[trigger] droplets[j]).public_ipv4@.len() > 0,
        decreases droplets.len() - i,
    {
        if droplets[i].public_ipv4.as_str().unicode_len() == 0 {
            return false;
        }
        i += 1;
    }
    true
}

/// Every address is attached to an instance.
pub open spec fn all_attached(addresses: Seq<StableAddress>) -> bool {
    forall|i: int| 0 <= i < addresses.len() ==> (#[trigger] addresses[i]).instance_id is Some
}

/// No two addresses are attached to the same instance.
pub open spec fn distinct_instances(addresses: Seq<StableAddress>) -> bool {
    forall|i: int, j: int|
        0 <= i < j < addresses.len() && (#[trigger] addresses[i]).instance_id is Some && (
        #[trigger] addresses[j]).instance_id is Some ==> addresses[i].instance_id->0@
            != addresses[j].instance_id->0@
}

/// The stable addresses are settled: exactly `target` of them, each
/// attached to an instance of its own.
pub open spec fn addresses_settled(addresses: Seq<StableAddress>, target: u32) -> bool {
    addresses.len() == target && all_attached(addresses) && distinct_instances(addresses)
}

/// Whether the address at `at` is attached to another instance than every
/// address before it.
fn differs_from_earlier(addresses: &Vec<StableAddress>, at: usize) -> (r: bool)
    requires
        at < addresses.len(),
        addresses[at as int].instance_id is Some,
    ensures
        r == (forall|i: int|
            0 <= i < at && (#[trigger] addresses[i]).instance_id is Some
                ==> addresses[i].instance_id->0@ != addresses[at as int].instance_id->0@),
{
    let mut i: usize = 0;
    while i < at
        invariant
            i <= at < addresses.len(),
            addresses[at as int].instance_id is Some,
            forall|k: int|
                0 <= k < i && (#[trigger] addresses[k]).instance_id is Some
                    ==> addresses[k].instance_id->0@ != addresses[at as int].instance_id->0@,
        decreases at - i,
    {
        match (&addresses[i].instance_id, &addresses[at].instance_id) {
            (Some(a), Some(b)) => {
                if same_text(a.as_str(), b.as_str()) {
                    return false;
                }
            },
            _ => {},
        }
        i += 1;
    }
    true
}

/// Whether the stable addresses are settled.
pub fn are_addresses_settled(addresses: &Vec<StableAddress>, target: u32) -> (r: bool)
    ensures
        r == addresses_settled(addresses@, target),
{
    if addresses.len() != target as usize {
        return false;
    }
    let mut j: usize = 0;
    while j < addresses.len()
        invariant
            j <= addresses.len(),
            forall|k: int| 0 <= k < j ==> (#[trigger] addresses[k]).instance_id is Some,
            forall|a: int, b: int|
                0 <= a < b < j && (#[trigger] addresses[a]).instance_id is Some && (
                #[trigger] addresses[b]).instance_id is Some ==> addresses[a].instance_id->0@
                    != addresses[b].instance_id->0@,
        decreases addresses.len() - j,
    {
        if addresses[j].instance_id.is_none() {
            return false;
        }
        if !differs_from_earlier(addresses, j) {
            return false;
        }
        j += 1;
    }
    true
}

/// Every address has an allocation id and a public address.
pub open spec fn addresses_complete(addresses: Seq<StableAddress>) -> bool {
    forall|i: int|
        0 <= i < addresses.len() ==> (#[trigger] addresses[i]).allocation_id is Some
            && addresses[i].public_ip is Some
}

/// Whether every address has an allocation id and a public address.
pub fn are_addresses_complete(addresses: &Vec<StableAddress>) -> (r: bool)
    ensures
        r == addresses_complete(addresses@),
{
    let mut i: usize = 0;
    while i < addresses.len()
        invariant
            i <= addresses.len(),
            forall|k: int|
                0 <= k < i ==> (#[trigger] addresses[k]).allocation_id is Some
                    && addresses[k].public_ip is Some,
        decreases addresses.len() - i,
    {
        if addresses[i].allocation_id.is_none() || addresses[i].public_ip.is_none() {
            return false;
        }
        i += 1;
    }
    true
}

/// The stable address of each instance that has one. Where several
/// addresses name one instance the last one counts.
pub open spec fn address_map(addresses: Seq<StableAddress>) -> Map<Seq<char>, Seq<char>>
    decreases addresses.len(),
{
    if addresses.len() == 0 {
        Map::empty()
    } else {
        let rest = address_map(addresses.drop_last());
        let last = addresses.last();
        if last.instance_id is Some && last.public_ip is Some {
            rest.insert(last.instance_id->0@, last.public_ip->0@)
        } else {
            rest
        }
    }
}

/// Settled addresses give each instance its own: the map from instance to
/// stable address has as many entries as there are addresses, one for each
/// instance that an address is attached to, and it holds that address.
pub proof fn law_settled_addresses_map_each_instance(addresses: Seq<StableAddress>)
    requires
        all_attached(addresses),
        distinct_instances(addresses),
        addresses_complete(addresses),
    ensures
        address_map(addresses).dom().finite(),
        address_map(addresses).dom().len() == addresses.len(),
        forall|i: int|
            0 <= i < addresses.len() ==> address_map(addresses).contains_key(
                (#[trigger] addresses[i]).instance_id->0@,
            ) && address_map(addresses)[addresses[i].instance_id->0@]
                == addresses[i].public_ip->0@,
        forall|k: Seq<char>| #[trigger]
            address_map(addresses).contains_key(k) ==> exists|i: int|
                0 <= i < addresses.len() && (#[trigger] addresses[i]).instance_id->0@ == k,
    decreases addresses.len(),
{
    if addresses.len() > 0 {
        let rest = addresses.drop_last();
        let last = addresses.last();
        assert forall|i: int| 0 <= i < rest.len() implies (#[trigger] rest[i]).instance_id
            is Some by {
            assert(rest[i] == addresses[i]);
        }
        assert forall|i: int, j: int|
            0 <= i < j < rest.len() && (#[trigger] rest[i]).instance_id is Some && (
            #[trigger] rest[j]).instance_id is Some implies rest[i].instance_id->0@
            != rest[j].instance_id->0@ by {
            assert(rest[i] == addresses[i]);
            assert(rest[j] == addresses[j]);
        }
        assert forall|i: int| 0 <= i < rest.len() implies (#[trigger] rest[i]).allocation_id
            is Some && rest[i].public_ip is Some by {
            assert(rest[i] == addresses[i]);
        }
        law_settled_addresses_map_each_instance(rest);
        let before = address_map(rest);
        let key = last.instance_id->0@;
        assert(addresses[addresses.len() - 1] == last);
        assert(!before.contains_key(key)) by {
            if before.contains_key(key) {
                let i = choose|i: int|
                    0 <= i < rest.len() && (#[trigger] rest[i]).instance_id->0@ == key;
                assert(rest[i] == addresses[i]);
            }
        }
        assert(address_map(addresses) == before.insert(key, last.public_ip->0@));
        assert forall|i: int| 0 <= i < addresses.len() implies address_map(addresses).contains_key(
            (#[trigger] addresses[i]).instance_id->0@,
        ) && address_map(addresses)[addresses[i].instance_id->0@]
            == addresses[i].public_ip->0@ by {
            if i < rest.len() {
                assert(rest[i] == addresses[i]);
            }
        }
        assert forall|k: Seq<char>| #[trigger]
            address_map(addresses).contains_key(k) implies exists|i: int|
            0 <= i < addresses.len() && (#[trigger] addresses[i]).instance_id->0@ == k by {
            if k == key {
                assert(addresses[addresses.len() - 1].instance_id->0@ == k);
            } else {
                let i = choose|i: int|
                    0 <= i < rest.len() && (#[trigger] rest[i]).instance_id->0@ == k;
                assert(rest[i] == addresses[i]);
            }
        }
    }
}

/// The address under which a machine is reached: its stable address where
/// it has one, else its ephemeral public address.
pub open spec fn effective_address(droplet: Droplet, addresses: Seq<StableAddress>) -> Seq<char> {
    let stable = address_map(addresses);
    if stable.contains_key(droplet.instance_id@) {
        stable[droplet.instance_id@]
    } else {
        droplet.public_ipv4@
    }
}

/// `member` describes the machine `droplet` of a fleet with these stable
/// addresses.
pub open spec fn describes(
    member: FleetMember,
    droplet: Droplet,
    addresses: Seq<StableAddress>,
) -> bool {
    &&& member.instance_id@ == droplet.instance_id@
    &&& member.instance_state@ == droplet.instance_state_name@
    &&& member.availability_zone@ == droplet.availability_zone@
    &&& member.public_ip@ == effective_address(droplet, addresses)
}

/// `fleet` lists the machines `droplets`, in order, each with its effective
/// address.
pub open spec fn is_fleet_of(
    fleet: Seq<FleetMember>,
    droplets: Seq<Droplet>,
    addresses: Seq<StableAddress>,
) -> bool {
    &&& fleet.len() == droplets.len()
    &&& forall|i: int| 0 <= i < fleet.len() ==> describes(#[trigger] fleet[i], droplets[i], addresses)
}

/// Looks up the stable address of an instance.
pub fn stable_address_of(addresses: &Vec<StableAddress>, instance_id: &str) -> (ip: Option<String>)
    ensures
        ip is Some <==> address_map(addresses@).contains_key(instance_id@),
        ip is Some ==> ip->0@ == address_map(addresses@)[instance_id@],
{
    let mut i: usize = addresses.len();
    assert(addresses@.take(i as int) =~= addresses@);
    while i > 0
        invariant
            i <= addresses.len(),
            address_map(addresses@).contains_key(instance_id@) == address_map(
                addresses@.take(i as int),
            ).contains_key(instance_id@),
            address_map(addresses@).contains_key(instance_id@) ==> address_map(
                addresses@,
            )[instance_id@] == address_map(addresses@.take(i as int))[instance_id@],
        decreases i,
    {
        let ghost head = addresses@.take(i as int);
        proof {
            assert(head.last() == addresses@[i - 1]);
            assert(head.drop_last() =~= addresses@.take(i - 1));
        }
        match (&addresses[i - 1].instance_id, &addresses[i - 1].public_ip) {
            (Some(instance), Some(public_ip)) => {
                if same_text(instance.as_str(), instance_id) {
                    return Some(public_ip.clone());
                }
            },
            _ => {},
        }
        i -= 1;
    }
    None
}

/// Lists the machines with their effective addresses.
pub fn assemble_fleet(droplets: &Vec<Droplet>, addresses: &Vec<StableAddress>) -> (fleet: Vec<
    FleetMember,
>)
    ensures
        is_fleet_of(fleet@, droplets@, addresses@),
{
    let mut fleet: Vec<FleetMember> = Vec::new();
    let mut i: usize = 0;
    while i < droplets.len()
        invariant
            i <= droplets.len(),
            fleet.len() == i,
            forall|k: int| 0 <= k < i ==> describes(#[trigger] fleet[k], droplets[k], addresses@),
        decreases droplets.len() - i,
    {
        let d = &droplets[i];
        let public_ip = match stable_address_of(addresses, d.instance_id.as_str()) {
            Some(ip) => ip,
            None => d.public_ipv4.clone(),
        };
        fleet.push(
            FleetMember {
                instance_id: d.instance_id.clone(),
                instance_state: d.instance_state_name.clone(),
                availability_zone: d.availability_zone.clone(),
                public_ip,
            },
        );
        i += 1;
    }
    fleet
}

/// The init script of a machine is done: its log holds the completion
/// message.
pub open spec fn init_complete(log: Seq<char>) -> bool {
    occurs_in(INIT_SCRIPT_COMPLETE_MSG@, log)
}

/// Whether the log of a machine shows that its init script is done.
pub fn is_init_complete(log: &str) -> (r: bool)
    ensures
        r == init_complete(log@),
{
    contains_text(log, INIT_SCRIPT_COMPLETE_MSG)
}

} // verus!
