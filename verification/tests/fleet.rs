use machine_rs::action::{Droplet, StableAddress};
use machine_rs::fleet::{
    are_addresses_complete, are_addresses_settled, assemble_fleet, is_fleet_discovered,
    is_init_complete, stable_address_of, FleetMember, INIT_SCRIPT_COMPLETE_MSG,
};

fn droplet(id: &str, ip: &str) -> Droplet {
    Droplet {
        instance_id: id.to_string(),
        instance_state_name: String::from("running"),
        availability_zone: String::from("us-east-1a"),
        public_ipv4: ip.to_string(),
    }
}

fn address(alloc: &str, instance: Option<&str>, ip: &str) -> StableAddress {
    StableAddress {
        allocation_id: Some(alloc.to_string()),
        instance_id: instance.map(|s| s.to_string()),
        public_ip: Some(ip.to_string()),
    }
}

#[test]
fn a_fleet_is_discovered_when_every_machine_has_an_address() {
    let two = vec![droplet("i-1", "1.1.1.1"), droplet("i-2", "2.2.2.2")];
    assert!(is_fleet_discovered(&two, 2));
    assert!(is_fleet_discovered(&two, 1));
    assert!(!is_fleet_discovered(&two, 3));
    let pending = vec![droplet("i-1", "1.1.1.1"), droplet("i-2", "")];
    assert!(!is_fleet_discovered(&pending, 2));
    assert!(!is_fleet_discovered(&pending, 1));
    assert!(is_fleet_discovered(&vec![], 0));
    assert!(!is_fleet_discovered(&vec![], 1));
}

#[test]
fn addresses_settle_when_each_is_attached_to_its_own_instance() {
    let settled = vec![address("a-1", Some("i-1"), "9.9.9.1"), address("a-2", Some("i-2"), "9.9.9.2")];
    assert!(are_addresses_settled(&settled, 2));
    assert!(!are_addresses_settled(&settled, 1));
    assert!(!are_addresses_settled(&settled, 3));
    let loose = vec![address("a-1", Some("i-1"), "9.9.9.1"), address("a-2", None, "9.9.9.2")];
    assert!(!are_addresses_settled(&loose, 2));
    let shared = vec![address("a-1", Some("i-1"), "9.9.9.1"), address("a-2", Some("i-1"), "9.9.9.2")];
    assert!(!are_addresses_settled(&shared, 2));
    assert!(are_addresses_settled(&vec![], 0));
}

#[test]
fn complete_addresses_have_id_and_ip() {
    let mut list = vec![address("a-1", None, "9.9.9.1")];
    assert!(are_addresses_complete(&list));
    list[0].public_ip = None;
    assert!(!are_addresses_complete(&list));
    list[0].public_ip = Some(String::from("1.1.1.1"));
    list[0].allocation_id = None;
    assert!(!are_addresses_complete(&list));
    assert!(are_addresses_complete(&vec![]));
}

#[test]
fn the_stable_address_overrides_the_ephemeral_one() {
    let droplets = vec![droplet("i-1", "1.1.1.1"), droplet("i-2", "2.2.2.2")];
    let addresses = vec![address("a-1", Some("i-2"), "9.9.9.2")];
    let fleet = assemble_fleet(&droplets, &addresses);
    assert_eq!(
        fleet,
        vec![
            FleetMember {
                instance_id: String::from("i-1"),
                instance_state: String::from("running"),
                availability_zone: String::from("us-east-1a"),
                public_ip: String::from("1.1.1.1"),
            },
            FleetMember {
                instance_id: String::from("i-2"),
                instance_state: String::from("running"),
                availability_zone: String::from("us-east-1a"),
                public_ip: String::from("9.9.9.2"),
            },
        ]
    );
    assert!(assemble_fleet(&vec![], &addresses).is_empty());
}

#[test]
fn the_last_address_of_an_instance_counts() {
    let addresses = vec![
        address("a-1", Some("i-1"), "9.9.9.1"),
        address("a-2", Some("i-1"), "9.9.9.2"),
        address("a-3", None, "9.9.9.3"),
    ];
    assert_eq!(stable_address_of(&addresses, "i-1"), Some(String::from("9.9.9.2")));
    assert_eq!(stable_address_of(&addresses, "i-2"), None);
    assert_eq!(stable_address_of(&vec![], "i-1"), None);
}

#[test]
fn the_init_log_is_searched_for_the_completion_message() {
    assert_eq!(INIT_SCRIPT_COMPLETE_MSG, "INIT SCRIPT COMPLETE");
    assert!(is_init_complete("+ echo 'INIT SCRIPT COMPLETE'\nINIT SCRIPT COMPLETE\n"));
    assert!(is_init_complete("INIT SCRIPT COMPLETE"));
    assert!(!is_init_complete("INIT SCRIPT COMPLET"));
    assert!(!is_init_complete("init script complete"));
    assert!(!is_init_complete(""));
}
