//! Tests of the supporting components: SSID sets, the selector, the
//! subscriber registry, message decoding and the key-cache bookkeeping.

use connection_manager::key_cache::{
    KeyCacheEntry, KeyDescriptor, KeyFlags, KeySmallPool, KeySmallPoolOrd, DK_STRIDE,
    KEY_NAME_LEN, SMALL_CAPACITY,
};
use connection_manager::registry::{SubscriberRegistry, WifiStateSubscription};
use connection_manager::selector::get_next_ssid;
use connection_manager::ssid_set::SsidSet;
use connection_manager::types::{
    opcode_from_usize, pack_ec_rev, pump_op_from_usize, ConnectionManagerOpcode, PumpOp,
    MIN_EC_REV, SUBSCRIBER_CAP,
};

fn names(list: &[&str]) -> Vec<String> {
    list.iter().map(|s| s.to_string()).collect()
}

#[test]
fn ssid_set_basics() {
    let mut s = SsidSet::new();
    assert_eq!(s.len(), 0);
    s.insert("home".to_string());
    s.insert("home".to_string());
    s.insert("cafe".to_string());
    assert_eq!(s.len(), 2);
    assert!(s.contains(&"home".to_string()));
    assert!(!s.contains(&"lab".to_string()));
    s.clear();
    assert_eq!(s.len(), 0);
    let t = SsidSet::from_vec(&names(&["a", "b", "a"]));
    assert_eq!(t.len(), 2);
}

#[test]
fn selector_empty_pool_returns_nothing() {
    let visible = SsidSet::from_vec(&names(&["street"]));
    let known = SsidSet::from_vec(&names(&["home"]));
    let mut attempted = SsidSet::from_vec(&names(&["home"]));
    assert!(get_next_ssid(&visible, &mut attempted, &known).is_none());
    assert_eq!(attempted.len(), 0); // the pass was reset for the next window
}

#[test]
fn selector_prefers_fresh_candidates() {
    let visible = SsidSet::from_vec(&names(&["home", "cafe"]));
    let known = SsidSet::from_vec(&names(&["home", "cafe"]));
    let mut attempted = SsidSet::from_vec(&names(&["home"]));
    let c = get_next_ssid(&visible, &mut attempted, &known).unwrap();
    assert_eq!(c, "cafe"); // the only candidate not yet attempted
    assert!(attempted.contains(&"cafe".to_string()));
}

#[test]
fn registry_capacity_is_bounded() {
    let mut r = SubscriberRegistry::new();
    for cid in 0..SUBSCRIBER_CAP as u32 {
        r.subscribe(cid, WifiStateSubscription { sid: [cid, 0, 0, 0], opcode: 1 }).unwrap();
    }
    assert_eq!(r.len(), SUBSCRIBER_CAP);
    let overflow = r.subscribe(999, WifiStateSubscription { sid: [9, 9, 9, 9], opcode: 1 });
    assert!(overflow.is_err());
    assert_eq!(r.len(), SUBSCRIBER_CAP); // the table was not disturbed
}

#[test]
fn registry_replaces_same_cid() {
    let mut r = SubscriberRegistry::new();
    r.subscribe(5, WifiStateSubscription { sid: [1, 1, 1, 1], opcode: 1 }).unwrap();
    r.subscribe(5, WifiStateSubscription { sid: [2, 2, 2, 2], opcode: 2 }).unwrap();
    assert_eq!(r.len(), 1);
    assert_eq!(r.unsubscribe(&[2, 2, 2, 2]), Some(5));
    assert_eq!(r.len(), 0);
}

#[test]
fn registry_unsubscribe_by_sid() {
    let mut r = SubscriberRegistry::new();
    r.subscribe(5, WifiStateSubscription { sid: [1, 2, 3, 4], opcode: 1 }).unwrap();
    r.subscribe(6, WifiStateSubscription { sid: [4, 3, 2, 1], opcode: 1 }).unwrap();
    assert_eq!(r.unsubscribe(&[7, 7, 7, 7]), None); // unknown sid: nothing removed
    assert_eq!(r.len(), 2);
    assert_eq!(r.unsubscribe(&[1, 2, 3, 4]), Some(5));
    assert_eq!(r.cids(), vec![6]);
}

#[test]
fn opcode_decoding_is_positional() {
    assert_eq!(opcode_from_usize(0), Some(ConnectionManagerOpcode::Run));
    assert_eq!(opcode_from_usize(1), Some(ConnectionManagerOpcode::Poll));
    assert_eq!(opcode_from_usize(2), Some(ConnectionManagerOpcode::Stop));
    assert_eq!(opcode_from_usize(3), Some(ConnectionManagerOpcode::SubscribeWifiStats));
    assert_eq!(opcode_from_usize(4), Some(ConnectionManagerOpcode::UnsubWifiStats));
    assert_eq!(opcode_from_usize(5), Some(ConnectionManagerOpcode::ComInt));
    assert_eq!(opcode_from_usize(6), Some(ConnectionManagerOpcode::SuspendResume));
    assert_eq!(opcode_from_usize(7), Some(ConnectionManagerOpcode::Quit));
    assert_eq!(opcode_from_usize(8), None); // unknown identifiers are dropped
    assert_eq!(pump_op_from_usize(0), Some(PumpOp::Pump));
    assert_eq!(pump_op_from_usize(1), Some(PumpOp::Quit));
    assert_eq!(pump_op_from_usize(2), None);
}

#[test]
fn ec_revision_packing() {
    assert_eq!(pack_ec_rev(0, 9, 6, 0), 0x0009_0600);
    assert_eq!(pack_ec_rev(1, 2, 3, 4), 0x0102_0304);
    assert!(pack_ec_rev(0, 9, 6, 0) >= MIN_EC_REV);
    assert!(pack_ec_rev(0, 9, 5, 255) < MIN_EC_REV);
}

#[test]
fn key_flags_valid_bit() {
    let mut f = KeyFlags(0);
    assert!(!f.valid());
    f.set_valid(true);
    assert!(f.valid());
    assert_eq!(f.0, 1);
    let mut g = KeyFlags(0xffff_ffff);
    g.set_valid(false);
    assert!(!g.valid());
    assert_eq!(g.0, 0xffff_fffe); // the other bits stay put
}

#[test]
fn key_descriptor_default_is_zeroed() {
    let d = KeyDescriptor::default();
    assert_eq!(d.start, 0);
    assert_eq!(d.len, 0);
    assert_eq!(d.reserved, 0);
    assert_eq!(d.age, 0);
    assert!(!d.flags.valid());
    assert_eq!(d.name, [0u8; KEY_NAME_LEN]);
}

fn entry(index: u32) -> KeyCacheEntry {
    KeyCacheEntry {
        start: 0,
        len: 0,
        reserved: 0,
        flags: KeyFlags(0),
        age: 0,
        descriptor_index: index,
        clean: true,
        data: None,
    }
}

#[test]
fn key_descriptor_geometry() {
    let e = entry(1);
    assert_eq!(e.descriptor_vaddr(0x1000), 0x1000 + 2 * DK_STRIDE as u64);
    assert_eq!(e.descriptor_modulus(), 2);
    assert_eq!(e.descriptor_vpage_num(), 0);
    let e = entry(63); // slot 64 sits first in the third vpage window
    assert_eq!(e.descriptor_modulus(), 0);
    assert_eq!(e.descriptor_vpage_num(), 2);
}

#[test]
fn small_pool_accounting() {
    let p = KeySmallPool::new();
    assert_eq!(p.free(), SMALL_CAPACITY);
    assert!(p.clean);
    assert!(!p.try_insert_key(&entry(1), None));
    assert!(!p.try_insert_key(&entry(1), Some(128)));
    assert!(p.try_update_key(&entry(1), None).is_none());
    p.delete_key(&entry(1));
    assert_eq!(p.free(), SMALL_CAPACITY);
}

#[test]
fn small_pool_ordering_ignores_position() {
    let a = KeySmallPoolOrd { avail: 10, index: 0 };
    let b = KeySmallPoolOrd { avail: 10, index: 9 };
    let c = KeySmallPoolOrd { avail: 20, index: 1 };
    assert!(a == b); // same room, different position: equal for the heap
    assert!(a < c);
    assert!(c > b);
    assert!(a <= b && a >= b);
}
