use trojan::address::Host;
use trojan::private::{divisor, prefix_match, Cidr, PrivateSet};

#[test]
fn divisor_keeps_the_leading_bits() {
    assert_eq!(divisor(1), 128);
    assert_eq!(divisor(4), 16);
    assert_eq!(divisor(7), 2);
    assert_eq!(divisor(0), 1);
    assert_eq!(divisor(8), 1);
}

#[test]
fn prefix_match_compares_whole_bytes_and_leading_bits() {
    assert!(prefix_match(&[172, 16, 0, 0], &[172, 31, 9, 9], 12));
    assert!(!prefix_match(&[172, 16, 0, 0], &[172, 32, 0, 0], 12));
    assert!(!prefix_match(&[172, 16, 0, 0], &[172, 15, 255, 255], 12));
    assert!(prefix_match(&[1, 2, 3, 4], &[9, 9, 9, 9], 0));
    assert!(prefix_match(&[1, 2, 3, 4], &[1, 2, 3, 4], 32));
    assert!(!prefix_match(&[1, 2, 3, 4], &[1, 2, 3, 5], 32));
    assert!(prefix_match(&[1, 2, 3, 4], &[1, 2, 3, 5], 31));
    assert!(prefix_match(&[1, 2, 3, 4], &[1, 2, 3, 255], 24));
    // a prefix longer than the address fits nothing
    assert!(!prefix_match(&[1, 2, 3, 4], &[1, 2, 3, 4], 33));
    // strings of different length never agree
    assert!(!prefix_match(&[1, 2, 3, 4], &[1, 2, 3], 8));
    assert!(prefix_match(&[], &[], 0));
}

#[test]
fn blocks_hold_addresses_of_their_own_family_only() {
    let v4 = Cidr { network: Host::V4([10, 0, 0, 0]), prefix: 8 };
    assert!(v4.contains(&Host::V4([10, 200, 1, 1])));
    assert!(!v4.contains(&Host::V4([11, 0, 0, 0])));
    let mut net = [0u8; 16];
    net[0] = 0xfc;
    let v6 = Cidr { network: Host::V6(net), prefix: 7 };
    let mut ula = [0u8; 16];
    ula[0] = 0xfd;
    ula[9] = 9;
    assert!(v6.contains(&Host::V6(ula)));
    let mut global = [0u8; 16];
    global[0] = 0x20;
    assert!(!v6.contains(&Host::V6(global)));
    assert!(!v6.contains(&Host::V4([10, 0, 0, 1])));
    assert!(!v4.contains(&Host::V6(ula)));
    assert!(!v4.contains(&Host::Domain(vec![10, 0, 0, 1])));
    let name = Cidr { network: Host::Domain(vec![10]), prefix: 8 };
    assert!(!name.contains(&Host::Domain(vec![10])));
}

#[test]
fn standard_set_holds_the_local_ranges() {
    let set = PrivateSet::standard();
    for a in [[0, 1, 2, 3], [10, 0, 0, 1], [127, 0, 0, 1], [169, 254, 0, 1], [172, 16, 0, 0], [172, 31, 255, 255], [192, 168, 255, 255], [224, 0, 0, 1], [239, 255, 255, 255], [255, 255, 255, 255]] {
        assert!(set.contains(&Host::V4(a)), "{:?}", a);
    }
    for a in [[1, 0, 0, 0], [9, 255, 255, 255], [11, 0, 0, 0], [126, 255, 255, 255], [128, 0, 0, 0], [169, 253, 0, 0], [169, 255, 0, 0], [172, 15, 0, 0], [172, 32, 0, 0], [192, 167, 0, 0], [192, 169, 0, 0], [223, 255, 255, 255], [240, 0, 0, 0], [255, 255, 255, 254], [8, 8, 8, 8], [93, 184, 216, 34]] {
        assert!(!set.contains(&Host::V4(a)), "{:?}", a);
    }
    assert!(!set.contains(&Host::V6([0; 16])));
    assert!(!set.contains(&Host::Domain(b"localhost".to_vec())));
}

#[test]
fn inserted_blocks_are_private_from_then_on() {
    let mut set = PrivateSet::new();
    assert!(!set.contains(&Host::V4([100, 64, 1, 1])));
    set.insert(Cidr { network: Host::V4([100, 64, 0, 0]), prefix: 10 });
    assert!(set.contains(&Host::V4([100, 64, 1, 1])));
    assert!(set.contains(&Host::V4([100, 127, 255, 255])));
    assert!(!set.contains(&Host::V4([100, 128, 0, 0])));
    let mut standard = PrivateSet::standard();
    standard.insert(Cidr { network: Host::V4([8, 8, 8, 8]), prefix: 32 });
    assert!(standard.contains(&Host::V4([8, 8, 8, 8])));
    assert!(!standard.contains(&Host::V4([8, 8, 8, 9])));
}
