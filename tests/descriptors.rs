use hpg_server::descriptors::{format_ep_init_package, format_init_package};

const EP1: [u8; 7] = [7, 5, 1, 2, 0x00, 0x02, 0];
const EP2: [u8; 7] = [7, 5, 2, 2, 0x00, 0x02, 0];
const DEVICE: [u8; 18] = [
    18, 1, 0x00, 0x02, 2, 0, 0, 255, 0x09, 0x12, 0x01, 0x00, 0x00, 0x01, 1, 2, 3, 1,
];

#[test]
fn initial_package_two_endpoints_golden() {
    let mut golden: Vec<u8> = vec![0, 0, 0, 0];
    golden.extend_from_slice(&[9, 2, 32, 0, 1, 2, 5, 0xC0, 1]);
    golden.extend_from_slice(&[9, 4, 0, 0, 2, 2, 0, 0, 6]);
    golden.extend_from_slice(&EP1);
    golden.extend_from_slice(&EP2);
    golden.extend_from_slice(&[9, 2, 32, 0, 1, 2, 4, 0xC0, 1]);
    golden.extend_from_slice(&[9, 4, 0, 0, 2, 2, 0, 0, 6]);
    golden.extend_from_slice(&EP1);
    golden.extend_from_slice(&EP2);
    golden.extend_from_slice(&DEVICE);
    let package = format_init_package(2);
    assert_eq!(package.len(), 86);
    assert_eq!(package, golden);
}

#[test]
fn initial_package_total_length_fields() {
    for n in 1u8..=15 {
        let package = format_init_package(n);
        let total = 9 + 9 + 7 * n as usize;
        assert_eq!(package.len(), 4 + 2 * total + 18);
        assert_eq!(package[6] as usize + 256 * package[7] as usize, total);
        let hs = 4 + total;
        assert_eq!(package[hs + 2] as usize + 256 * package[hs + 3] as usize, total);
        assert_eq!(package[4 + 9 + 4], n);
    }
}

#[test]
fn initial_package_endpoint_addresses_ascend() {
    let package = format_init_package(3);
    for k in 0..3usize {
        assert_eq!(package[4 + 18 + 7 * k + 2], (k + 1) as u8);
    }
}

#[test]
fn initial_package_without_endpoints() {
    let package = format_init_package(0);
    assert_eq!(package.len(), 4 + 2 * 18 + 18);
    assert_eq!(&package[4..8], &[9, 2, 18, 0]);
}

#[test]
fn initial_package_largest_count() {
    let package = format_init_package(255);
    let total = 9 + 9 + 7 * 255;
    assert_eq!(package.len(), 4 + 2 * total + 18);
    assert_eq!(package[6] as usize + 256 * package[7] as usize, total);
}

#[test]
fn endpoint_package_layout() {
    for n in 1u8..=15 {
        let package = format_ep_init_package(n);
        assert_eq!(package.len(), 4 + 2 * (9 - 2));
        assert_eq!(&package[0..4], &[1, 0, 0, 0]);
        assert_eq!(package[6], n);
        assert_eq!(package[4 + 7 + 2], n);
    }
}

#[test]
fn endpoint_package_golden() {
    let package = format_ep_init_package(3);
    assert_eq!(package, vec![1, 0, 0, 0, 7, 5, 3, 2, 0, 2, 0, 7, 5, 3, 2, 0, 2, 0]);
}

#[test]
fn builders_are_deterministic() {
    assert_eq!(format_init_package(4), format_init_package(4));
    assert_eq!(format_ep_init_package(4), format_ep_init_package(4));
}
