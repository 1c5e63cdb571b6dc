use antisupport::hwid::{collect_macs, generate, id_or_unknown, id_text, joined, needs_primary};

const LOW: [u8; 6] = [0, 0, 0, 0, 0, 1];
const MID: [u8; 6] = [1, 2, 3, 4, 5, 6];
const HIGH: [u8; 6] = [255, 0, 0, 0, 0, 0];
const ZERO: [u8; 6] = [0; 6];

const ID_OF_MID: &str = "7192385c3c0605de55bb9476ce1d90748190ecb32a8eed7f5207b30cf6a1fe89";
const ID_OF_ALL: &str = "83f86259e81ef253b190acb3d67a099c86aaf8dd2d038126e875da59970e7e88";

#[test]
fn addresses_are_sorted_and_distinct() {
    assert_eq!(collect_macs(&vec![HIGH, MID, ZERO, LOW, MID], None), vec![LOW, MID, HIGH]);
    assert_eq!(
        collect_macs(&vec![[1, 2, 3, 4, 5, 7], [1, 2, 3, 4, 6, 0], MID], None),
        vec![MID, [1, 2, 3, 4, 5, 7], [1, 2, 3, 4, 6, 0]]
    );
}

#[test]
fn primary_address_is_a_fallback() {
    assert_eq!(collect_macs(&vec![], Some(MID)), vec![MID]);
    assert_eq!(collect_macs(&vec![ZERO], Some(MID)), vec![MID]);
    assert_eq!(collect_macs(&vec![LOW], Some(MID)), vec![LOW]);
    assert_eq!(collect_macs(&vec![ZERO], Some(ZERO)), Vec::<[u8; 6]>::new());
    assert!(needs_primary(&vec![]));
    assert!(needs_primary(&vec![ZERO, ZERO]));
    assert!(!needs_primary(&vec![ZERO, LOW]));
}

#[test]
fn id_is_the_digest_of_the_addresses() {
    assert_eq!(generate(&vec![MID], None), Some(ID_OF_MID.to_string()));
    assert_eq!(generate(&vec![], Some(MID)), Some(ID_OF_MID.to_string()));
    assert_eq!(generate(&vec![LOW, MID, HIGH], None), Some(ID_OF_ALL.to_string()));
}

#[test]
fn id_ignores_order_repeats_and_zeros() {
    assert_eq!(generate(&vec![HIGH, LOW, MID], None), Some(ID_OF_ALL.to_string()));
    assert_eq!(generate(&vec![HIGH, LOW, MID, LOW, ZERO], None), Some(ID_OF_ALL.to_string()));
    assert_eq!(generate(&vec![HIGH, LOW, MID], Some(MID)), Some(ID_OF_ALL.to_string()));
}

#[test]
fn no_address_no_id() {
    assert_eq!(generate(&vec![], None), None);
    assert_eq!(generate(&vec![ZERO], None), None);
    assert_eq!(generate(&vec![], Some(ZERO)), None);
    assert_eq!(id_or_unknown(None), "UNKNOWN");
    assert_eq!(id_or_unknown(Some("abc".to_string())), "abc");
}

#[test]
fn digests_are_written_in_hexadecimal() {
    assert_eq!(id_text(&vec![0x00, 0x9f, 0xa0, 0xff]), "009fa0ff");
    assert_eq!(id_text(&vec![]), "");
}

#[test]
fn addresses_are_joined_in_order() {
    assert_eq!(joined(&vec![MID, LOW]), vec![1, 2, 3, 4, 5, 6, 0, 0, 0, 0, 0, 1]);
    assert_eq!(joined(&vec![]), Vec::<u8>::new());
}
