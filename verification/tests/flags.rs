use zygisk_api::api::{companion_result, commit_result, flags_result};
use zygisk_api::error::ZygiskError;
use zygisk_api::raw::v1::ZygiskOption;
use zygisk_api::raw::v2::{StateFlags, KNOWN_STATE_BITS, PROCESS_GRANTED_ROOT, PROCESS_ON_DENYLIST};

#[test]
fn known_bits_are_the_two_flags() {
    assert_eq!(PROCESS_GRANTED_ROOT, 1);
    assert_eq!(PROCESS_ON_DENYLIST, 2);
    assert_eq!(KNOWN_STATE_BITS, PROCESS_GRANTED_ROOT | PROCESS_ON_DENYLIST);
    assert_eq!(StateFlags::all().bits(), 3);
    assert_eq!(StateFlags::empty().bits(), 0);
    assert_eq!(StateFlags::process_granted_root().bits(), 1);
    assert_eq!(StateFlags::process_on_denylist().bits(), 2);
}

#[test]
fn from_bits_takes_every_subset_of_the_known_flags() {
    for raw in 0u32..=3 {
        let flags = StateFlags::from_bits(raw);
        assert!(flags.is_some());
        assert_eq!(flags.unwrap().bits(), raw);
    }
}

#[test]
fn from_bits_refuses_an_unknown_bit() {
    assert_eq!(StateFlags::from_bits(4), None);
    assert_eq!(StateFlags::from_bits(5), None);
    assert_eq!(StateFlags::from_bits(0x8000_0000), None);
    assert_eq!(StateFlags::from_bits(u32::MAX), None);
    let mut bit = 2;
    while bit < 32 {
        assert_eq!(StateFlags::from_bits(1u32 << bit), None);
        assert_eq!(StateFlags::from_bits((1u32 << bit) | 1), None);
        bit += 1;
    }
}

#[test]
fn from_bits_truncate_drops_unknown_bits() {
    assert_eq!(StateFlags::from_bits_truncate(0xffff_fffe).bits(), 2);
    assert_eq!(StateFlags::from_bits_truncate(7).bits(), 3);
    assert_eq!(StateFlags::from_bits_truncate(4).bits(), 0);
    assert!(StateFlags::from_bits_truncate(8).is_empty());
}

#[test]
fn contains_and_union() {
    let root = StateFlags::process_granted_root();
    let deny = StateFlags::process_on_denylist();
    let both = root.union(deny);
    assert_eq!(both, StateFlags::all());
    assert!(both.contains(root));
    assert!(both.contains(deny));
    assert!(!root.contains(deny));
    assert!(!deny.contains(root));
    assert!(root.contains(StateFlags::empty()));
    assert!(StateFlags::empty().is_empty());
    assert!(!root.is_empty());
    assert_eq!(root.union(root), root);
}

#[test]
fn flags_result_decodes_known_patterns() {
    assert_eq!(flags_result(0), Ok(StateFlags::empty()));
    assert_eq!(flags_result(1), Ok(StateFlags::process_granted_root()));
    assert_eq!(flags_result(2), Ok(StateFlags::process_on_denylist()));
    assert_eq!(flags_result(3), Ok(StateFlags::all()));
}

#[test]
fn flags_result_carries_the_unknown_pattern() {
    assert_eq!(flags_result(4), Err(ZygiskError::UnrecognizedStateFlag(4)));
    assert_eq!(flags_result(0x13), Err(ZygiskError::UnrecognizedStateFlag(0x13)));
    assert_eq!(flags_result(u32::MAX), Err(ZygiskError::UnrecognizedStateFlag(u32::MAX)));
}

#[test]
fn option_numbers() {
    assert_eq!(ZygiskOption::ForceDenylistUnmount.to_raw(), 0);
    assert_eq!(ZygiskOption::DlCloseModuleLibrary.to_raw(), 1);
    assert_eq!(ZygiskOption::from_raw(0), Some(ZygiskOption::ForceDenylistUnmount));
    assert_eq!(ZygiskOption::from_raw(1), Some(ZygiskOption::DlCloseModuleLibrary));
    assert_eq!(ZygiskOption::from_raw(2), None);
    assert_eq!(ZygiskOption::from_raw(-1), None);
    assert_eq!(ZygiskOption::from_raw(i32::MAX), None);
}

#[test]
fn companion_result_fails_on_minus_one_only() {
    assert_eq!(companion_result(-1), Err(ZygiskError::ConnectCompanionFailed));
    assert_eq!(companion_result(0), Ok(0));
    assert_eq!(companion_result(3), Ok(3));
    assert_eq!(companion_result(-2), Ok(-2));
    assert_eq!(companion_result(i32::MAX), Ok(i32::MAX));
    assert_eq!(companion_result(i32::MIN), Ok(i32::MIN));
}

#[test]
fn commit_result_follows_the_host() {
    assert_eq!(commit_result(true), Ok(()));
    assert_eq!(commit_result(false), Err(ZygiskError::PltHookCommitError));
}
