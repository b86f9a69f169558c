use pvmfw::avb::capability::Capability;
use pvmfw::avb::verify::{DebugLevel, VerifiedBootData};
use pvmfw::dice::{DiceMode, PartialInputs};
use pvmfw::entry::RebootReason;
use pvmfw::fdt::FdtError;
use pvmfw::instance::{
    check_image_header, check_payload_size, entry_header, scan_entry_header, EntryBody,
    Error as InstanceError, Scan,
};
use pvmfw::rollback::{
    check_dice_measurements_match_entry, ensure_dice_measurements_match_entry,
    get_fixed_rollback_protection, perform_deferred_rollback_protection,
    perform_fixed_index_rollback_protection, perform_legacy_rollback_protection,
    perform_rollback_protection, select_strategy, should_defer_rollback_protection, Strategy,
    SERVICE_VM_VERSION,
};
use std::cell::RefCell;

fn boot_data(capabilities: Vec<Capability>, rollback_index: u64) -> VerifiedBootData<'static> {
    VerifiedBootData {
        debug_level: DebugLevel::NotDebuggable,
        kernel_digest: [1u8; 32],
        initrd_digest: None,
        public_key: b"public key",
        capabilities,
        rollback_index,
        page_size: None,
    }
}

fn dice_inputs() -> PartialInputs {
    PartialInputs {
        code_hash: [0x11; 64],
        auth_hash: [0x22; 64],
        mode: DiceMode::Normal,
        security_version: 42,
        rkp_vm_marker: false,
        instance_hash: None,
        component_name: "vm_entry".to_string(),
    }
}

fn matching_entry() -> EntryBody {
    EntryBody { code_hash: [0x11; 64], auth_hash: [0x22; 64], salt: [0x33; 64], mode: 1 }
}

fn no_lookup(_: &[u8]) -> Result<Option<EntryBody>, RebootReason> {
    panic!("the instance image must not be looked at")
}

fn no_salt() -> Option<[u8; 64]> {
    panic!("no salt must be generated")
}

fn no_record(_: &[u8], _: EntryBody) -> Result<(), InstanceError> {
    panic!("no record must be written")
}

const DEFER: Result<Option<()>, FdtError> = Ok(Some(()));
const NO_DEFER: Result<Option<()>, FdtError> = Ok(None);
const INSTANCE_HASH: [u8; 64] = [0x44; 64];

#[test]
fn partial_inputs_of_a_plain_kernel() {
    let data = boot_data(vec![], 42);
    let inputs =
        PartialInputs::new(&data, None, |_: &[u8]| Ok([0u8; 64])).unwrap();
    assert_eq!(inputs.mode, DiceMode::Normal);
    assert_eq!(inputs.security_version, 42);
    assert!(!inputs.rkp_vm_marker);
}

#[test]
fn pinned_payload_with_another_index_is_refused() {
    for index in [0, SERVICE_VM_VERSION - 1, SERVICE_VM_VERSION + 1, u64::MAX] {
        if index == SERVICE_VM_VERSION {
            continue;
        }
        for defer in [DEFER, NO_DEFER] {
            let r = perform_rollback_protection(
                defer,
                &boot_data(vec![Capability::RemoteAttest], index),
                &dice_inputs(),
                b"seal",
                Some(INSTANCE_HASH),
                no_lookup,
                no_salt,
                no_record,
            );
            assert_eq!(r, Err(RebootReason::InvalidPayload));
        }
    }
}

#[test]
fn pinned_payload_with_the_index_is_accepted() {
    let r = perform_rollback_protection(
        NO_DEFER,
        &boot_data(vec![Capability::RemoteAttest], SERVICE_VM_VERSION),
        &dice_inputs(),
        b"seal",
        Some(INSTANCE_HASH),
        no_lookup,
        no_salt,
        no_record,
    );
    assert_eq!(r, Ok((false, INSTANCE_HASH, false)));
}

#[test]
fn deferral_needs_the_property_and_the_capability() {
    let deferring = boot_data(vec![Capability::SecretkeeperProtection], 3);
    let r = perform_rollback_protection(
        DEFER,
        &deferring,
        &dice_inputs(),
        b"seal",
        Some(INSTANCE_HASH),
        no_lookup,
        no_salt,
        no_record,
    );
    assert_eq!(r, Ok((false, INSTANCE_HASH, true)));

    // Without the property the guest falls back to the instance image.
    let r = perform_rollback_protection(
        NO_DEFER,
        &deferring,
        &dice_inputs(),
        b"seal",
        Some(INSTANCE_HASH),
        |_: &[u8]| Ok(Some(matching_entry())),
        no_salt,
        no_record,
    );
    assert_eq!(r, Ok((false, INSTANCE_HASH, false)));

    // Without the capability the property changes nothing.
    let r = perform_rollback_protection(
        DEFER,
        &boot_data(vec![Capability::SupportsUefiBoot], 3),
        &dice_inputs(),
        b"seal",
        None,
        |_: &[u8]| Ok(Some(matching_entry())),
        no_salt,
        no_record,
    );
    assert_eq!(r, Ok((false, [0x33; 64], false)));
}

#[test]
fn deferral_needs_a_positive_rollback_index() {
    let r = perform_rollback_protection(
        DEFER,
        &boot_data(vec![Capability::SecretkeeperProtection], 0),
        &dice_inputs(),
        b"seal",
        Some(INSTANCE_HASH),
        no_lookup,
        no_salt,
        no_record,
    );
    assert_eq!(r, Err(RebootReason::InvalidPayload));
}

#[test]
fn deferral_comes_before_the_fixed_index() {
    let both = boot_data(vec![Capability::RemoteAttest, Capability::SecretkeeperProtection], 7);
    assert_eq!(select_strategy(true, &both), Strategy::Deferred);
    assert_eq!(select_strategy(false, &both), Strategy::FixedIndex(SERVICE_VM_VERSION));
    let r = perform_rollback_protection(
        DEFER,
        &both,
        &dice_inputs(),
        b"seal",
        Some(INSTANCE_HASH),
        no_lookup,
        no_salt,
        no_record,
    );
    assert_eq!(r, Ok((false, INSTANCE_HASH, true)));
}

#[test]
fn trusty_security_vm_is_not_checked() {
    let trusty = boot_data(vec![Capability::TrustySecurityVm], 0);
    assert_eq!(select_strategy(true, &trusty), Strategy::Skipped);
    let r = perform_rollback_protection(
        DEFER,
        &trusty,
        &dice_inputs(),
        b"seal",
        Some(INSTANCE_HASH),
        no_lookup,
        no_salt,
        no_record,
    );
    assert_eq!(r, Ok((false, INSTANCE_HASH, false)));
    // A fixed index comes first.
    let both = boot_data(vec![Capability::TrustySecurityVm, Capability::RemoteAttest], 0);
    assert_eq!(select_strategy(true, &both), Strategy::FixedIndex(SERVICE_VM_VERSION));
}

#[test]
fn unreadable_device_tree_is_invalid() {
    let r = perform_rollback_protection(
        Err(FdtError::BadStructure),
        &boot_data(vec![Capability::RemoteAttest], SERVICE_VM_VERSION),
        &dice_inputs(),
        b"seal",
        None,
        no_lookup,
        no_salt,
        no_record,
    );
    assert_eq!(r, Err(RebootReason::InvalidFdt));
    assert_eq!(should_defer_rollback_protection(DEFER), Ok(true));
    assert_eq!(should_defer_rollback_protection(NO_DEFER), Ok(false));
    assert_eq!(
        should_defer_rollback_protection(Err(FdtError::NotFound)),
        Err(RebootReason::InvalidFdt)
    );
}

#[test]
fn new_instance_gets_a_record() {
    let written = RefCell::new(None);
    let r = perform_rollback_protection(
        NO_DEFER,
        &boot_data(vec![], 0),
        &dice_inputs(),
        b"seal",
        None,
        |seal: &[u8]| {
            assert_eq!(seal, b"seal");
            Ok(None)
        },
        || Some([0x55; 64]),
        |seal: &[u8], entry: EntryBody| {
            assert_eq!(seal, b"seal");
            written.replace(Some(entry));
            Ok(())
        },
    );
    assert_eq!(r, Ok((true, [0x55; 64], false)));
    assert_eq!(
        written.into_inner(),
        Some(EntryBody { code_hash: [0x11; 64], auth_hash: [0x22; 64], salt: [0x55; 64], mode: 1 })
    );
}

#[test]
fn new_instance_uses_the_instance_hash_as_salt() {
    let r = perform_legacy_rollback_protection(
        &dice_inputs(),
        b"seal",
        Some(INSTANCE_HASH),
        |_: &[u8]| Ok(None),
        no_salt,
        |_: &[u8], entry: EntryBody| {
            assert_eq!(entry.salt, INSTANCE_HASH);
            Ok(())
        },
    );
    assert_eq!(r, Ok((true, INSTANCE_HASH, false)));
}

#[test]
fn failures_of_the_instance_image_are_internal_errors() {
    let inputs = dice_inputs();
    let r = perform_legacy_rollback_protection(
        &inputs,
        b"seal",
        None,
        |_: &[u8]| Err(RebootReason::InvalidFdt),
        no_salt,
        no_record,
    );
    assert_eq!(r, Err(RebootReason::InvalidFdt));
    let r = perform_legacy_rollback_protection(
        &inputs,
        b"seal",
        None,
        |_: &[u8]| Ok(None),
        || None,
        no_record,
    );
    assert_eq!(r, Err(RebootReason::InternalError));
    let r = perform_legacy_rollback_protection(
        &inputs,
        b"seal",
        None,
        |_: &[u8]| Ok(None),
        || Some([0; 64]),
        |_: &[u8], _: EntryBody| Err(InstanceError::FailedIo),
    );
    assert_eq!(r, Err(RebootReason::InternalError));
}

#[test]
fn record_with_another_auth_hash_is_fatal() {
    let inputs = dice_inputs();
    let resigned = EntryBody { auth_hash: [0x23; 64], ..matching_entry() };
    assert_eq!(
        ensure_dice_measurements_match_entry(&inputs, &resigned),
        Err(InstanceError::RecordedAuthHashMismatch)
    );
    assert_eq!(
        check_dice_measurements_match_entry(&inputs, &resigned),
        Err(RebootReason::InternalError)
    );
    let r = perform_rollback_protection(
        NO_DEFER,
        &boot_data(vec![], 42),
        &inputs,
        b"seal",
        Some(INSTANCE_HASH),
        |_: &[u8]| Ok(Some(resigned)),
        no_salt,
        no_record,
    );
    assert_eq!(r, Err(RebootReason::InternalError));
}

#[test]
fn record_is_compared_hash_by_hash() {
    let inputs = dice_inputs();
    assert_eq!(ensure_dice_measurements_match_entry(&inputs, &matching_entry()), Ok(()));
    let mut one_byte = matching_entry();
    one_byte.code_hash[63] ^= 1;
    assert_eq!(
        ensure_dice_measurements_match_entry(&inputs, &one_byte),
        Err(InstanceError::RecordedCodeHashMismatch)
    );
    // The code hash is compared first.
    one_byte.auth_hash[0] ^= 1;
    assert_eq!(
        ensure_dice_measurements_match_entry(&inputs, &one_byte),
        Err(InstanceError::RecordedCodeHashMismatch)
    );
    let debug = EntryBody { mode: 2, ..matching_entry() };
    assert_eq!(
        ensure_dice_measurements_match_entry(&inputs, &debug),
        Err(InstanceError::RecordedDiceModeMismatch)
    );
    let unknown = EntryBody { mode: 77, ..matching_entry() };
    assert_eq!(unknown.mode(), DiceMode::NotInitialized);
    assert_eq!(
        ensure_dice_measurements_match_entry(&inputs, &unknown),
        Err(InstanceError::RecordedDiceModeMismatch)
    );
}

#[test]
fn entry_records_the_mode_as_a_number() {
    for (mode, number) in [
        (DiceMode::NotInitialized, 0),
        (DiceMode::Normal, 1),
        (DiceMode::Debug, 2),
        (DiceMode::Maintenance, 3),
    ] {
        let inputs = PartialInputs { mode, ..dice_inputs() };
        let entry = EntryBody::new(&inputs, &[9; 64]);
        assert_eq!(entry.mode, number);
        assert_eq!(entry.mode(), mode);
        assert_eq!(entry.salt, [9; 64]);
        assert_eq!(entry.code_hash, inputs.code_hash);
        assert_eq!(entry.auth_hash, inputs.auth_hash);
    }
}

#[test]
fn small_steps_of_rollback_protection() {
    assert_eq!(perform_deferred_rollback_protection(&boot_data(vec![], 1)), Ok(()));
    assert_eq!(
        perform_deferred_rollback_protection(&boot_data(vec![], 0)),
        Err(RebootReason::InvalidPayload)
    );
    assert_eq!(get_fixed_rollback_protection(&boot_data(vec![], 1)), None);
    assert_eq!(
        get_fixed_rollback_protection(&boot_data(vec![Capability::RemoteAttest], 1)),
        Some(SERVICE_VM_VERSION)
    );
    assert_eq!(perform_fixed_index_rollback_protection(&boot_data(vec![], 5), 5), Ok(()));
    assert_eq!(
        perform_fixed_index_rollback_protection(&boot_data(vec![], 4), 5),
        Err(RebootReason::InvalidPayload)
    );
    assert_eq!(
        perform_fixed_index_rollback_protection(&boot_data(vec![], 6), 5),
        Err(RebootReason::InvalidPayload)
    );
    assert_eq!(select_strategy(true, &boot_data(vec![], 0)), Strategy::InstanceImage);
}

// The instance image.

#[test]
fn image_header_is_the_magic_and_the_version() {
    let mut block = [0u8; 512];
    block[..19].copy_from_slice(b"Android-VM-instance");
    block[19] = 1;
    assert_eq!(check_image_header(&block), Ok(()));
    assert_eq!(check_image_header(&block[..21]), Ok(()));
    assert_eq!(check_image_header(&block[..20]), Err(InstanceError::InvalidInstanceImageHeader));
    block[20] = 1;
    assert_eq!(check_image_header(&block), Err(InstanceError::InvalidInstanceImageHeader));
    block[20] = 0;
    block[19] = 2;
    assert_eq!(check_image_header(&block), Err(InstanceError::InvalidInstanceImageHeader));
    block[19] = 1;
    block[18] = b'E';
    assert_eq!(check_image_header(&block), Err(InstanceError::InvalidInstanceImageHeader));
}

#[test]
fn entries_are_scanned_by_their_owner() {
    let mut block = [0u8; 512];
    assert_eq!(scan_entry_header(&block), Scan::Free);
    // A free entry is free whatever follows the identifier.
    block[16] = 7;
    assert_eq!(scan_entry_header(&block), Scan::Free);
    block[..24].copy_from_slice(&entry_header(0x0102_0304_0506_0708));
    assert_eq!(
        &block[..16],
        &[0x90, 0xd2, 0x17, 0x4a, 0x03, 0x8a, 0x4b, 0xc6, 0xad, 0xf3, 0x82, 0x4b, 0xe6, 0x9f, 0x94, 0x3d]
    );
    assert_eq!(&block[16..24], &[8, 7, 6, 5, 4, 3, 2, 1]);
    assert_eq!(scan_entry_header(&block), Scan::Existing(0x0102_0304_0506_0708));
    block[0] ^= 1;
    for (size, blocks) in [(0u64, 0u64), (1, 1), (512, 1), (513, 2), (1024, 2), (u64::MAX, 1 << 55)] {
        block[16..24].copy_from_slice(&size.to_le_bytes());
        assert_eq!(scan_entry_header(&block[..24]), Scan::Skip(blocks));
    }
}

#[test]
fn payload_of_an_entry_fits_a_block() {
    assert_eq!(check_payload_size(0), Ok(0));
    assert_eq!(check_payload_size(512), Ok(512));
    assert_eq!(check_payload_size(513), Err(InstanceError::UnsupportedEntrySize(513)));
}

#[test]
fn records_are_written_field_by_field() {
    let entry = EntryBody { code_hash: [1; 64], auth_hash: [2; 64], salt: [3; 64], mode: 2 };
    let bytes = entry.to_bytes();
    assert_eq!(&bytes[..64], &[1u8; 64]);
    assert_eq!(&bytes[64..128], &[2u8; 64]);
    assert_eq!(&bytes[128..192], &[3u8; 64]);
    assert_eq!(bytes[192], 2);
    assert_eq!(EntryBody::from_bytes(&bytes), Some(entry));
    assert_eq!(EntryBody::from_bytes(&bytes[..192]), None);
    assert_eq!(EntryBody::from_bytes(&[0u8; 194]), None);
}
