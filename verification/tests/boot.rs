use ciborium::value::Value;
use coset::CborSerializable;
use pvmfw::avb::error::SlotVerifyError;
use pvmfw::avb::partition::PartitionName;
use pvmfw::avb::slot::{Descriptor, HashDescriptor, Property, SlotVerifyData, VbmetaData};
use pvmfw::avb::verify::{DebugLevel, Payload};
use pvmfw::boot::{
    clear_secret, effective_debug_policy, instance_id_input, parse_dice_handover,
    perform_dice_derivation, perform_verified_boot, run, salt_from_instance_id, BootAction,
    BootStage,
};
use pvmfw::dice::chain::DiceHandover;
use pvmfw::dice::{
    DiceContext, DiceError, DiceMode, InputValues, KeyAlgorithm, PartialInputs,
};
use pvmfw::entry::{select_next_stage, NextStage, RebootReason};
use pvmfw::fdt::FdtError;

fn kernel(page_size: Option<&[u8]>) -> SlotVerifyData {
    SlotVerifyData {
        vbmeta_data: vec![VbmetaData {
            partition_name: b"kernel".to_vec(),
            descriptors: Ok(vec![Descriptor::Hash(HashDescriptor {
                partition_name: b"kernel".to_vec(),
                digest: vec![1; 32],
            })]),
            properties: page_size
                .map(|v| Property { key: b"com.android.virt.page_size".to_vec(), value: v.to_vec() })
                .into_iter()
                .collect(),
        }],
        partition_data: vec![],
        rollback_indexes: vec![2],
    }
}

#[test]
fn verified_boot_yields_page_size_and_debuggability() {
    let (data, debuggable, page_size) = perform_verified_boot(
        b"kernel",
        None,
        b"key",
        |_: &Payload, p: PartitionName| match p {
            PartitionName::Kernel => Ok(kernel(None)),
            _ => Err(SlotVerifyError::Io),
        },
    )
    .unwrap();
    assert_eq!(data.debug_level, DebugLevel::NotDebuggable);
    assert!(!debuggable);
    assert_eq!(page_size, 4096);

    let (_, _, page_size) = perform_verified_boot(
        b"kernel",
        None,
        b"key",
        |_: &Payload, p: PartitionName| match p {
            PartitionName::Kernel => Ok(kernel(Some(b"16"))),
            _ => Err(SlotVerifyError::Io),
        },
    )
    .unwrap();
    assert_eq!(page_size, 16384);
}

#[test]
fn any_verification_failure_is_one_reboot_reason() {
    for e in [SlotVerifyError::Verification, SlotVerifyError::PublicKeyRejected, SlotVerifyError::Io]
    {
        let r = perform_verified_boot(b"kernel", None, b"key", |_: &Payload, _: PartitionName| Err(e));
        assert_eq!(r.err(), Some(RebootReason::PayloadVerificationError));
    }
    let r = perform_verified_boot(
        b"kernel",
        None,
        b"key",
        |_: &Payload, p: PartitionName| match p {
            PartitionName::Kernel => Ok(kernel(Some(b"3"))),
            _ => Err(SlotVerifyError::Io),
        },
    );
    assert_eq!(r.err(), Some(RebootReason::PayloadVerificationError));
}

#[test]
fn debug_policy_needs_a_debug_chain() {
    let policy: &[u8] = b"policy";
    assert_eq!(effective_debug_policy(Some(policy), true), Some(policy));
    assert_eq!(effective_debug_policy(Some(policy), false), None);
    assert_eq!(effective_debug_policy(None, true), None);
    assert_eq!(effective_debug_policy(None, false), None);
}

#[test]
fn reboot_reasons_have_their_tags() {
    let tags = [
        (RebootReason::InvalidBcc, "PVM_FIRMWARE_INVALID_BCC"),
        (RebootReason::InvalidConfig, "PVM_FIRMWARE_INVALID_CONFIG_DATA"),
        (RebootReason::InternalError, "PVM_FIRMWARE_INTERNAL_ERROR"),
        (RebootReason::InvalidFdt, "PVM_FIRMWARE_INVALID_FDT"),
        (RebootReason::InvalidPayload, "PVM_FIRMWARE_INVALID_PAYLOAD"),
        (RebootReason::InvalidRamdisk, "PVM_FIRMWARE_INVALID_RAMDISK"),
        (RebootReason::PayloadVerificationError, "PVM_FIRMWARE_PAYLOAD_VERIFICATION_FAILED"),
        (RebootReason::SecretDerivationError, "PVM_FIRMWARE_SECRET_DERIVATION_FAILED"),
    ];
    for (reason, tag) in tags {
        assert_eq!(reason.as_avf_reboot_string(), tag);
    }
}

#[test]
fn next_stage_keeps_the_uart_on_request() {
    assert_eq!(select_next_stage(0x8000_0000, true), NextStage::LinuxBootWithUart(0x8000_0000));
    assert_eq!(select_next_stage(0x8000_0000, false), NextStage::LinuxBoot(0x8000_0000));
}

#[test]
fn boot_runs_through_its_stages_in_order() {
    let performed = std::cell::RefCell::new(vec![]);
    let reason = run(&|action: BootAction| {
        performed.borrow_mut().push(action);
        Ok(())
    });
    // The jump to the guest came back.
    assert_eq!(reason, RebootReason::InternalError);
    assert_eq!(
        performed.into_inner(),
        vec![
            BootAction::VerifyPayload,
            BootAction::InspectDiceChain,
            BootAction::DecideRollbackProtection,
            BootAction::DeriveHandover,
            BootAction::ClearSecrets,
            BootAction::JumpToPayload,
        ]
    );
    let mut stage = BootStage::Start;
    let mut steps = 0;
    while let Some(next) = stage.next() {
        assert_ne!(stage.action(), BootAction::JumpToPayload);
        stage = next;
        steps += 1;
    }
    assert_eq!(steps, 5);
    assert_eq!(stage, BootStage::SecretsCleared);
    assert_eq!(stage.action(), BootAction::JumpToPayload);
}

#[test]
fn first_failure_reboots() {
    let actions = [
        BootAction::VerifyPayload,
        BootAction::InspectDiceChain,
        BootAction::DecideRollbackProtection,
        BootAction::DeriveHandover,
        BootAction::ClearSecrets,
        BootAction::JumpToPayload,
    ];
    for (failing, at) in actions.iter().enumerate() {
        let performed = std::cell::RefCell::new(vec![]);
        let reason = run(&|action: BootAction| {
            performed.borrow_mut().push(action);
            if action == *at {
                Err(RebootReason::InvalidFdt)
            } else {
                Ok(())
            }
        });
        assert_eq!(reason, RebootReason::InvalidFdt);
        // Nothing is done after the failure: the guest is not entered.
        assert_eq!(performed.into_inner(), actions[..=failing].to_vec());
    }
}

#[test]
fn salt_is_the_digest_of_the_prefixed_instance_id() {
    assert_eq!(instance_id_input(b"\x01\x02"), b"InstanceId:\x01\x02");
    assert_eq!(instance_id_input(b""), b"InstanceId:");
    let digest = |input: &[u8]| {
        assert_eq!(input, b"InstanceId:abc");
        Some((0..64).collect::<Vec<u8>>())
    };
    let salt = salt_from_instance_id(Ok(Some(b"abc")), digest).unwrap().unwrap();
    assert_eq!(salt.to_vec(), (0..64).collect::<Vec<u8>>());
}

#[test]
fn salt_needs_a_readable_id_and_a_digest_of_64_bytes() {
    let unasked = |_: &[u8]| -> Option<Vec<u8>> { panic!("there is nothing to hash") };
    assert_eq!(salt_from_instance_id(Ok(None), unasked), Ok(None));
    assert_eq!(
        salt_from_instance_id(Err(FdtError::BadValue), unasked),
        Err(RebootReason::InvalidFdt)
    );
    assert_eq!(
        salt_from_instance_id(Ok(Some(b"abc")), |_: &[u8]| None),
        Err(RebootReason::InternalError)
    );
    assert_eq!(
        salt_from_instance_id(Ok(Some(b"abc")), |_: &[u8]| Some(vec![0; 63])),
        Err(RebootReason::InternalError)
    );
    assert_eq!(
        salt_from_instance_id(Ok(Some(b"abc")), |_: &[u8]| Some(vec![0; 65])),
        Err(RebootReason::InternalError)
    );
}

#[test]
fn secrets_are_cleared() {
    let mut secret = [0xa5u8; 100];
    clear_secret(&mut secret);
    assert_eq!(secret, [0u8; 100]);
    let mut empty: [u8; 0] = [];
    clear_secret(&mut empty);
}

fn encode(value: &Value) -> Vec<u8> {
    let mut bytes = Vec::new();
    ciborium::ser::into_writer(value, &mut bytes).unwrap();
    bytes
}

fn chain(mode: u8, alg: coset::iana::Algorithm) -> Vec<u8> {
    let mut key = coset::CoseKeyBuilder::new_okp_key().build();
    key.alg = Some(coset::Algorithm::Assigned(alg));
    let payload = Value::Map(vec![
        (Value::from(-4670551), Value::Bytes(vec![mode])),
        (Value::from(-4670552), Value::Bytes(key.to_vec().unwrap())),
    ]);
    let entry = Value::Array(vec![
        Value::Bytes(vec![]),
        Value::Map(vec![]),
        Value::Bytes(encode(&payload)),
        Value::Bytes(vec![]),
    ]);
    encode(&Value::Array(vec![Value::Null, entry]))
}

fn kdf(cdi: &[u8; 32], _salt: &[u8; 64], info: &str) -> Result<[u8; 32], DiceError> {
    let mut out = *cdi;
    out[31] = info.len() as u8;
    Ok(out)
}

#[test]
fn handover_goes_on_as_received_with_dice_changes() {
    let parse = |bytes: &[u8]| {
        assert_eq!(bytes, b"handover");
        Ok(DiceHandover {
            cdi_attest: [1; 32],
            cdi_seal: [2; 32],
            dice_chain: Some(chain(2, coset::iana::Algorithm::ES256)),
        })
    };
    let (next, cdi_seal, context, debug) =
        parse_dice_handover(b"handover", true, parse, kdf).unwrap();
    assert_eq!(next, b"handover");
    assert_eq!(cdi_seal, vec![2; 32]);
    assert_eq!(
        context,
        DiceContext {
            authority_algorithm: KeyAlgorithm::EcdsaP256,
            subject_algorithm: KeyAlgorithm::Ed25519
        }
    );
    assert!(debug);
}

#[test]
fn handover_is_truncated_without_dice_changes() {
    let parse = |_: &[u8]| {
        Ok(DiceHandover {
            cdi_attest: [1; 32],
            cdi_seal: [2; 32],
            dice_chain: Some(chain(1, coset::iana::Algorithm::EdDSA)),
        })
    };
    let (next, cdi_seal, context, debug) =
        parse_dice_handover(b"handover", false, parse, kdf).unwrap();
    let mut attest = [1u8; 32];
    attest[31] = 14;
    let mut seal = [2u8; 32];
    seal[31] = 12;
    assert_eq!(
        next,
        encode(&Value::Map(vec![
            (Value::from(1), Value::Bytes(attest.to_vec())),
            (Value::from(2), Value::Bytes(seal.to_vec())),
        ]))
    );
    // The CDI for sealing that keys the instance image is the one that was received.
    assert_eq!(cdi_seal, vec![2; 32]);
    assert_eq!(context.authority_algorithm, KeyAlgorithm::Ed25519);
    assert!(!debug);

    let failing = |_: &[u8; 32], _: &[u8; 64], _: &str| Err(DiceError::PlatformError);
    assert_eq!(
        parse_dice_handover(b"handover", false, parse, failing).err(),
        Some(RebootReason::InternalError)
    );
}

#[test]
fn invalid_handovers_are_refused() {
    let unparsed = |_: &[u8]| Err(DiceError::InvalidInput);
    assert_eq!(
        parse_dice_handover(b"handover", true, unparsed, kdf).err(),
        Some(RebootReason::InvalidBcc)
    );
    let chainless =
        |_: &[u8]| Ok(DiceHandover { cdi_attest: [1; 32], cdi_seal: [2; 32], dice_chain: None });
    assert_eq!(
        parse_dice_handover(b"handover", true, chainless, kdf).err(),
        Some(RebootReason::InvalidBcc)
    );
    let unsupported = |_: &[u8]| {
        Ok(DiceHandover {
            cdi_attest: [1; 32],
            cdi_seal: [2; 32],
            dice_chain: Some(chain(1, coset::iana::Algorithm::ES512)),
        })
    };
    assert_eq!(
        parse_dice_handover(b"handover", true, unsupported, kdf).err(),
        Some(RebootReason::InternalError)
    );
}

#[test]
fn failed_derivation_is_a_secret_derivation_error() {
    let inputs = PartialInputs {
        code_hash: [0x11; 64],
        auth_hash: [0x22; 64],
        mode: DiceMode::Normal,
        security_version: 42,
        rkp_vm_marker: false,
        instance_hash: None,
        component_name: "vm_entry".to_string(),
    };
    let context = DiceContext {
        authority_algorithm: KeyAlgorithm::Ed25519,
        subject_algorithm: KeyAlgorithm::Ed25519,
    };
    let hash = |_: &[u8]| Ok([9u8; 64]);
    let mut buffer = [0u8; 4];
    let r = perform_dice_derivation(
        b"handover",
        context,
        inputs.clone(),
        &[0; 64],
        false,
        &mut buffer,
        hash,
        |_: &[u8], inputs: InputValues, _: DiceContext| {
            assert_eq!(inputs.code_hash, [0x11; 64]);
            assert_eq!(inputs.authority_hash, [0x22; 64]);
            assert_eq!(inputs.hidden, [9; 64]);
            Ok(vec![1, 2, 3, 4])
        },
    );
    assert_eq!(r, Ok(()));
    assert_eq!(buffer, [1, 2, 3, 4]);
    let r = perform_dice_derivation(
        b"handover",
        context,
        inputs,
        &[0; 64],
        false,
        &mut buffer,
        hash,
        |_: &[u8], _: InputValues, _: DiceContext| Ok(vec![0; 5]),
    );
    assert_eq!(r, Err(RebootReason::SecretDerivationError));
    assert_eq!(buffer, [1, 2, 3, 4]);
}
