use ciborium::value::Value;
use coset::CborSerializable;
use pvmfw::avb::capability::Capability;
use pvmfw::avb::verify::{DebugLevel, VerifiedBootData};
use pvmfw::dice::chain::{DiceChainError, DiceChainInfo, DiceHandover};
use pvmfw::dice::{
    code_hash_input, hidden_input, to_dice_mode, DiceContext, DiceError, DiceMode, Error,
    InputValues, KeyAlgorithm, PartialInputs, COMPONENT_NAME_KEY, HIDDEN_SIZE,
    INSTANCE_HASH_KEY, RKP_VM_MARKER_KEY, SECURITY_VERSION_KEY, VM_KEY_ALGORITHM,
};
use std::collections::HashMap;

const COMPONENT_VERSION_KEY: i64 = -70003;
const RESETTABLE_KEY: i64 = -70004;
const HASH: [u8; 64] = *b"sixtyfourbyteslongsentencearerarebutletsgiveitatrycantbethathard";

fn base_vb_data() -> VerifiedBootData<'static> {
    VerifiedBootData {
        debug_level: DebugLevel::NotDebuggable,
        kernel_digest: [1u8; 32],
        initrd_digest: Some([2u8; 32]),
        public_key: b"public key",
        capabilities: vec![],
        rollback_index: 42,
        page_size: None,
    }
}

/// A stand-in for the hash of the DICE profile: every byte of the input changes
/// every byte of the result.
fn toy_hash(input: &[u8]) -> Result<[u8; 64], DiceError> {
    let mut state: u64 = 0xcbf2_9ce4_8422_2325 ^ input.len() as u64;
    for b in input {
        state = (state ^ u64::from(*b)).wrapping_mul(0x0000_0100_0000_01b3);
    }
    let mut out = [0u8; 64];
    for chunk in out.chunks_mut(8) {
        state = state.wrapping_mul(0x9e37_79b9_7f4a_7c15).rotate_left(29) ^ 0x5851_f42d_4c95_7f2d;
        chunk.copy_from_slice(&state.to_le_bytes());
    }
    Ok(out)
}

fn failing_hash(_input: &[u8]) -> Result<[u8; 64], DiceError> {
    Err(DiceError::PlatformError)
}

fn decode_config_descriptor(inputs: &PartialInputs) -> HashMap<i64, Value> {
    let config_descriptor = inputs.generate_config_descriptor().unwrap();

    let cbor_map = ciborium::de::from_reader::<Value, _>(config_descriptor.as_slice())
        .unwrap()
        .into_map()
        .unwrap();

    cbor_map.into_iter().map(|(k, v)| ((k.into_integer().unwrap().try_into().unwrap()), v)).collect()
}

#[test]
fn base_data_conversion() {
    let vb_data = base_vb_data();
    let inputs = PartialInputs::new(&vb_data, None, toy_hash).unwrap();

    assert_eq!(inputs.mode, DiceMode::Normal);
    assert_eq!(inputs.security_version, 42);
    assert!(!inputs.rkp_vm_marker);
}

#[test]
fn debuggable_conversion() {
    let vb_data = VerifiedBootData { debug_level: DebugLevel::Full, ..base_vb_data() };
    let inputs = PartialInputs::new(&vb_data, None, toy_hash).unwrap();

    assert_eq!(inputs.mode, DiceMode::Debug);
}

#[test]
fn rkp_vm_conversion() {
    let vb_data =
        VerifiedBootData { capabilities: vec![Capability::RemoteAttest], ..base_vb_data() };
    let inputs = PartialInputs::new(&vb_data, None, toy_hash).unwrap();

    assert!(inputs.rkp_vm_marker);
}

#[test]
fn base_config_descriptor() {
    let vb_data = base_vb_data();
    let inputs = PartialInputs::new(&vb_data, None, toy_hash).unwrap();
    let config_map = decode_config_descriptor(&inputs);

    assert_eq!(config_map.get(&COMPONENT_NAME_KEY).unwrap().as_text().unwrap(), "vm_entry");
    assert_eq!(config_map.get(&COMPONENT_VERSION_KEY), None);
    assert_eq!(config_map.get(&RESETTABLE_KEY), None);
    assert_eq!(config_map.get(&SECURITY_VERSION_KEY).unwrap().as_integer().unwrap(), 42.into());
    assert_eq!(config_map.get(&RKP_VM_MARKER_KEY), None);
    assert_eq!(config_map.get(&INSTANCE_HASH_KEY), None);
}

#[test]
fn rkp_vm_config_descriptor_has_rkp_vm_marker_and_component_name() {
    let vb_data =
        VerifiedBootData { capabilities: vec![Capability::RemoteAttest], ..base_vb_data() };
    let inputs = PartialInputs::new(&vb_data, Some(HASH), toy_hash).unwrap();
    let config_map = decode_config_descriptor(&inputs);

    assert_eq!(config_map.get(&COMPONENT_NAME_KEY).unwrap().as_text().unwrap(), "vm_entry");
    assert!(config_map.get(&RKP_VM_MARKER_KEY).unwrap().is_null());
}

#[test]
fn security_vm_config_descriptor_has_rkp_vm_marker() {
    let vb_data =
        VerifiedBootData { capabilities: vec![Capability::TrustySecurityVm], ..base_vb_data() };
    let inputs = PartialInputs::new(&vb_data, Some(HASH), toy_hash).unwrap();
    let config_map = decode_config_descriptor(&inputs);

    assert!(config_map.get(&RKP_VM_MARKER_KEY).unwrap().is_null());
}

#[test]
fn config_descriptor_with_instance_hash() {
    let vb_data =
        VerifiedBootData { capabilities: vec![Capability::RemoteAttest], ..base_vb_data() };
    let inputs = PartialInputs::new(&vb_data, Some(HASH), toy_hash).unwrap();
    let config_map = decode_config_descriptor(&inputs);
    assert_eq!(*config_map.get(&INSTANCE_HASH_KEY).unwrap(), Value::from(HASH.as_slice()));
}

#[test]
fn config_descriptor_without_instance_hash() {
    let vb_data =
        VerifiedBootData { capabilities: vec![Capability::RemoteAttest], ..base_vb_data() };
    let inputs = PartialInputs::new(&vb_data, None, toy_hash).unwrap();
    let config_map = decode_config_descriptor(&inputs);
    assert!(!config_map.contains_key(&INSTANCE_HASH_KEY));
}

/// A stand-in for the main flow of the DICE profile: the next CDIs depend on the
/// current handover and on every DICE input, the hidden input among them.
fn toy_main_flow(
    current_handover: &[u8],
    inputs: InputValues,
    context: DiceContext,
) -> Result<Vec<u8>, DiceError> {
    let current: Value =
        ciborium::de::from_reader(current_handover).map_err(|_| DiceError::InvalidInput)?;
    let current = current.into_map().map_err(|_| DiceError::InvalidInput)?;
    let cdi = |key: i64| {
        current
            .iter()
            .find(|(k, _)| k.as_integer() == Some(key.into()))
            .and_then(|(_, v)| v.as_bytes().cloned())
            .ok_or(DiceError::InvalidInput)
    };
    let mut seed = Vec::new();
    seed.extend_from_slice(&inputs.code_hash);
    seed.extend_from_slice(&inputs.config_descriptor);
    seed.extend_from_slice(&inputs.authority_hash);
    seed.push(inputs.mode as u8);
    seed.extend_from_slice(&inputs.hidden);
    seed.push(context.authority_algorithm as u8);
    seed.push(context.subject_algorithm as u8);
    let next = |current: Vec<u8>, label: u8| {
        let mut input = current;
        input.extend_from_slice(&seed);
        input.push(label);
        toy_hash(&input).map(|h| h[..32].to_vec())
    };
    let handover = Value::Map(vec![
        (Value::from(1), Value::Bytes(next(cdi(1)?, 1)?)),
        (Value::from(2), Value::Bytes(next(cdi(2)?, 2)?)),
    ]);
    let mut bytes = Vec::new();
    ciborium::ser::into_writer(&handover, &mut bytes).map_err(|_| DiceError::InvalidInput)?;
    Ok(bytes)
}

fn cdi_seal_of(handover: &[u8]) -> Vec<u8> {
    let mut rest = handover;
    let value: Value = ciborium::de::from_reader(&mut rest).unwrap();
    let map = value.into_map().unwrap();
    map.iter()
        .find(|(k, _)| k.as_integer() == Some(2.into()))
        .and_then(|(_, v)| v.as_bytes().cloned())
        .unwrap()
}

const SAMPLE_DICE_INPUT: &[u8] = &[
    0xa3, // CDI attest
    0x01, 0x58, 0x20, 0x00, 0x00, 0x00, 0x00, 0x00, 0x00, 0x00, 0x00, 0x00, 0x00, 0x00, 0x00, 0x00,
    0x00, 0x00, 0x00, 0x00, 0x00, 0x00, 0x00, 0x00, 0x00, 0x00, 0x00, 0x00, 0x00, 0x00, 0x00, 0x00,
    0x00, 0x00, 0x00, // CDI seal
    0x02, 0x58, 0x20, 0x00, 0x00, 0x00, 0x00, 0x00, 0x00, 0x00, 0x00, 0x00, 0x00, 0x00, 0x00, 0x00,
    0x00, 0x00, 0x00, 0x00, 0x00, 0x00, 0x00, 0x00, 0x00, 0x00, 0x00, 0x00, 0x00, 0x00, 0x00, 0x00,
    0x00, 0x00, 0x00, // DICE chain
    0x03, 0x82, 0xa6, 0x01, 0x02, 0x03, 0x27, 0x04, 0x02, 0x20, 0x01, 0x21, 0x40, 0x22, 0x40, 0x84,
    0x40, 0xa0, 0x40, 0x40,
    // 8-bytes of trailing data that aren't part of the DICE chain.
    0x84, 0x41, 0x55, 0xa0, 0x42, 0x11, 0x22, 0x40,
];

#[test]
fn changing_deferred_rpb_changes_secrets() {
    let vb_data = VerifiedBootData { debug_level: DebugLevel::Full, ..base_vb_data() };
    let inputs = PartialInputs::new(&vb_data, Some([0u8; 64]), toy_hash).unwrap();
    let mut buffer_without_defer = [0; 4096];
    let mut buffer_with_defer = [0; 4096];
    let mut buffer_without_defer_retry = [0; 4096];
    let context = DiceContext {
        authority_algorithm: KeyAlgorithm::Ed25519,
        subject_algorithm: KeyAlgorithm::Ed25519,
    };

    inputs
        .clone()
        .write_next_handover(
            SAMPLE_DICE_INPUT,
            &[0u8; HIDDEN_SIZE],
            false,
            &mut buffer_without_defer,
            context.clone(),
            toy_hash,
            toy_main_flow,
        )
        .unwrap();
    let handover1 = cdi_seal_of(&buffer_without_defer);

    inputs
        .clone()
        .write_next_handover(
            SAMPLE_DICE_INPUT,
            &[0u8; HIDDEN_SIZE],
            true,
            &mut buffer_with_defer,
            context.clone(),
            toy_hash,
            toy_main_flow,
        )
        .unwrap();
    let handover2 = cdi_seal_of(&buffer_with_defer);

    inputs
        .clone()
        .write_next_handover(
            SAMPLE_DICE_INPUT,
            &[0u8; HIDDEN_SIZE],
            false,
            &mut buffer_without_defer_retry,
            context.clone(),
            toy_hash,
            toy_main_flow,
        )
        .unwrap();
    let handover3 = cdi_seal_of(&buffer_without_defer_retry);

    assert_ne!(handover1, handover2);
    assert_eq!(handover1, handover3);
}

#[test]
fn dice_derivation_with_different_algorithms_is_valid() {
    let vb_data = VerifiedBootData { debug_level: DebugLevel::Full, ..base_vb_data() };
    let inputs = PartialInputs::new(&vb_data, Some([0u8; 64]), toy_hash).unwrap();
    let mut buffer = [0; 4096];
    let handover_in = |buffer: &[u8]| {
        let mut rest = buffer;
        let _: Value = ciborium::de::from_reader(&mut rest).unwrap();
        buffer[..buffer.len() - rest.len()].to_vec()
    };

    inputs
        .clone()
        .write_next_handover(
            SAMPLE_DICE_INPUT,
            &[0u8; HIDDEN_SIZE],
            true,
            &mut buffer,
            DiceContext {
                authority_algorithm: KeyAlgorithm::Ed25519,
                subject_algorithm: KeyAlgorithm::EcdsaP256,
            },
            toy_hash,
            toy_main_flow,
        )
        .expect("Failed to derive Ed25519 -> EcdsaP256 DICE chain");
    let handover1_bytes = handover_in(&buffer);
    buffer.fill(0);

    inputs
        .clone()
        .write_next_handover(
            &handover1_bytes,
            &[0u8; HIDDEN_SIZE],
            true,
            &mut buffer,
            DiceContext {
                authority_algorithm: KeyAlgorithm::EcdsaP256,
                subject_algorithm: KeyAlgorithm::EcdsaP384,
            },
            toy_hash,
            toy_main_flow,
        )
        .expect("Failed to derive EcdsaP256 -> EcdsaP384 DICE chain");
    let handover2_bytes = handover_in(&buffer);
    buffer.fill(0);

    inputs
        .clone()
        .write_next_handover(
            &handover2_bytes,
            &[0u8; HIDDEN_SIZE],
            true,
            &mut buffer,
            DiceContext {
                authority_algorithm: KeyAlgorithm::EcdsaP384,
                subject_algorithm: KeyAlgorithm::Ed25519,
            },
            toy_hash,
            toy_main_flow,
        )
        .expect("Failed to derive EcdsaP384 -> Ed25519 DICE chain");
    let handover3_bytes = handover_in(&buffer);
    assert_ne!(handover3_bytes, handover2_bytes);
    assert_ne!(handover2_bytes, handover1_bytes);
}

#[test]
fn partial_inputs_hold_the_hashes() {
    let vb_data = VerifiedBootData { initrd_digest: None, ..base_vb_data() };
    let inputs = PartialInputs::new(&vb_data, Some(HASH), toy_hash).unwrap();
    let mut digests = [0u8; 64];
    digests[..32].copy_from_slice(&[1u8; 32]);
    assert_eq!(code_hash_input(&vb_data.kernel_digest, &vb_data.initrd_digest), digests);
    assert_eq!(inputs.code_hash, toy_hash(&digests).unwrap());
    assert_eq!(inputs.auth_hash, toy_hash(b"public key").unwrap());
    assert_eq!(inputs.instance_hash, Some(HASH));
    assert_eq!(inputs.component_name, "vm_entry");

    let with_initrd = base_vb_data();
    let mut both = [1u8; 64];
    both[32..].copy_from_slice(&[2u8; 32]);
    assert_eq!(code_hash_input(&with_initrd.kernel_digest, &with_initrd.initrd_digest), both);
}

#[test]
fn failing_hash_fails_the_inputs() {
    let r = PartialInputs::new(&base_vb_data(), None, failing_hash);
    assert_eq!(r.err(), Some(Error::DiceError(DiceError::PlatformError)));
}

#[test]
fn hidden_input_packs_marker_salt_and_deferral() {
    let mut salt = [0u8; 64];
    salt[0] = 0xaa;
    salt[63] = 0xbb;
    let bytes = hidden_input(true, &salt, false);
    assert_eq!(bytes.len(), 66);
    assert_eq!(bytes[0], 1);
    assert_eq!(&bytes[1..65], &salt);
    assert_eq!(bytes[65], 0);
    assert_eq!(hidden_input(false, &salt, true)[0], 0);
    assert_eq!(hidden_input(false, &salt, true)[65], 1);
    assert_ne!(hidden_input(false, &salt, true), hidden_input(false, &salt, false));
    assert_ne!(hidden_input(false, &salt, true), hidden_input(true, &salt, true));
    assert_ne!(hidden_input(false, &salt, true), hidden_input(false, &[0u8; 64], true));
    assert_eq!(hidden_input(true, &salt, true), hidden_input(true, &salt, true));

    let inputs = PartialInputs::new(&base_vb_data(), None, toy_hash).unwrap();
    assert_eq!(
        inputs.make_hidden(&salt, true, toy_hash),
        toy_hash(&hidden_input(false, &salt, true))
    );
}

#[test]
fn config_descriptor_is_the_encoding_of_the_map() {
    let vb_data =
        VerifiedBootData { capabilities: vec![Capability::TrustySecurityVm], ..base_vb_data() };
    let inputs = PartialInputs::new(&vb_data, Some(HASH), toy_hash).unwrap();
    let expected = Value::Map(vec![
        (Value::from(-70002), Value::from("vm_entry")),
        (Value::from(-70005), Value::from(42)),
        (Value::from(-70006), Value::Null),
        (Value::from(-71003), Value::Bytes(HASH.to_vec())),
    ]);
    assert_eq!(inputs.config_descriptor(), expected);
    let mut bytes = Vec::new();
    ciborium::ser::into_writer(&expected, &mut bytes).unwrap();
    assert_eq!(inputs.generate_config_descriptor().unwrap(), bytes);
    // {-70002: "vm_entry", -70005: 42, -70006: null, -71003: h'...'}
    assert_eq!(&bytes[..2], &[0xa4, 0x3a]);
}

#[test]
fn next_handover_is_written_to_the_head_of_the_buffer() {
    let inputs = PartialInputs::new(&base_vb_data(), None, toy_hash).unwrap();
    let context = DiceContext {
        authority_algorithm: KeyAlgorithm::Ed25519,
        subject_algorithm: VM_KEY_ALGORITHM,
    };
    let flow = |_: &[u8], inputs: InputValues, _: DiceContext| {
        assert_eq!(inputs.mode, DiceMode::Normal);
        assert_eq!(inputs.hidden, toy_hash(&hidden_input(false, &[7u8; 64], false)).unwrap());
        Ok(vec![1, 2, 3])
    };
    let mut buffer = [0xffu8; 8];
    inputs.clone().write_next_handover(&[], &[7u8; 64], false, &mut buffer, context, toy_hash, flow).unwrap();
    assert_eq!(buffer, [1, 2, 3, 0xff, 0xff, 0xff, 0xff, 0xff]);

    let mut small = [0xffu8; 2];
    let r = inputs.clone().write_next_handover(
        &[],
        &[7u8; 64],
        false,
        &mut small,
        context,
        toy_hash,
        |_: &[u8], _: InputValues, _: DiceContext| Ok(vec![1, 2, 3]),
    );
    assert_eq!(r, Err(Error::DiceError(DiceError::BufferTooSmall(3))));
    assert_eq!(small, [0xff, 0xff]);

    let r = inputs.clone().write_next_handover(
        &[],
        &[7u8; 64],
        false,
        &mut small,
        context,
        toy_hash,
        |_: &[u8], _: InputValues, _: DiceContext| Err(DiceError::PlatformError),
    );
    assert_eq!(r, Err(Error::DiceError(DiceError::PlatformError)));

    let r = inputs.write_next_handover(
        &[],
        &[7u8; 64],
        false,
        &mut small,
        context,
        failing_hash,
        |_: &[u8], _: InputValues, _: DiceContext| Ok(vec![]),
    );
    assert_eq!(r, Err(Error::DiceError(DiceError::PlatformError)));
}

#[test]
fn result_codes_of_dice_operations() {
    assert_eq!(pvmfw::dice::check_result(0, 64), Ok(()));
    assert_eq!(pvmfw::dice::check_result(1, 64), Err(DiceError::InvalidInput));
    assert_eq!(pvmfw::dice::check_result(2, 64), Err(DiceError::BufferTooSmall(64)));
    assert_eq!(pvmfw::dice::check_result(3, 64), Err(DiceError::PlatformError));
    assert_eq!(pvmfw::dice::check_result(99, 64), Err(DiceError::PlatformError));
}

#[test]
fn dice_modes_and_key_algorithms() {
    assert_eq!(to_dice_mode(DebugLevel::NotDebuggable), DiceMode::Normal);
    assert_eq!(to_dice_mode(DebugLevel::Full), DiceMode::Debug);
    assert_eq!(KeyAlgorithm::from_cose(-8), Ok(KeyAlgorithm::Ed25519));
    assert_eq!(KeyAlgorithm::from_cose(-7), Ok(KeyAlgorithm::EcdsaP256));
    assert_eq!(KeyAlgorithm::from_cose(-35), Ok(KeyAlgorithm::EcdsaP384));
    assert_eq!(KeyAlgorithm::from_cose(-36), Err(DiceError::UnsupportedKeyAlgorithm(-36)));
    assert_eq!(VM_KEY_ALGORITHM, KeyAlgorithm::Ed25519);
}

// The DICE chain.

fn encode(value: &Value) -> Vec<u8> {
    let mut bytes = Vec::new();
    ciborium::ser::into_writer(value, &mut bytes).unwrap();
    bytes
}

fn cose_key(alg: Option<coset::Algorithm>) -> Vec<u8> {
    let mut key = coset::CoseKeyBuilder::new_okp_key().build();
    key.alg = alg;
    key.to_vec().unwrap()
}

fn ed25519_key() -> Vec<u8> {
    cose_key(Some(coset::Algorithm::Assigned(coset::iana::Algorithm::EdDSA)))
}

fn payload(mode: Option<Value>, subject_public_key: Option<Value>) -> Value {
    let mut pairs = vec![(Value::from(1), Value::from("issuer"))];
    if let Some(mode) = mode {
        pairs.push((Value::from(-4670551), mode));
    }
    if let Some(key) = subject_public_key {
        pairs.push((Value::from(-4670552), key));
    }
    Value::Map(pairs)
}

fn entry(payload: &Value) -> Value {
    Value::Array(vec![
        Value::Bytes(vec![0xa1, 0x01, 0x27]),
        Value::Map(vec![]),
        Value::Bytes(encode(payload)),
        Value::Bytes(vec![0; 64]),
    ])
}

fn chain(entries: Vec<Value>) -> Vec<u8> {
    let mut items = vec![Value::Map(vec![(Value::from(1), Value::from(1))])];
    items.extend(entries);
    encode(&Value::Array(items))
}

fn mode_bytes(mode: u8) -> Option<Value> {
    Some(Value::Bytes(vec![mode]))
}

fn key_bytes() -> Option<Value> {
    Some(Value::Bytes(ed25519_key()))
}

#[test]
fn chain_is_debug_if_any_entry_is() {
    for n in 1..6 {
        let normal: Vec<Value> =
            (0..n).map(|_| entry(&payload(mode_bytes(1), key_bytes()))).collect();
        let info = DiceChainInfo::new(Some(&chain(normal.clone()))).unwrap();
        assert!(!info.is_debug_mode(), "{n} normal entries");
        assert_eq!(info.leaf_subject_pubkey().cose_alg, -8);
        for debug_at in 0..n {
            let mut entries = normal.clone();
            entries[debug_at] = entry(&payload(mode_bytes(2), key_bytes()));
            let info = DiceChainInfo::new(Some(&chain(entries))).unwrap();
            assert!(info.is_debug_mode(), "entry {debug_at} of {n} is debug");
        }
    }
}

#[test]
fn mode_is_read_as_bytes_or_integer() {
    let debug_of = |mode: Option<Value>| {
        DiceChainInfo::new(Some(&chain(vec![entry(&payload(mode, key_bytes()))])))
            .map(|info| info.is_debug_mode)
    };
    assert_eq!(debug_of(None), Ok(false));
    assert_eq!(debug_of(mode_bytes(0)), Ok(false));
    assert_eq!(debug_of(mode_bytes(3)), Ok(false));
    assert_eq!(debug_of(Some(Value::from(2))), Ok(true));
    assert_eq!(debug_of(Some(Value::from(1))), Ok(false));
    assert_eq!(debug_of(Some(Value::from(-2))), Ok(false));
    assert_eq!(
        debug_of(Some(Value::Bytes(vec![2, 0]))),
        Err(DiceChainError::Malformed("Invalid mode bstr"))
    );
    assert_eq!(
        debug_of(Some(Value::Bytes(vec![]))),
        Err(DiceChainError::Malformed("Invalid mode bstr"))
    );
    assert_eq!(
        debug_of(Some(Value::from("debug"))),
        Err(DiceChainError::Malformed("Invalid type for mode"))
    );
}

#[test]
fn entries_after_the_first_debug_one_are_not_read_for_their_mode() {
    let debug = entry(&payload(mode_bytes(2), key_bytes()));
    let odd = entry(&payload(Some(Value::from("odd")), key_bytes()));
    let info = DiceChainInfo::new(Some(&chain(vec![debug.clone(), odd.clone()]))).unwrap();
    assert!(info.is_debug_mode);
    assert_eq!(
        DiceChainInfo::new(Some(&chain(vec![odd, debug]))),
        Err(DiceChainError::Malformed("Invalid type for mode"))
    );
}

#[test]
fn missing_and_ill_formed_chains_are_refused() {
    assert_eq!(DiceChainInfo::new(None), Err(DiceChainError::Missing));
    assert_eq!(DiceChainInfo::new(Some(&[])), Err(DiceChainError::Missing));
    assert_eq!(DiceChainInfo::new(Some(&[0xff])), Err(DiceChainError::CborDecodeError));
    // An array that is cut short.
    assert_eq!(DiceChainInfo::new(Some(&[0x82, 0x01])), Err(DiceChainError::CborDecodeError));
    // A value that is followed by another byte.
    let mut trailing = chain(vec![entry(&payload(None, key_bytes()))]);
    trailing.push(0);
    assert_eq!(DiceChainInfo::new(Some(&trailing)), Err(DiceChainError::CborDecodeError));
    let top = DiceChainError::Malformed("Invalid top level value");
    assert_eq!(DiceChainInfo::new(Some(&encode(&Value::from(7)))), Err(top));
    assert_eq!(DiceChainInfo::new(Some(&chain(vec![]))), Err(top));
    assert_eq!(DiceChainInfo::new(Some(&encode(&Value::Array(vec![])))), Err(top));
    assert_eq!(DiceChainInfo::new(Some(&encode(&Value::Map(vec![])))), Err(top));
}

#[test]
fn ill_formed_entries_are_refused() {
    let new = |entries: Vec<Value>| DiceChainInfo::new(Some(&chain(entries)));
    let bad_entry = DiceChainError::Malformed("Invalid DiceChainEntryPayload");
    assert_eq!(new(vec![Value::from(1)]), Err(bad_entry));
    assert_eq!(new(vec![Value::Array(vec![Value::Null; 3])]), Err(bad_entry));
    assert_eq!(new(vec![Value::Array(vec![Value::Null; 4])]), Err(bad_entry));
    let not_cbor = Value::Array(vec![
        Value::Bytes(vec![]),
        Value::Map(vec![]),
        Value::Bytes(vec![0xff]),
        Value::Bytes(vec![]),
    ]);
    assert_eq!(new(vec![not_cbor]), Err(DiceChainError::CborDecodeError));
    // The first entry is in order, the second is not: every payload is decoded.
    let good = entry(&payload(mode_bytes(2), key_bytes()));
    assert_eq!(new(vec![good, Value::from(1)]), Err(bad_entry));
}

#[test]
fn leaf_subject_public_key_is_required() {
    let new = |key: Option<Value>| {
        DiceChainInfo::new(Some(&chain(vec![
            entry(&payload(None, None)),
            entry(&payload(None, key)),
        ])))
    };
    assert_eq!(new(None), Err(DiceChainError::Malformed("Subject public key missing")));
    assert_eq!(
        new(Some(Value::from(3))),
        Err(DiceChainError::Malformed("Subject public key is not a byte string"))
    );
    assert_eq!(new(Some(Value::Bytes(vec![0xff]))), Err(DiceChainError::CosetError));
    let invalid = DiceChainError::Malformed("Invalid algorithm in public key");
    assert_eq!(new(Some(Value::Bytes(cose_key(None)))), Err(invalid));
    assert_eq!(
        new(Some(Value::Bytes(cose_key(Some(coset::Algorithm::PrivateUse(-70000)))))),
        Err(invalid)
    );
    assert_eq!(
        new(Some(Value::Bytes(cose_key(Some(coset::Algorithm::Text("mine".to_string())))))),
        Err(invalid)
    );
    let es384 = cose_key(Some(coset::Algorithm::Assigned(coset::iana::Algorithm::ES384)));
    assert_eq!(new(Some(Value::Bytes(es384))).unwrap().leaf_subject_pubkey.cose_alg, -35);
}

#[test]
fn payload_that_is_no_map_holds_nothing() {
    let r = DiceChainInfo::new(Some(&chain(vec![entry(&Value::from(5))])));
    assert_eq!(r, Err(DiceChainError::Malformed("Subject public key missing")));
}

#[test]
fn first_occurrence_of_a_key_counts() {
    let twice = Value::Map(vec![
        (Value::from("-4670551"), Value::from("ignored")),
        (Value::from(-4670551), Value::Bytes(vec![2])),
        (Value::from(-4670551), Value::Bytes(vec![1])),
        (Value::from(-4670552), Value::Bytes(ed25519_key())),
    ]);
    let info = DiceChainInfo::new(Some(&chain(vec![entry(&twice)]))).unwrap();
    assert!(info.is_debug_mode);
    assert_eq!(DiceChainInfo::inspect(&Value::Array(vec![Value::Null, entry(&twice)])), Ok(info));
}

#[test]
fn handover_is_truncated_to_the_tainted_cdis() {
    let handover =
        DiceHandover { cdi_attest: [1; 32], cdi_seal: [2; 32], dice_chain: Some(vec![1, 2, 3]) };
    let kdf = |cdi: &[u8; 32], salt: &[u8; 64], info: &str| {
        assert_eq!(salt[0], 0xdc);
        assert_eq!(salt[63], 0xd3);
        let mut out = *cdi;
        out[0] = info.len() as u8;
        Ok(out)
    };
    let bytes = pvmfw::dice::chain::truncate(&handover, kdf).unwrap();
    let mut attest = [1u8; 32];
    attest[0] = "TaintCdiAttest".len() as u8;
    let mut seal = [2u8; 32];
    seal[0] = "TaintCdiSeal".len() as u8;
    let expected = Value::Map(vec![
        (Value::from(1), Value::Bytes(attest.to_vec())),
        (Value::from(2), Value::Bytes(seal.to_vec())),
    ]);
    assert_eq!(bytes, encode(&expected));

    let failing = |_: &[u8; 32], _: &[u8; 64], info: &str| {
        if info == "TaintCdiAttest" {
            Err(DiceError::PlatformError)
        } else {
            Ok([0u8; 32])
        }
    };
    assert_eq!(
        pvmfw::dice::chain::truncate(&handover, failing),
        Err(DiceChainError::DiceError(DiceError::PlatformError))
    );
}
