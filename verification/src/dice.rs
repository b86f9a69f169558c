//! The DICE chain that the firmware receives and the DICE inputs that it derives.

use crate::avb::capability::Capability;
use crate::avb::verify::{digest_view, DebugLevel, Digest, VerifiedBootData};
use crate::cbor::{
    cbor_encoded, pair_models, value_from_bytes, value_from_i64, value_from_pairs,
    value_from_text, value_from_u64, value_model, value_null, write_value, CborModel,
};
use crate::dice::chain::spec_lookup;
use ciborium::value::Value;
use vstd::prelude::*;

pub mod chain;

verus! {

/// The size of a hash of the DICE profile, in bytes.
pub const HASH_SIZE: usize = 64;

/// The size of the hidden input of a DICE derivation, in bytes.
pub const HIDDEN_SIZE: usize = 64;

/// The size of a compound device identifier, in bytes.
pub const CDI_SIZE: usize = 32;

/// The size of the value that the hidden input is the hash of, in bytes.
pub const HIDDEN_INPUT_SIZE: usize = 66;

/// A hash of the DICE profile.
pub type Hash = [u8; 64];

/// The hidden input of a DICE derivation.
pub type Hidden = [u8; 64];

/// A compound device identifier.
pub type Cdi = [u8; 32];

/// The key of the component name in the configuration descriptor.
pub const COMPONENT_NAME_KEY: i64 = -70002;

/// The key of the security version in the configuration descriptor.
pub const SECURITY_VERSION_KEY: i64 = -70005;

/// The key that marks the guest as an RKP VM in the configuration descriptor.
pub const RKP_VM_MARKER_KEY: i64 = -70006;

/// The key of the instance hash in the configuration descriptor.
pub const INSTANCE_HASH_KEY: i64 = -71003;

/// The mode of a DICE stage.
#[derive(Clone, Copy, Debug, PartialEq, Eq, Structural)]
pub enum DiceMode {
    /// The mode is not set.
    NotInitialized,
    /// The stage booted securely.
    Normal,
    /// The stage can be debugged.
    Debug,
    /// The stage is under maintenance.
    Maintenance,
}

/// A failure of a DICE operation.
#[derive(Clone, Copy, Debug, PartialEq, Eq, Structural)]
pub enum DiceError {
    /// An input of the operation was invalid.
    InvalidInput,
    /// The output does not fit the buffer; the size that is needed.
    BufferTooSmall(usize),
    /// The platform failed.
    PlatformError,
    /// The key algorithm, given by its number in the IANA registry of COSE
    /// algorithms, is not one that the DICE profile supports.
    UnsupportedKeyAlgorithm(i64),
    /// Memory could not be allocated.
    MemoryAllocationError,
    /// The handover holds no DICE chain.
    DiceChainNotFound,
}

/// What a result code of the DICE operations means, for an operation on a buffer
/// of `buffer_size` bytes: zero is success; any code that the profile does not
/// define counts as a failure of the platform.
pub open spec fn spec_check_result(result: u32, buffer_size: usize) -> Result<(), DiceError> {
    if result == 0 {
        Ok(())
    } else if result == 1 {
        Err(DiceError::InvalidInput)
    } else if result == 2 {
        Err(DiceError::BufferTooSmall(buffer_size))
    } else {
        Err(DiceError::PlatformError)
    }
}

/// Reads the result code of a DICE operation.
pub fn check_result(result: u32, buffer_size: usize) -> (r: Result<(), DiceError>)
    ensures
        r == spec_check_result(result, buffer_size),
{
    if result == 0 {
        Ok(())
    } else if result == 1 {
        Err(DiceError::InvalidInput)
    } else if result == 2 {
        Err(DiceError::BufferTooSmall(buffer_size))
    } else {
        Err(DiceError::PlatformError)
    }
}

/// Why the DICE inputs could not be derived.
#[derive(Clone, Copy, Debug, PartialEq, Eq, Structural)]
pub enum Error {
    /// A CBOR operation failed.
    CborError,
    /// A DICE operation failed.
    DiceError(DiceError),
}

/// A key algorithm of the DICE profile.
#[derive(Clone, Copy, Debug, PartialEq, Eq, Structural)]
pub enum KeyAlgorithm {
    /// Ed25519.
    Ed25519,
    /// ECDSA with the curve P-256.
    EcdsaP256,
    /// ECDSA with the curve P-384.
    EcdsaP384,
}

/// The key algorithm of the certificates that the firmware issues.
pub const VM_KEY_ALGORITHM: KeyAlgorithm = KeyAlgorithm::Ed25519;

/// The key algorithms of a DICE derivation.
#[derive(Clone, Copy, Debug, PartialEq, Eq, Structural)]
pub struct DiceContext {
    /// The algorithm of the key that signs the new certificate.
    pub authority_algorithm: KeyAlgorithm,
    /// The algorithm of the key that the new certificate is for.
    pub subject_algorithm: KeyAlgorithm,
}

impl KeyAlgorithm {
    /// The key algorithm that a COSE algorithm stands for, by its number in the
    /// IANA registry: EdDSA, ES256 or ES384.
    pub open spec fn spec_from_cose(cose_alg: i64) -> Result<KeyAlgorithm, DiceError> {
        if cose_alg == -8 {
            Ok(KeyAlgorithm::Ed25519)
        } else if cose_alg == -7 {
            Ok(KeyAlgorithm::EcdsaP256)
        } else if cose_alg == -35 {
            Ok(KeyAlgorithm::EcdsaP384)
        } else {
            Err(DiceError::UnsupportedKeyAlgorithm(cose_alg))
        }
    }

    /// The key algorithm that a COSE algorithm stands for.
    pub fn from_cose(cose_alg: i64) -> (r: Result<KeyAlgorithm, DiceError>)
        ensures
            r == Self::spec_from_cose(cose_alg),
    {
        if cose_alg == -8 {
            Ok(KeyAlgorithm::Ed25519)
        } else if cose_alg == -7 {
            Ok(KeyAlgorithm::EcdsaP256)
        } else if cose_alg == -35 {
            Ok(KeyAlgorithm::EcdsaP384)
        } else {
            Err(DiceError::UnsupportedKeyAlgorithm(cose_alg))
        }
    }
}

/// The DICE mode of a guest with the given debug level.
pub open spec fn spec_to_dice_mode(debug_level: DebugLevel) -> DiceMode {
    match debug_level {
        DebugLevel::NotDebuggable => DiceMode::Normal,
        DebugLevel::Full => DiceMode::Debug,
    }
}

/// The DICE mode of a guest with the given debug level.
pub fn to_dice_mode(debug_level: DebugLevel) -> (r: DiceMode)
    ensures
        r == spec_to_dice_mode(debug_level),
{
    match debug_level {
        DebugLevel::NotDebuggable => DiceMode::Normal,
        DebugLevel::Full => DiceMode::Debug,
    }
}

/// The value that the code hash is the hash of: the digest of the kernel, then
/// the digest of the initrd, or as many zeros where there is no initrd.
pub open spec fn spec_code_hash_input(
    kernel_digest: Seq<u8>,
    initrd_digest: Option<Seq<u8>>,
) -> Seq<u8> {
    kernel_digest + match initrd_digest {
        Some(digest) => digest,
        None => Seq::new(32, |i: int| 0u8),
    }
}

/// The value that the code hash is the hash of.
pub fn code_hash_input(kernel_digest: &Digest, initrd_digest: &Option<Digest>) -> (r: [u8; 64])
    ensures
        r@ == spec_code_hash_input(kernel_digest@, digest_view(*initrd_digest)),
{
    let mut digests = [0u8; 64];
    let mut i: usize = 0;
    while i < 32
        invariant
            i <= 32,
            forall|j: int| 0 <= j < i ==> digests@[j] == kernel_digest@[j],
            forall|j: int| 32 <= j < 64 ==> digests@[j] == 0,
        decreases 32 - i,
    {
        digests[i] = kernel_digest[i];
        i += 1;
    }
    if let Some(initrd_digest) = initrd_digest {
        let mut i: usize = 0;
        while i < 32
            invariant
                i <= 32,
                forall|j: int| 0 <= j < 32 ==> digests@[j] == kernel_digest@[j],
                forall|j: int| 0 <= j < i ==> digests@[32 + j] == initrd_digest@[j],
            decreases 32 - i,
        {
            digests[32 + i] = initrd_digest[i];
            i += 1;
        }
        assert(digests@ =~= kernel_digest@ + initrd_digest@);
    } else {
        assert(digests@ =~= kernel_digest@ + Seq::new(32, |i: int| 0u8));
    }
    digests
}

/// The value that the hidden input is the hash of: the marker of an RKP VM as one
/// byte, the salt, and whether rollback protection is deferred as one byte.
pub open spec fn spec_hidden_input(
    rkp_vm_marker: bool,
    salt: Seq<u8>,
    deferred_rollback_protection: bool,
) -> Seq<u8> {
    seq![if rkp_vm_marker { 1u8 } else { 0u8 }] + salt + seq![
        if deferred_rollback_protection {
            1u8
        } else {
            0u8
        },
    ]
}

/// The value that the hidden input is the hash of.
///
/// The hidden input decides the sealing secret of the guest, which must differ
/// between guests of different salts, between an RKP VM and any other guest, and
/// with rollback protection deferred or not. The hidden input has a fixed size,
/// so it is the hash of a value that holds all three.
pub fn hidden_input(rkp_vm_marker: bool, salt: &Hidden, deferred_rollback_protection: bool) -> (r:
    [u8; 66])
    ensures
        r@ == spec_hidden_input(rkp_vm_marker, salt@, deferred_rollback_protection),
{
    let mut bytes = [0u8; 66];
    bytes[0] = if rkp_vm_marker { 1 } else { 0 };
    let mut i: usize = 0;
    while i < 64
        invariant
            i <= 64,
            bytes@[0] == (if rkp_vm_marker { 1u8 } else { 0u8 }),
            forall|j: int| 0 <= j < i ==> bytes@[1 + j] == salt@[j],
        decreases 64 - i,
    {
        bytes[1 + i] = salt[i];
        i += 1;
    }
    bytes[65] = if deferred_rollback_protection { 1 } else { 0 };
    assert(bytes@ =~= spec_hidden_input(rkp_vm_marker, salt@, deferred_rollback_protection));
    bytes
}

/// The values that differ in the marker, in the salt or in the deferral give
/// different values to hash: the hidden input can tell such guests apart.
pub proof fn lemma_hidden_input_injective(
    marker1: bool,
    salt1: Seq<u8>,
    deferred1: bool,
    marker2: bool,
    salt2: Seq<u8>,
    deferred2: bool,
)
    requires
        salt1.len() == 64,
        salt2.len() == 64,
        spec_hidden_input(marker1, salt1, deferred1) == spec_hidden_input(
            marker2,
            salt2,
            deferred2,
        ),
    ensures
        marker1 == marker2,
        salt1 == salt2,
        deferred1 == deferred2,
{
    let a = spec_hidden_input(marker1, salt1, deferred1);
    let b = spec_hidden_input(marker2, salt2, deferred2);
    assert(a[0] == b[0]);
    assert(a[65] == b[65]);
    assert forall|i: int| 0 <= i < 64 implies salt1[i] == salt2[i] by {
        assert(a[i + 1] == salt1[i]);
        assert(b[i + 1] == salt2[i]);
    }
    assert(salt1 =~= salt2);
}

/// Whether a guest with the given capabilities is marked as an RKP VM.
pub open spec fn spec_rkp_vm_marker(capabilities: Seq<Capability>) -> bool {
    capabilities.contains(Capability::RemoteAttest) || capabilities.contains(
        Capability::TrustySecurityVm,
    )
}

/// What the firmware knows of the DICE inputs of the guest before rollback
/// protection has been decided.
#[derive(Clone, Debug)]
pub struct PartialInputs {
    /// The hash of the code of the guest: of the digests of kernel and initrd.
    pub code_hash: Hash,
    /// The hash of the authority of the guest: of the trusted public key.
    pub auth_hash: Hash,
    /// The DICE mode of the guest.
    pub mode: DiceMode,
    /// The security version of the guest: the rollback index of its kernel.
    pub security_version: u64,
    /// Whether the guest is marked as an RKP VM.
    pub rkp_vm_marker: bool,
    /// The salt that was derived from the instance id of the guest, if it has one.
    pub instance_hash: Option<Hash>,
    /// The name of the component that the certificate is for.
    pub component_name: String,
}

/// The inputs of a DICE derivation.
#[derive(Debug)]
pub struct InputValues {
    /// The hash of the code of the next stage.
    pub code_hash: Hash,
    /// The configuration descriptor of the next stage, as CBOR.
    pub config_descriptor: Vec<u8>,
    /// The hash of the authority of the next stage.
    pub authority_hash: Hash,
    /// The DICE mode of the next stage.
    pub mode: DiceMode,
    /// The hidden input.
    pub hidden: Hidden,
}

impl PartialInputs {
    /// Whether these are the inputs of a guest with the given boot data and
    /// instance hash, whose code and authority have the given hashes.
    pub open spec fn is_for(
        self,
        data: VerifiedBootData,
        instance_hash: Option<Hash>,
        code_hash: Hash,
        auth_hash: Hash,
    ) -> bool {
        &&& self.code_hash == code_hash
        &&& self.auth_hash == auth_hash
        &&& self.mode == spec_to_dice_mode(data.debug_level)
        &&& self.security_version == data.rollback_index
        &&& self.rkp_vm_marker == spec_rkp_vm_marker(data.capabilities@)
        &&& self.instance_hash == instance_hash
        &&& self.component_name@ == "vm_entry"@
    }

    /// Whether `r` is what the derivation of the inputs yields with the hash
    /// function `hash`: the hashes of code and authority, or the error of the
    /// first of the two that fails.
    pub open spec fn is_derived<H: Fn(&[u8]) -> Result<Hash, DiceError>>(
        r: Result<PartialInputs, Error>,
        data: VerifiedBootData,
        instance_hash: Option<Hash>,
        hash: H,
        digests: &[u8],
        code: Result<Hash, DiceError>,
        auth: Result<Hash, DiceError>,
    ) -> bool {
        &&& digests@ == spec_code_hash_input(data.kernel_digest@, digest_view(data.initrd_digest))
        &&& call_ensures(hash, (digests,), code)
        &&& code is Ok ==> call_ensures(hash, (data.public_key,), auth)
        &&& match code {
            Err(e) => r == Err::<PartialInputs, Error>(Error::DiceError(e)),
            Ok(code_hash) => match auth {
                Err(e) => r == Err::<PartialInputs, Error>(Error::DiceError(e)),
                Ok(auth_hash) => r matches Ok(inputs) && inputs.is_for(
                    data,
                    instance_hash,
                    code_hash,
                    auth_hash,
                ),
            },
        }
    }

    /// Derives the partial DICE inputs of a verified payload.
    ///
    /// `hash` is the hash function of the DICE profile.
    pub fn new<H: Fn(&[u8]) -> Result<Hash, DiceError>>(
        data: &VerifiedBootData,
        instance_hash: Option<Hash>,
        hash: H,
    ) -> (r: Result<Self, Error>)
        requires
            forall|input: &[u8]| call_requires(hash, (input,)),
        ensures
            exists|digests: &[u8], code: Result<Hash, DiceError>, auth: Result<Hash, DiceError>|
                Self::is_derived(r, *data, instance_hash, hash, digests, code, auth),
    {
        let digest_array = code_hash_input(&data.kernel_digest, &data.initrd_digest);
        let digests = digest_array.as_slice();
        let code = hash(digests);
        let code_hash = match code {
            Ok(code_hash) => code_hash,
            Err(e) => {
                let r = Err(Error::DiceError(e));
                assert(Self::is_derived(
                    r,
                    *data,
                    instance_hash,
                    hash,
                    digests,
                    code,
                    code,
                ));
                return r;
            },
        };
        let auth = hash(data.public_key);
        let auth_hash = match auth {
            Ok(auth_hash) => auth_hash,
            Err(e) => {
                let r = Err(Error::DiceError(e));
                assert(Self::is_derived(
                    r,
                    *data,
                    instance_hash,
                    hash,
                    digests,
                    code,
                    auth,
                ));
                return r;
            },
        };
        let mode = to_dice_mode(data.debug_level);
        let component_name = "vm_entry".to_owned();
        // The rollback index of the vbmeta image is the security version of the
        // certificate.
        let security_version = data.rollback_index;
        let rkp_vm_marker = data.has_capability(Capability::RemoteAttest) || data.has_capability(
            Capability::TrustySecurityVm,
        );
        let r = Ok(
            Self {
                code_hash,
                auth_hash,
                mode,
                security_version,
                rkp_vm_marker,
                instance_hash,
                component_name,
            },
        );
        assert(Self::is_derived(r, *data, instance_hash, hash, digests, code, auth));
        r
    }

    /// The configuration descriptor of the certificate: a map of the component
    /// name and the security version, of the marker of an RKP VM as a key with
    /// the null value if the guest is one, and of the instance hash if the guest
    /// has one.
    pub open spec fn spec_config_descriptor(self) -> CborModel {
        CborModel::Pairs(
            seq![
                (
                    CborModel::Integer(COMPONENT_NAME_KEY as int),
                    CborModel::Text(self.component_name@),
                ),
                (
                    CborModel::Integer(SECURITY_VERSION_KEY as int),
                    CborModel::Integer(self.security_version as int),
                ),
            ] + (if self.rkp_vm_marker {
                seq![(CborModel::Integer(RKP_VM_MARKER_KEY as int), CborModel::Null)]
            } else {
                Seq::<(CborModel, CborModel)>::empty()
            }) + (match self.instance_hash {
                Some(instance_hash) => seq![
                    (
                        CborModel::Integer(INSTANCE_HASH_KEY as int),
                        CborModel::Bytes(instance_hash@),
                    ),
                ],
                None => Seq::<(CborModel, CborModel)>::empty(),
            }),
        )
    }

    /// Builds the configuration descriptor of the certificate as a CBOR value.
    pub fn config_descriptor(&self) -> (v: Value)
        ensures
            value_model(v) == self.spec_config_descriptor(),
    {
        let mut config: Vec<(Value, Value)> = Vec::with_capacity(4);
        config.push(
            (value_from_i64(COMPONENT_NAME_KEY), value_from_text(self.component_name.as_str())),
        );
        config.push((value_from_i64(SECURITY_VERSION_KEY), value_from_u64(self.security_version)));
        if self.rkp_vm_marker {
            config.push((value_from_i64(RKP_VM_MARKER_KEY), value_null()));
        }
        if let Some(instance_hash) = &self.instance_hash {
            config.push(
                (value_from_i64(INSTANCE_HASH_KEY), value_from_bytes(instance_hash.as_slice())),
            );
        }
        assert(pair_models(config@) =~= self.spec_config_descriptor()->Pairs_0);
        value_from_pairs(config)
    }

    /// Encodes the configuration descriptor of the certificate.
    pub fn generate_config_descriptor(&self) -> (r: Result<Vec<u8>, Error>)
        ensures
            match r {
                Ok(bytes) => cbor_encoded(self.spec_config_descriptor()) == Some(bytes@),
                Err(e) => e == Error::CborError && cbor_encoded(self.spec_config_descriptor())
                    is None,
            },
    {
        let config = self.config_descriptor();
        proof {
            lemma_config_descriptor_exact(*self);
        }
        match write_value(&config) {
            Some(bytes) => Ok(bytes),
            None => Err(Error::CborError),
        }
    }

    /// Whether these are the DICE inputs of the guest, with the given
    /// configuration descriptor and hidden input.
    pub open spec fn is_completed_by(
        self,
        inputs: InputValues,
        config_descriptor: Seq<u8>,
        hidden: Hidden,
    ) -> bool {
        &&& inputs.code_hash == self.code_hash
        &&& inputs.config_descriptor@ == config_descriptor
        &&& inputs.authority_hash == self.auth_hash
        &&& inputs.mode == self.mode
        &&& inputs.hidden == hidden
    }

    /// Whether a buffer that held `before` holds `after` once the next handover
    /// has been written with outcome `r`.
    ///
    /// The configuration descriptor is encoded and the hidden input computed with
    /// `hash`; `main_flow` then derives the next handover from the current one and
    /// the DICE inputs. The handover is written to the head of the buffer. On any
    /// failure, and where the handover does not fit, the buffer is left as it
    /// was. `input`, `hidden`, `inputs` and `out` are what went into the two
    /// functions and what came out of them, as far as they were called.
    pub open spec fn is_written<
        H: Fn(&[u8]) -> Result<Hash, DiceError>,
        M: FnOnce(&[u8], InputValues, DiceContext) -> Result<Vec<u8>, DiceError>,
    >(
        self,
        current_handover: &[u8],
        salt: Seq<u8>,
        deferred_rollback_protection: bool,
        context: DiceContext,
        hash: H,
        main_flow: M,
        before: Seq<u8>,
        after: Seq<u8>,
        r: Result<(), Error>,
        input: &[u8],
        hidden: Result<Hash, DiceError>,
        inputs: InputValues,
        out: Result<Vec<u8>, DiceError>,
    ) -> bool {
        match cbor_encoded(self.spec_config_descriptor()) {
            None => r == Err::<(), Error>(Error::DiceError(DiceError::InvalidInput)) && after
                == before,
            Some(config) => {
                &&& input@ == spec_hidden_input(
                    self.rkp_vm_marker,
                    salt,
                    deferred_rollback_protection,
                )
                &&& call_ensures(hash, (input,), hidden)
                &&& match hidden {
                    Err(e) => r == Err::<(), Error>(Error::DiceError(e)) && after == before,
                    Ok(hidden) => {
                        &&& self.is_completed_by(inputs, config, hidden)
                        &&& call_ensures(main_flow, (current_handover, inputs, context), out)
                        &&& match out {
                            Err(e) => r == Err::<(), Error>(Error::DiceError(e)) && after
                                == before,
                            Ok(handover) => if handover@.len() <= before.len() {
                                r == Ok::<(), Error>(()) && after == handover@ + before.skip(
                                    handover@.len() as int,
                                )
                            } else {
                                r == Err::<(), Error>(
                                    Error::DiceError(DiceError::BufferTooSmall(handover.len())),
                                ) && after == before
                            },
                        }
                    },
                }
            },
        }
    }

    /// Derives the next DICE handover and writes it to `next_handover`.
    ///
    /// `hash` is the hash function of the DICE profile. `main_flow` is the main
    /// flow of the DICE profile on a handover: it derives the secrets of the next
    /// stage and issues its certificate.
    pub fn write_next_handover<
        H: Fn(&[u8]) -> Result<Hash, DiceError>,
        M: FnOnce(&[u8], InputValues, DiceContext) -> Result<Vec<u8>, DiceError>,
    >(
        self,
        current_handover: &[u8],
        salt: &Hidden,
        deferred_rollback_protection: bool,
        next_handover: &mut [u8],
        context: DiceContext,
        hash: H,
        main_flow: M,
    ) -> (r: Result<(), Error>)
        requires
            forall|input: &[u8]| call_requires(hash, (input,)),
            forall|handover: &[u8], inputs: InputValues, context: DiceContext|
                call_requires(main_flow, (handover, inputs, context)),
        ensures
            exists|
                input: &[u8],
                hidden: Result<Hash, DiceError>,
                inputs: InputValues,
                out: Result<Vec<u8>, DiceError>,
            |
                self.is_written(
                    current_handover,
                    salt@,
                    deferred_rollback_protection,
                    context,
                    hash,
                    main_flow,
                    old(next_handover)@,
                    final(next_handover)@,
                    r,
                    input,
                    hidden,
                    inputs,
                    out,
                ),
    {
        let ghost before = next_handover@;
        let ghost no_hidden: Result<Hash, DiceError> = Err(DiceError::InvalidInput);
        let ghost no_out: Result<Vec<u8>, DiceError> = Err(DiceError::InvalidInput);
        let ghost no_inputs: InputValues = arbitrary();
        let config = match self.generate_config_descriptor() {
            Ok(config) => config,
            Err(_) => {
                let r = Err(Error::DiceError(DiceError::InvalidInput));
                assert(self.is_written(
                    current_handover,
                    salt@,
                    deferred_rollback_protection,
                    context,
                    hash,
                    main_flow,
                    before,
                    next_handover@,
                    r,
                    current_handover,
                    no_hidden,
                    no_inputs,
                    no_out,
                ));
                return r;
            },
        };
        let bytes = hidden_input(self.rkp_vm_marker, salt, deferred_rollback_protection);
        let input = bytes.as_slice();
        let hidden_result = hash(input);
        let hidden = match hidden_result {
            Ok(hidden) => hidden,
            Err(e) => {
                let r = Err(Error::DiceError(e));
                assert(self.is_written(
                    current_handover,
                    salt@,
                    deferred_rollback_protection,
                    context,
                    hash,
                    main_flow,
                    before,
                    next_handover@,
                    r,
                    input,
                    hidden_result,
                    no_inputs,
                    no_out,
                ));
                return r;
            },
        };
        let dice_inputs = InputValues {
            code_hash: self.code_hash,
            config_descriptor: config,
            authority_hash: self.auth_hash,
            mode: self.mode,
            hidden,
        };
        let ghost inputs = dice_inputs;
        let out = main_flow(current_handover, dice_inputs, context);
        let r = match &out {
            Err(e) => Err(Error::DiceError(*e)),
            Ok(handover) => {
                if handover.len() > next_handover.len() {
                    Err(Error::DiceError(DiceError::BufferTooSmall(handover.len())))
                } else {
                    let mut i: usize = 0;
                    while i < handover.len()
                        invariant
                            i <= handover.len() <= next_handover@.len(),
                            next_handover@.len() == before.len(),
                            forall|j: int| 0 <= j < i ==> next_handover@[j] == handover@[j],
                            forall|j: int|
                                i <= j < before.len() ==> next_handover@[j] == before[j],
                        decreases handover.len() - i,
                    {
                        next_handover[i] = handover[i];
                        i += 1;
                    }
                    assert(next_handover@ =~= handover@ + before.skip(handover@.len() as int));
                    Ok(())
                }
            },
        };
        assert(self.is_written(
            current_handover,
            salt@,
            deferred_rollback_protection,
            context,
            hash,
            main_flow,
            before,
            next_handover@,
            r,
            input,
            hidden_result,
            inputs,
            out,
        ));
        r
    }

    /// Computes the hidden input of the derivation: the hash of the marker of an
    /// RKP VM, of the salt and of whether rollback protection is deferred.
    pub fn make_hidden<H: Fn(&[u8]) -> Result<Hash, DiceError>>(
        &self,
        salt: &Hidden,
        deferred_rollback_protection: bool,
        hash: H,
    ) -> (r: Result<Hidden, DiceError>)
        requires
            forall|input: &[u8]| call_requires(hash, (input,)),
        ensures
            exists|input: &[u8]|
                input@ == spec_hidden_input(
                    self.rkp_vm_marker,
                    salt@,
                    deferred_rollback_protection,
                ) && call_ensures(hash, (input,), r),
    {
        let bytes = hidden_input(self.rkp_vm_marker, salt, deferred_rollback_protection);
        let input = bytes.as_slice();
        let r = hash(input);
        assert(call_ensures(hash, (input,), r));
        r
    }
}

/// The configuration descriptor holds nothing that its model does not show.
pub proof fn lemma_config_descriptor_exact(inputs: PartialInputs)
    ensures
        inputs.spec_config_descriptor().is_exact(),
{
    let pairs = inputs.spec_config_descriptor()->Pairs_0;
    assert forall|i: int| 0 <= i < pairs.len() implies (#[trigger] pairs[i]).0.is_exact()
        && pairs[i].1.is_exact() by {
        reveal_with_fuel(CborModel::is_exact, 2);
    }
}

/// The configuration descriptor holds the component name and the security
/// version, the marker of an RKP VM as a key with the null value if and only if
/// the guest is one, the instance hash if and only if the guest has one, and no
/// other key.
pub proof fn lemma_config_descriptor_entries(inputs: PartialInputs)
    ensures
        ({
            let pairs = inputs.spec_config_descriptor()->Pairs_0;
            &&& spec_lookup(pairs, COMPONENT_NAME_KEY as int) == Some(
                CborModel::Text(inputs.component_name@),
            )
            &&& spec_lookup(pairs, SECURITY_VERSION_KEY as int) == Some(
                CborModel::Integer(inputs.security_version as int),
            )
            &&& spec_lookup(pairs, RKP_VM_MARKER_KEY as int) == (if inputs.rkp_vm_marker {
                Some(CborModel::Null)
            } else {
                None
            })
            &&& spec_lookup(pairs, INSTANCE_HASH_KEY as int) == (match inputs.instance_hash {
                Some(instance_hash) => Some(CborModel::Bytes(instance_hash@)),
                None => None,
            })
            &&& forall|key: int|
                key != COMPONENT_NAME_KEY && key != SECURITY_VERSION_KEY && key
                    != RKP_VM_MARKER_KEY && key != INSTANCE_HASH_KEY ==> spec_lookup(pairs, key)
                    is None
        }),
{
    let pairs = inputs.spec_config_descriptor()->Pairs_0;
    reveal_with_fuel(spec_lookup, 5);
    let second = pairs.drop_first();
    let third = second.drop_first();
    let fourth = third.drop_first();
    assert(second.len() == pairs.len() - 1);
    assert(third.len() == pairs.len() - 2);
    if pairs.len() > 2 {
        assert(third[0] == pairs[2]);
    }
    if pairs.len() > 3 {
        assert(fourth[0] == pairs[3]);
        assert(fourth.drop_first().len() == 0);
    }
    assert(second[0] == pairs[1]);
}

} // verus!
