//! The steps of a boot: what the firmware does between its entry and the jump to
//! the guest, each step with the reason for which its failure reboots.

use crate::avb::error::PvmfwVerifyError;
use crate::avb::partition::PartitionName;
use crate::avb::slot::SlotVerifyResult;
use crate::avb::verify::{verifies_as, verify_payload, DebugLevel, Payload, VerifiedBootData};
use crate::dice::chain::{
    is_truncated, spec_new, truncate, DiceChainError, DiceChainInfo, DiceHandover,
};
use crate::dice::{
    Cdi, DiceContext, DiceError, Error, Hidden, InputValues, KeyAlgorithm, PartialInputs,
    VM_KEY_ALGORITHM,
};
use crate::entry::RebootReason;
use crate::fdt::FdtError;
use crate::mem::SIZE_4KB;
use vstd::prelude::*;
use vstd::slice::slice_to_vec;
use vstd::string::StringSliceAdditionalSpecFns;
use zeroize::Zeroize;

verus! {

/// A stage of the boot. The stages follow each other in this order; none is
/// entered twice.
#[derive(Clone, Copy, Debug, PartialEq, Eq, Structural)]
pub enum BootStage {
    /// Nothing has been done.
    Start,
    /// The payload has been verified.
    PayloadVerified,
    /// The DICE chain of the loader has been inspected.
    DiceChainInspected,
    /// Rollback protection has been decided.
    RollbackDecided,
    /// The next DICE handover has been derived.
    HandoverDerived,
    /// The buffers that held secrets have been zeroed and flushed.
    SecretsCleared,
}

/// What the firmware does in a stage of the boot.
#[derive(Clone, Copy, Debug, PartialEq, Eq, Structural)]
pub enum BootAction {
    /// Verify the payload.
    VerifyPayload,
    /// Inspect the DICE chain of the loader.
    InspectDiceChain,
    /// Decide on rollback protection.
    DecideRollbackProtection,
    /// Derive the next DICE handover.
    DeriveHandover,
    /// Zero and flush the buffers that hold the secrets of the firmware, the
    /// chain that it received and the configuration that was appended to it.
    ClearSecrets,
    /// Enter the guest. On success this does not return.
    JumpToPayload,
}

impl BootStage {
    /// The number of steps that lead to the stage.
    pub open spec fn rank(self) -> nat {
        match self {
            BootStage::Start => 0,
            BootStage::PayloadVerified => 1,
            BootStage::DiceChainInspected => 2,
            BootStage::RollbackDecided => 3,
            BootStage::HandoverDerived => 4,
            BootStage::SecretsCleared => 5,
        }
    }

    /// What is done in the stage.
    pub open spec fn spec_action(self) -> BootAction {
        match self {
            BootStage::Start => BootAction::VerifyPayload,
            BootStage::PayloadVerified => BootAction::InspectDiceChain,
            BootStage::DiceChainInspected => BootAction::DecideRollbackProtection,
            BootStage::RollbackDecided => BootAction::DeriveHandover,
            BootStage::HandoverDerived => BootAction::ClearSecrets,
            BootStage::SecretsCleared => BootAction::JumpToPayload,
        }
    }

    /// The stage that follows once the action of the stage has succeeded. The
    /// last stage has none: its action does not return.
    pub open spec fn spec_next(self) -> Option<BootStage> {
        match self {
            BootStage::Start => Some(BootStage::PayloadVerified),
            BootStage::PayloadVerified => Some(BootStage::DiceChainInspected),
            BootStage::DiceChainInspected => Some(BootStage::RollbackDecided),
            BootStage::RollbackDecided => Some(BootStage::HandoverDerived),
            BootStage::HandoverDerived => Some(BootStage::SecretsCleared),
            BootStage::SecretsCleared => None,
        }
    }

    /// What is done in the stage.
    pub fn action(&self) -> (r: BootAction)
        ensures
            r == self.spec_action(),
    {
        match self {
            BootStage::Start => BootAction::VerifyPayload,
            BootStage::PayloadVerified => BootAction::InspectDiceChain,
            BootStage::DiceChainInspected => BootAction::DecideRollbackProtection,
            BootStage::RollbackDecided => BootAction::DeriveHandover,
            BootStage::HandoverDerived => BootAction::ClearSecrets,
            BootStage::SecretsCleared => BootAction::JumpToPayload,
        }
    }

    /// The stage that follows once the action of the stage has succeeded.
    pub fn next(&self) -> (r: Option<BootStage>)
        ensures
            r == self.spec_next(),
    {
        match self {
            BootStage::Start => Some(BootStage::PayloadVerified),
            BootStage::PayloadVerified => Some(BootStage::DiceChainInspected),
            BootStage::DiceChainInspected => Some(BootStage::RollbackDecided),
            BootStage::RollbackDecided => Some(BootStage::HandoverDerived),
            BootStage::HandoverDerived => Some(BootStage::SecretsCleared),
            BootStage::SecretsCleared => None,
        }
    }
}

/// The boot is linear: a stage is followed by the next one only. The guest is
/// entered from the last stage only, that is once the next handover has been
/// derived and the secrets have been cleared; no stage before the last clears
/// the secrets but the one that follows the derivation.
pub proof fn lemma_boot_is_linear(stage: BootStage)
    ensures
        stage.spec_next() matches Some(next) ==> next.rank() == stage.rank() + 1,
        stage.spec_action() == BootAction::JumpToPayload <==> stage == BootStage::SecretsCleared,
        stage.spec_action() == BootAction::ClearSecrets <==> stage == BootStage::HandoverDerived,
        stage.spec_next() is None <==> stage == BootStage::SecretsCleared,
{
}

/// Whether a boot that has reached `stage` ends in a reboot for `reason`, with
/// `perform` doing the work.
///
/// The action of a stage is performed once the actions of all stages before it
/// have succeeded, and the first failure is the reason of the reboot. Should the
/// jump to the guest return without a failure, the boot ends in an internal
/// error.
pub open spec fn reboots_from<P: Fn(BootAction) -> Result<(), RebootReason>>(
    perform: P,
    stage: BootStage,
    reason: RebootReason,
) -> bool
    decreases 6 - stage.rank(),
{
    exists|outcome: Result<(), RebootReason>| #[trigger]
        call_ensures(perform, (stage.spec_action(),), outcome) && match outcome {
            Err(e) => reason == e,
            Ok(_) => match stage.spec_next() {
                Some(next) => reboots_from(perform, next, reason),
                None => reason == RebootReason::InternalError,
            },
        }
}

/// Runs the boot: performs the actions of the stages in their order, as long as
/// they succeed. The boot either enters the guest, from which `perform` does not
/// return, or ends in a reboot, for the reason that is returned.
pub fn run<P: Fn(BootAction) -> Result<(), RebootReason>>(perform: &P) -> (reason: RebootReason)
    requires
        forall|action: BootAction| call_requires(*perform, (action,)),
    ensures
        reboots_from(*perform, BootStage::Start, reason),
{
    let mut stage = BootStage::Start;
    loop
        invariant
            forall|action: BootAction| call_requires(*perform, (action,)),
            forall|reason: RebootReason|
                reboots_from(*perform, stage, reason) ==> reboots_from(
                    *perform,
                    BootStage::Start,
                    reason,
                ),
        decreases 6 - stage.rank(),
    {
        let outcome = perform(stage.action());
        assert(call_ensures(*perform, (stage.spec_action(),), outcome));
        match outcome {
            Err(reason) => {
                assert(reboots_from(*perform, stage, reason));
                return reason;
            },
            Ok(_) => {},
        }
        match stage.next() {
            Some(next) => {
                assert forall|reason: RebootReason|
                    reboots_from(*perform, next, reason) implies reboots_from(
                    *perform,
                    stage,
                    reason,
                ) by {
                    assert(call_ensures(*perform, (stage.spec_action(),), outcome));
                }
                stage = next;
            },
            None => {
                assert(reboots_from(*perform, stage, RebootReason::InternalError));
                return RebootReason::InternalError;
            },
        }
    }
}

/// What the verification of the payload yields for the boot.
///
/// A payload that was refused is a reason to reboot, whatever it was refused for.
/// One that was accepted comes with whether it can be debugged and with the page
/// size of the guest: that of the payload, or 4 KiB where it gives none.
pub open spec fn is_verified_boot(
    r: Result<(VerifiedBootData, bool, usize), RebootReason>,
    verified: Result<VerifiedBootData, PvmfwVerifyError>,
) -> bool {
    match verified {
        Err(_) => r == Err::<(VerifiedBootData, bool, usize), RebootReason>(
            RebootReason::PayloadVerificationError,
        ),
        Ok(data) => r matches Ok((d, debuggable, page_size)) && d == data && debuggable == (
        data.debug_level != DebugLevel::NotDebuggable) && page_size == (match data.page_size {
            Some(size) => size,
            None => SIZE_4KB,
        }),
    }
}

/// Verifies the payload against the public key and reads off what the boot needs
/// of it. `verify_partition` is the slot verifier, as for [`verify_payload`].
pub fn perform_verified_boot<'a, F: Fn(&Payload, PartitionName) -> SlotVerifyResult>(
    signed_kernel: &[u8],
    ramdisk: Option<&[u8]>,
    public_key: &'a [u8],
    verify_partition: F,
) -> (r: Result<(VerifiedBootData<'a>, bool, usize), RebootReason>)
    requires
        forall|payload: &Payload, p: PartitionName| call_requires(verify_partition, (payload, p)),
    ensures
        exists|
            verified: Result<VerifiedBootData, PvmfwVerifyError>,
            kernel: SlotVerifyResult,
            normal: SlotVerifyResult,
            debug: SlotVerifyResult,
        |
            verifies_as(
                verify_partition,
                Payload { kernel: signed_kernel, initrd: ramdisk, trusted_public_key: public_key },
                verified,
                kernel,
                normal,
                debug,
            ) && is_verified_boot(r, verified),
{
    let verified = verify_payload(signed_kernel, ramdisk, public_key, verify_partition);
    let ghost outcome = verified;
    let r = match verified {
        Err(_) => Err(RebootReason::PayloadVerificationError),
        Ok(verified_boot_data) => {
            let debuggable = verified_boot_data.debug_level != DebugLevel::NotDebuggable;
            let guest_page_size = match verified_boot_data.page_size {
                Some(size) => size,
                None => SIZE_4KB,
            };
            Ok((verified_boot_data, debuggable, guest_page_size))
        },
    };
    assert(is_verified_boot(r, outcome));
    r
}

/// The debug policy that takes effect: none unless the DICE chain is in the debug
/// mode. The loader should not pass a debug policy when the boot is secure; one
/// that it passes all the same is disregarded.
pub fn effective_debug_policy<'a>(debug_policy: Option<&'a [u8]>, dice_debug_mode: bool) -> (r:
    Option<&'a [u8]>)
    ensures
        r == (if dice_debug_mode {
            debug_policy
        } else {
            None
        }),
{
    if debug_policy.is_some() && !dice_debug_mode {
        None
    } else {
        debug_policy
    }
}

/// The value that the salt of an instance id is the hash of: the id after the
/// prefix `InstanceId:`.
pub open spec fn spec_instance_id_input(id: Seq<u8>) -> Seq<u8> {
    "InstanceId:".spec_bytes() + id
}

/// The value that the salt of an instance id is the hash of.
pub fn instance_id_input(id: &[u8]) -> (r: Vec<u8>)
    ensures
        r@ == spec_instance_id_input(id@),
{
    let prefix = "InstanceId:".as_bytes();
    let mut input: Vec<u8> = Vec::new();
    let mut i: usize = 0;
    while i < prefix.len()
        invariant
            i <= prefix.len(),
            input@ == prefix@.take(i as int),
        decreases prefix.len() - i,
    {
        input.push(prefix[i]);
        assert(prefix@.take(i + 1) =~= prefix@.take(i as int).push(prefix@[i as int]));
        i += 1;
    }
    assert(prefix@.take(i as int) =~= prefix@);
    let mut j: usize = 0;
    while j < id.len()
        invariant
            j <= id.len(),
            input@ == prefix@ + id@.take(j as int),
        decreases id.len() - j,
    {
        input.push(id[j]);
        assert(id@.take(j + 1) =~= id@.take(j as int).push(id@[j as int]));
        assert(prefix@ + id@.take(j + 1) =~= (prefix@ + id@.take(j as int)).push(id@[j as int]));
        j += 1;
    }
    assert(id@.take(j as int) =~= id@);
    input
}

/// Whether `r` is the salt of a guest with the given instance id, hashed by
/// `sha512`, which yielded `digest` if it was asked.
pub open spec fn is_instance_salt<S: FnOnce(&[u8]) -> Option<Vec<u8>>>(
    r: Result<Option<Hidden>, RebootReason>,
    instance_id: Result<Option<&[u8]>, FdtError>,
    sha512: S,
    input: &[u8],
    digest: Option<Vec<u8>>,
) -> bool {
    match instance_id {
        Err(_) => r == Err::<Option<Hidden>, RebootReason>(RebootReason::InvalidFdt),
        Ok(None) => r == Ok::<Option<Hidden>, RebootReason>(None),
        Ok(Some(id)) => {
            &&& input@ == spec_instance_id_input(id@)
            &&& call_ensures(sha512, (input,), digest)
            &&& match digest {
                Some(d) => if d@.len() == 64 {
                    r matches Ok(Some(salt)) && salt@ == d@
                } else {
                    r == Err::<Option<Hidden>, RebootReason>(RebootReason::InternalError)
                },
                None => r == Err::<Option<Hidden>, RebootReason>(RebootReason::InternalError),
            }
        },
    }
}

/// Derives the salt of the guest from its instance id, which tells the secrets of
/// instances of the same payload apart.
///
/// `instance_id` is what the lookup of the instance id yields in the device tree.
/// `sha512` computes the SHA-512 digest of its argument, or nothing if it fails.
pub fn salt_from_instance_id<S: FnOnce(&[u8]) -> Option<Vec<u8>>>(
    instance_id: Result<Option<&[u8]>, FdtError>,
    sha512: S,
) -> (r: Result<Option<Hidden>, RebootReason>)
    requires
        forall|input: &[u8]| call_requires(sha512, (input,)),
    ensures
        exists|input: &[u8], digest: Option<Vec<u8>>|
            is_instance_salt(r, instance_id, sha512, input, digest),
{
    let ghost unasked: &[u8] = arbitrary();
    let id = match instance_id {
        Err(_) => {
            let r = Err(RebootReason::InvalidFdt);
            assert(is_instance_salt(r, instance_id, sha512, unasked, None));
            return r;
        },
        Ok(None) => {
            let r = Ok(None);
            assert(is_instance_salt(r, instance_id, sha512, unasked, None));
            return r;
        },
        Ok(Some(id)) => id,
    };
    let bytes = instance_id_input(id);
    let input = bytes.as_slice();
    let digest = sha512(input);
    let r = match &digest {
        None => Err(RebootReason::InternalError),
        Some(d) => {
            if d.len() != 64 {
                Err(RebootReason::InternalError)
            } else {
                let mut salt: Hidden = [0u8; 64];
                let mut i: usize = 0;
                while i < 64
                    invariant
                        i <= 64,
                        d@.len() == 64,
                        forall|j: int| 0 <= j < i ==> salt@[j] == d@[j],
                    decreases 64 - i,
                {
                    salt[i] = d[i];
                    i += 1;
                }
                assert(salt@ =~= d@);
                Ok(Some(salt))
            }
        },
    };
    assert(is_instance_salt(r, instance_id, sha512, input, digest));
    r
}

/// The bytes of an optional vector.
pub open spec fn spec_chain_bytes(chain: Option<Vec<u8>>) -> Option<Seq<u8>> {
    match chain {
        Some(bytes) => Some(bytes@),
        None => None,
    }
}

/// Whether `r` holds the handover for the next derivation, the CDI for sealing,
/// the key algorithms of the derivation and whether the chain is in the debug
/// mode, for a handover that was parsed as `handover` and goes on as `next`.
pub open spec fn holds_handover(
    r: Result<(Vec<u8>, Vec<u8>, DiceContext, bool), RebootReason>,
    handover: DiceHandover,
    info: DiceChainInfo,
    authority_algorithm: KeyAlgorithm,
    next: Seq<u8>,
) -> bool {
    r matches Ok((bytes_for_next, cdi_seal, context, is_debug_mode)) && bytes_for_next@ == next
        && cdi_seal@ == handover.cdi_seal@ && context == (DiceContext {
        authority_algorithm,
        subject_algorithm: VM_KEY_ALGORITHM,
    }) && is_debug_mode == info.is_debug_mode
}

/// Whether `r` is what the firmware makes of the handover of its loader.
///
/// `parsed` is what `parse` yielded; `truncated`, `seal` and `attest` are the
/// truncated handover and what `kdf` yielded for it, where the handover was
/// truncated. A handover that cannot be parsed, or whose chain is refused, is an
/// invalid handover. The key that signs the next certificate has the algorithm of
/// the subject public key of the leaf. With `dice_changes` the handover goes on
/// as it was received; without, it is truncated: the chain may be rooted in a
/// secret of the device, which no guest may get.
pub open spec fn is_parsed_handover<
    P: FnOnce(&[u8]) -> Result<DiceHandover, DiceError>,
    K: Fn(&Cdi, &[u8; 64], &str) -> Result<Cdi, DiceError>,
>(
    r: Result<(Vec<u8>, Vec<u8>, DiceContext, bool), RebootReason>,
    bytes: &[u8],
    dice_changes: bool,
    parse: P,
    kdf: K,
    parsed: Result<DiceHandover, DiceError>,
    truncated: Result<Vec<u8>, DiceChainError>,
    seal: Result<Cdi, DiceError>,
    attest: Result<Cdi, DiceError>,
) -> bool {
    &&& call_ensures(parse, (bytes,), parsed)
    &&& match parsed {
        Err(_) => r == Err::<(Vec<u8>, Vec<u8>, DiceContext, bool), RebootReason>(
            RebootReason::InvalidBcc,
        ),
        Ok(handover) => match spec_new(spec_chain_bytes(handover.dice_chain)) {
            Err(_) => r == Err::<(Vec<u8>, Vec<u8>, DiceContext, bool), RebootReason>(
                RebootReason::InvalidBcc,
            ),
            Ok(info) => match KeyAlgorithm::spec_from_cose(info.leaf_subject_pubkey.cose_alg) {
                Err(_) => r == Err::<(Vec<u8>, Vec<u8>, DiceContext, bool), RebootReason>(
                    RebootReason::InternalError,
                ),
                Ok(authority_algorithm) => if dice_changes {
                    holds_handover(r, handover, info, authority_algorithm, bytes@)
                } else {
                    &&& is_truncated(truncated, handover, kdf, seal, attest)
                    &&& match truncated {
                        Err(_) => r == Err::<(Vec<u8>, Vec<u8>, DiceContext, bool), RebootReason>(
                            RebootReason::InternalError,
                        ),
                        Ok(next) => holds_handover(r, handover, info, authority_algorithm, next@),
                    }
                },
            },
        },
    }
}

/// Reads the handover of the loader.
///
/// `parse` splits an encoded handover into its CDIs and its DICE chain; `kdf` is
/// the key derivation function of the DICE profile.
///
/// On success, returns the handover that the next derivation starts from, the CDI
/// for sealing, the key algorithms of the derivation, and whether the DICE chain
/// is in the debug mode.
pub fn parse_dice_handover<
    P: FnOnce(&[u8]) -> Result<DiceHandover, DiceError>,
    K: Fn(&Cdi, &[u8; 64], &str) -> Result<Cdi, DiceError>,
>(bytes: &[u8], dice_changes: bool, parse: P, kdf: K) -> (r: Result<
    (Vec<u8>, Vec<u8>, DiceContext, bool),
    RebootReason,
>)
    requires
        call_requires(parse, (bytes,)),
        forall|cdi: &Cdi, salt: &[u8; 64], info: &str| call_requires(kdf, (cdi, salt, info)),
    ensures
        exists|
            parsed: Result<DiceHandover, DiceError>,
            truncated: Result<Vec<u8>, DiceChainError>,
            seal: Result<Cdi, DiceError>,
            attest: Result<Cdi, DiceError>,
        |
            is_parsed_handover(r, bytes, dice_changes, parse, kdf, parsed, truncated, seal, attest),
{
    let ghost no_cdi: Result<Cdi, DiceError> = Err(DiceError::InvalidInput);
    let ghost untruncated: Result<Vec<u8>, DiceChainError> = Err(DiceChainError::Missing);
    let parsed = parse(bytes);
    let dice_handover = match &parsed {
        Ok(handover) => handover,
        Err(_) => {
            let r = Err(RebootReason::InvalidBcc);
            assert(is_parsed_handover(
                r,
                bytes,
                dice_changes,
                parse,
                kdf,
                parsed,
                untruncated,
                no_cdi,
                no_cdi,
            ));
            return r;
        },
    };
    let chain: Option<&[u8]> = match &dice_handover.dice_chain {
        Some(chain) => Some(chain.as_slice()),
        None => None,
    };
    let dice_chain_info = match DiceChainInfo::new(chain) {
        Ok(info) => info,
        Err(_) => {
            let r = Err(RebootReason::InvalidBcc);
            assert(is_parsed_handover(
                r,
                bytes,
                dice_changes,
                parse,
                kdf,
                parsed,
                untruncated,
                no_cdi,
                no_cdi,
            ));
            return r;
        },
    };
    let is_debug_mode = dice_chain_info.is_debug_mode();
    let cose_alg = dice_chain_info.leaf_subject_pubkey().cose_alg;
    let authority_algorithm = match KeyAlgorithm::from_cose(cose_alg) {
        Ok(algorithm) => algorithm,
        Err(_) => {
            let r = Err(RebootReason::InternalError);
            assert(is_parsed_handover(
                r,
                bytes,
                dice_changes,
                parse,
                kdf,
                parsed,
                untruncated,
                no_cdi,
                no_cdi,
            ));
            return r;
        },
    };
    let dice_context = DiceContext { authority_algorithm, subject_algorithm: VM_KEY_ALGORITHM };
    let cdi_seal = slice_to_vec(dice_handover.cdi_seal.as_slice());

    if dice_changes {
        let r = Ok((slice_to_vec(bytes), cdi_seal, dice_context, is_debug_mode));
        assert(is_parsed_handover(
            r,
            bytes,
            dice_changes,
            parse,
            kdf,
            parsed,
            untruncated,
            no_cdi,
            no_cdi,
        ));
        r
    } else {
        // The chain that was received may be rooted in the unique secret of the
        // device. Neither such a chain nor its CDIs go to the payload: the chain is
        // removed and the CDIs are tainted. The resulting CDIs are still derived
        // from those that were received, so they vary if and only if those do.
        let truncated = truncate(dice_handover, kdf);
        let ghost (seal, attest) = choose|
            seal: Result<Cdi, DiceError>,
            attest: Result<Cdi, DiceError>,
        |
            is_truncated(truncated, *dice_handover, kdf, seal, attest);
        let ghost outcome = truncated;
        let r = match truncated {
            Ok(truncated_bytes) => Ok((truncated_bytes, cdi_seal, dice_context, is_debug_mode)),
            Err(_) => Err(RebootReason::InternalError),
        };
        assert(is_parsed_handover(
            r,
            bytes,
            dice_changes,
            parse,
            kdf,
            parsed,
            outcome,
            seal,
            attest,
        ));
        r
    }
}

/// Whether `r` is what the derivation of the next handover yields for the boot:
/// any failure of the derivation is the failure to derive the secrets.
pub open spec fn is_derivation(r: Result<(), RebootReason>, written: Result<(), Error>) -> bool {
    r == (match written {
        Ok(()) => Ok::<(), RebootReason>(()),
        Err(_) => Err::<(), RebootReason>(RebootReason::SecretDerivationError),
    })
}

/// Derives the next DICE handover into `next_dice_handover`, the buffer that is
/// left behind for the guest.
///
/// `hash` and `main_flow` are the hash function and the main flow of the DICE
/// profile, as for [`PartialInputs::write_next_handover`].
pub fn perform_dice_derivation<
    H: Fn(&[u8]) -> Result<crate::dice::Hash, DiceError>,
    M: FnOnce(&[u8], InputValues, DiceContext) -> Result<Vec<u8>, DiceError>,
>(
    dice_handover_bytes: &[u8],
    dice_context: DiceContext,
    dice_inputs: PartialInputs,
    salt: &Hidden,
    defer_rollback_protection: bool,
    next_dice_handover: &mut [u8],
    hash: H,
    main_flow: M,
) -> (r: Result<(), RebootReason>)
    requires
        forall|input: &[u8]| call_requires(hash, (input,)),
        forall|handover: &[u8], inputs: InputValues, context: DiceContext|
            call_requires(main_flow, (handover, inputs, context)),
    ensures
        exists|
            written: Result<(), Error>,
            input: &[u8],
            hidden: Result<crate::dice::Hash, DiceError>,
            inputs: InputValues,
            out: Result<Vec<u8>, DiceError>,
        |
            dice_inputs.is_written(
                dice_handover_bytes,
                salt@,
                defer_rollback_protection,
                dice_context,
                hash,
                main_flow,
                old(next_dice_handover)@,
                final(next_dice_handover)@,
                written,
                input,
                hidden,
                inputs,
                out,
            ) && is_derivation(r, written),
{
    let ghost before = next_dice_handover@;
    let ghost partial = dice_inputs;
    let written = dice_inputs.write_next_handover(
        dice_handover_bytes,
        salt,
        defer_rollback_protection,
        next_dice_handover,
        dice_context,
        hash,
        main_flow,
    );
    let r = match written {
        Ok(()) => Ok(()),
        Err(_) => Err(RebootReason::SecretDerivationError),
    };
    proof {
        let (input, hidden, inputs, out) = choose|
            input: &[u8],
            hidden: Result<crate::dice::Hash, DiceError>,
            inputs: InputValues,
            out: Result<Vec<u8>, DiceError>,
        |
            partial.is_written(
                dice_handover_bytes,
                salt@,
                defer_rollback_protection,
                dice_context,
                hash,
                main_flow,
                before,
                next_dice_handover@,
                written,
                input,
                hidden,
                inputs,
                out,
            );
        assert(partial.is_written(
            dice_handover_bytes,
            salt@,
            defer_rollback_protection,
            dice_context,
            hash,
            main_flow,
            before,
            next_dice_handover@,
            written,
            input,
            hidden,
            inputs,
            out,
        ) && is_derivation(r, written));
    }
    r
}

/// A buffer of `len` zeros.
pub open spec fn zeros(len: nat) -> Seq<u8> {
    Seq::new(len, |i: int| 0u8)
}

/// Calls `Zeroize::zeroize` on a byte slice: every byte is overwritten with zero,
/// by writes that the compiler does not remove. It panics on a slice of more than
/// `isize::MAX` bytes.
#[verifier::external_body]
pub(crate) fn zeroize_bytes(buffer: &mut [u8])
    requires
        old(buffer)@.len() <= isize::MAX,
    ensures
        final(buffer)@ == zeros(old(buffer)@.len()),
{
    buffer.zeroize()
}

/// Overwrites a buffer that held a secret with zeros.
///
/// The secrets of the firmware, the chain that it received and the configuration
/// that was appended to it must not be readable by the guest.
pub fn clear_secret(buffer: &mut [u8])
    ensures
        final(buffer)@ == zeros(old(buffer)@.len()),
{
    if buffer.len() <= isize::MAX as usize {
        zeroize_bytes(buffer);
    } else {
        let mut i: usize = 0;
        while i < buffer.len()
            invariant
                i <= buffer.len(),
                buffer@.len() == old(buffer)@.len(),
                forall|j: int| 0 <= j < i ==> buffer@[j] == 0,
            decreases buffer.len() - i,
        {
            buffer[i] = 0;
            i += 1;
        }
        assert(buffer@ =~= zeros(old(buffer)@.len()));
    }
}

} // verus!
