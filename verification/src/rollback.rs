//! Rollback protection of the guest.
//!
//! A guest whose secrets have a stronger protection of their own is exempt from the
//! instance image: one that defers rollback protection to Secretkeeper, one that
//! is pinned to a fixed version, one whose protection lies with another authority.
//! Any other guest is bound by a record in the instance image to the payload that
//! it was first booted with.

use crate::avb::capability::Capability;
use crate::avb::verify::VerifiedBootData;
use crate::dice::{Hidden, PartialInputs};
use crate::entry::RebootReason;
use crate::fdt::FdtError;
use crate::instance::{hash_eq, spec_mode_number, EntryBody};
use vstd::prelude::*;

verus! {

/// The version that the service VM must have: a guest that takes part in remote
/// attestation is accepted with this rollback index only.
pub const SERVICE_VM_VERSION: u64 = 1;

/// How a guest is protected against rollback.
#[derive(Clone, Copy, Debug, PartialEq, Eq, Structural)]
pub enum Strategy {
    /// Rollback protection is deferred to the payload, which uses Secretkeeper.
    Deferred,
    /// The payload must have the given rollback index.
    FixedIndex(u64),
    /// Another authority protects the guest; the firmware checks nothing.
    Skipped,
    /// The guest is bound to its record in the instance image.
    InstanceImage,
}

/// What rollback protection yields: whether a record was made for a new instance,
/// the salt of the instance, and whether rollback protection is deferred.
pub type Outcome = Result<(bool, Hidden, bool), RebootReason>;

/// Whether the device tree asks for rollback protection to be deferred, given
/// what the lookup of the property yields: the property need only be there.
pub open spec fn spec_should_defer(property: Result<Option<()>, FdtError>) -> Result<
    bool,
    RebootReason,
> {
    match property {
        Ok(found) => Ok(found is Some),
        Err(_) => Err(RebootReason::InvalidFdt),
    }
}

/// Returns whether the device tree asks for rollback protection to be deferred.
pub fn should_defer_rollback_protection(property: Result<Option<()>, FdtError>) -> (r: Result<
    bool,
    RebootReason,
>)
    ensures
        r == spec_should_defer(property),
{
    match property {
        Ok(found) => Ok(found.is_some()),
        Err(_) => Err(RebootReason::InvalidFdt),
    }
}

/// How a guest with the given capabilities is protected. The first rule that
/// applies decides, since a payload may declare several capabilities.
pub open spec fn spec_strategy(defer: bool, capabilities: Seq<Capability>) -> Strategy {
    if defer && capabilities.contains(Capability::SecretkeeperProtection) {
        Strategy::Deferred
    } else if capabilities.contains(Capability::RemoteAttest) {
        Strategy::FixedIndex(SERVICE_VM_VERSION)
    } else if capabilities.contains(Capability::TrustySecurityVm) {
        Strategy::Skipped
    } else {
        Strategy::InstanceImage
    }
}

/// Selects how the guest is protected against rollback.
pub fn select_strategy(defer: bool, verified_boot_data: &VerifiedBootData) -> (r: Strategy)
    ensures
        r == spec_strategy(defer, verified_boot_data.capabilities@),
{
    if defer && verified_boot_data.has_capability(Capability::SecretkeeperProtection) {
        Strategy::Deferred
    } else if let Some(fixed) = get_fixed_rollback_protection(verified_boot_data) {
        Strategy::FixedIndex(fixed)
    } else if verified_boot_data.has_capability(Capability::TrustySecurityVm) {
        Strategy::Skipped
    } else {
        Strategy::InstanceImage
    }
}

/// Accepts a payload that defers rollback protection if its rollback index is
/// positive: the index is the security version of the guest, and zero would stand
/// for no version at all.
pub fn perform_deferred_rollback_protection(verified_boot_data: &VerifiedBootData) -> (r: Result<
    (),
    RebootReason,
>)
    ensures
        r == (if verified_boot_data.rollback_index == 0 {
            Err::<(), RebootReason>(RebootReason::InvalidPayload)
        } else {
            Ok::<(), RebootReason>(())
        }),
{
    if verified_boot_data.rollback_index == 0 {
        Err(RebootReason::InvalidPayload)
    } else {
        Ok(())
    }
}

/// The rollback index that the payload is pinned to, if it is pinned to one.
pub fn get_fixed_rollback_protection(verified_boot_data: &VerifiedBootData) -> (r: Option<u64>)
    ensures
        r == (if verified_boot_data.capabilities@.contains(Capability::RemoteAttest) {
            Some(SERVICE_VM_VERSION)
        } else {
            None
        }),
{
    if verified_boot_data.has_capability(Capability::RemoteAttest) {
        Some(SERVICE_VM_VERSION)
    } else {
        None
    }
}

/// Accepts a payload that is pinned to `fixed_index` if that is its rollback
/// index: an older image is refused and a newer one as well.
pub fn perform_fixed_index_rollback_protection(
    verified_boot_data: &VerifiedBootData,
    fixed_index: u64,
) -> (r: Result<(), RebootReason>)
    ensures
        r == (if verified_boot_data.rollback_index != fixed_index {
            Err::<(), RebootReason>(RebootReason::InvalidPayload)
        } else {
            Ok::<(), RebootReason>(())
        }),
{
    if verified_boot_data.rollback_index != fixed_index {
        Err(RebootReason::InvalidPayload)
    } else {
        Ok(())
    }
}

/// Whether a record agrees with the DICE inputs of the payload: in the code hash,
/// then in the authority hash, then in the DICE mode.
pub open spec fn spec_measurements_match(dice_inputs: PartialInputs, entry: EntryBody) -> Result<
    (),
    crate::instance::Error,
> {
    if entry.code_hash@ != dice_inputs.code_hash@ {
        Err(crate::instance::Error::RecordedCodeHashMismatch)
    } else if entry.auth_hash@ != dice_inputs.auth_hash@ {
        Err(crate::instance::Error::RecordedAuthHashMismatch)
    } else if entry.spec_mode() != dice_inputs.mode {
        Err(crate::instance::Error::RecordedDiceModeMismatch)
    } else {
        Ok(())
    }
}

/// Checks that a record agrees with the DICE inputs of the payload.
pub fn ensure_dice_measurements_match_entry(dice_inputs: &PartialInputs, entry: &EntryBody) -> (r:
    Result<(), crate::instance::Error>)
    ensures
        r == spec_measurements_match(*dice_inputs, *entry),
{
    if !hash_eq(&entry.code_hash, &dice_inputs.code_hash) {
        Err(crate::instance::Error::RecordedCodeHashMismatch)
    } else if !hash_eq(&entry.auth_hash, &dice_inputs.auth_hash) {
        Err(crate::instance::Error::RecordedAuthHashMismatch)
    } else if entry.mode() != dice_inputs.mode {
        Err(crate::instance::Error::RecordedDiceModeMismatch)
    } else {
        Ok(())
    }
}

/// Checks that a record agrees with the DICE inputs of the payload. A record that
/// does not is fatal: the payload changed without the record being cleared.
pub fn check_dice_measurements_match_entry(dice_inputs: &PartialInputs, entry: &EntryBody) -> (r:
    Result<(), RebootReason>)
    ensures
        r == (match spec_measurements_match(*dice_inputs, *entry) {
            Ok(()) => Ok::<(), RebootReason>(()),
            Err(_) => Err::<(), RebootReason>(RebootReason::InternalError),
        }),
{
    match ensure_dice_measurements_match_entry(dice_inputs, entry) {
        Ok(()) => Ok(()),
        Err(_) => Err(RebootReason::InternalError),
    }
}

/// The record that is made for a new instance with the given salt.
pub open spec fn spec_new_entry(dice_inputs: PartialInputs, salt: Hidden) -> EntryBody {
    EntryBody {
        code_hash: dice_inputs.code_hash,
        auth_hash: dice_inputs.auth_hash,
        salt,
        mode: spec_mode_number(dice_inputs.mode),
    }
}

/// The salt of a new instance: the instance hash if there is one, else the random
/// salt that was generated, if one was.
pub open spec fn spec_new_salt(instance_hash: Option<Hidden>, generated: Option<Hidden>) -> Option<
    Hidden,
> {
    match instance_hash {
        Some(salt) => Some(salt),
        None => generated,
    }
}

/// Whether `r` is what rollback protection by the instance image yields.
///
/// `found` is what the lookup of the record yielded, `generated` the random salt
/// and `recorded` the outcome of the recording, as far as each took place. A
/// record that is found must agree with the payload; the salt is then the
/// instance hash if there is one, else the salt of the record. Where no record is
/// found, the instance is new: a record is made with the instance hash, or with a
/// random salt where there is none.
pub open spec fn is_legacy_outcome<
    L: FnOnce(&[u8]) -> Result<Option<EntryBody>, RebootReason>,
    G: FnOnce() -> Option<Hidden>,
    W: FnOnce(&[u8], EntryBody) -> Result<(), crate::instance::Error>,
>(
    r: Outcome,
    dice_inputs: PartialInputs,
    cdi_seal: &[u8],
    instance_hash: Option<Hidden>,
    lookup: L,
    random_salt: G,
    record: W,
    found: Result<Option<EntryBody>, RebootReason>,
    generated: Option<Hidden>,
    recorded: Result<(), crate::instance::Error>,
) -> bool {
    &&& call_ensures(lookup, (cdi_seal,), found)
    &&& match found {
        Err(e) => r == Err::<(bool, Hidden, bool), RebootReason>(e),
        Ok(Some(entry)) => match spec_measurements_match(dice_inputs, entry) {
            Err(_) => r == Err::<(bool, Hidden, bool), RebootReason>(RebootReason::InternalError),
            Ok(()) => r == Ok::<(bool, Hidden, bool), RebootReason>(
                (
                    false,
                    match instance_hash {
                        Some(salt) => salt,
                        None => entry.salt,
                    },
                    false,
                ),
            ),
        },
        Ok(None) => {
            &&& instance_hash is None ==> call_ensures(random_salt, (), generated)
            &&& match spec_new_salt(instance_hash, generated) {
                None => r == Err::<(bool, Hidden, bool), RebootReason>(
                    RebootReason::InternalError,
                ),
                Some(salt) => {
                    &&& call_ensures(
                        record,
                        (cdi_seal, spec_new_entry(dice_inputs, salt)),
                        recorded,
                    )
                    &&& match recorded {
                        Err(_) => r == Err::<(bool, Hidden, bool), RebootReason>(
                            RebootReason::InternalError,
                        ),
                        Ok(()) => r == Ok::<(bool, Hidden, bool), RebootReason>(
                            (true, salt, false),
                        ),
                    }
                },
            }
        },
    }
}

/// Performs rollback protection by the instance image, where an update of the
/// payload requires the record to be cleared, which gives the guest new secrets.
///
/// `lookup` sets up the device that holds the instance image and looks up the
/// record under `cdi_seal`; `random_salt` generates a salt, or nothing if it
/// cannot; `record` writes a record under `cdi_seal`.
pub fn perform_legacy_rollback_protection<
    L: FnOnce(&[u8]) -> Result<Option<EntryBody>, RebootReason>,
    G: FnOnce() -> Option<Hidden>,
    W: FnOnce(&[u8], EntryBody) -> Result<(), crate::instance::Error>,
>(
    dice_inputs: &PartialInputs,
    cdi_seal: &[u8],
    instance_hash: Option<Hidden>,
    lookup: L,
    random_salt: G,
    record: W,
) -> (r: Outcome)
    requires
        call_requires(lookup, (cdi_seal,)),
        call_requires(random_salt, ()),
        forall|entry: EntryBody| call_requires(record, (cdi_seal, entry)),
    ensures
        exists|
            found: Result<Option<EntryBody>, RebootReason>,
            generated: Option<Hidden>,
            recorded: Result<(), crate::instance::Error>,
        |
            is_legacy_outcome(
                r,
                *dice_inputs,
                cdi_seal,
                instance_hash,
                lookup,
                random_salt,
                record,
                found,
                generated,
                recorded,
            ),
{
    let ghost unrecorded: Result<(), crate::instance::Error> = Ok(());
    let found = lookup(cdi_seal);
    let recorded_entry = match found {
        Ok(entry) => entry,
        Err(e) => {
            let r = Err(e);
            assert(is_legacy_outcome(
                r,
                *dice_inputs,
                cdi_seal,
                instance_hash,
                lookup,
                random_salt,
                record,
                found,
                None,
                unrecorded,
            ));
            return r;
        },
    };
    if let Some(entry) = recorded_entry {
        let r = match check_dice_measurements_match_entry(dice_inputs, &entry) {
            Err(e) => Err(e),
            Ok(()) => {
                let salt = match instance_hash {
                    Some(salt) => salt,
                    None => entry.salt,
                };
                Ok((false, salt, false))
            },
        };
        assert(is_legacy_outcome(
            r,
            *dice_inputs,
            cdi_seal,
            instance_hash,
            lookup,
            random_salt,
            record,
            found,
            None,
            unrecorded,
        ));
        r
    } else {
        // New instance!
        let ghost mut generated: Option<Hidden> = None;
        let chosen = match instance_hash {
            Some(salt) => Some(salt),
            None => {
                let salt = random_salt();
                proof {
                    generated = salt;
                }
                salt
            },
        };
        let salt = match chosen {
            Some(salt) => salt,
            None => {
                let r = Err(RebootReason::InternalError);
                assert(is_legacy_outcome(
                    r,
                    *dice_inputs,
                    cdi_seal,
                    instance_hash,
                    lookup,
                    random_salt,
                    record,
                    found,
                    generated,
                    unrecorded,
                ));
                return r;
            },
        };
        let entry = EntryBody::new(dice_inputs, &salt);
        assert(entry == spec_new_entry(*dice_inputs, salt));
        let recorded = record(cdi_seal, entry);
        let r = match recorded {
            Err(_) => Err(RebootReason::InternalError),
            Ok(()) => Ok((true, salt, false)),
        };
        assert(is_legacy_outcome(
            r,
            *dice_inputs,
            cdi_seal,
            instance_hash,
            lookup,
            random_salt,
            record,
            found,
            generated,
            recorded,
        ));
        r
    }
}

/// Whether `r` is what rollback protection yields for a payload.
///
/// A payload that defers rollback protection must have a positive rollback index,
/// one that is pinned to a version must have that rollback index; for both, and
/// where the firmware checks nothing, the salt is the instance hash and no record
/// is made. Rollback protection is deferred for the first of the three only.
pub open spec fn is_outcome<
    L: FnOnce(&[u8]) -> Result<Option<EntryBody>, RebootReason>,
    G: FnOnce() -> Option<Hidden>,
    W: FnOnce(&[u8], EntryBody) -> Result<(), crate::instance::Error>,
>(
    r: Outcome,
    defer_property: Result<Option<()>, FdtError>,
    data: VerifiedBootData,
    dice_inputs: PartialInputs,
    cdi_seal: &[u8],
    instance_hash: Option<Hidden>,
    lookup: L,
    random_salt: G,
    record: W,
    found: Result<Option<EntryBody>, RebootReason>,
    generated: Option<Hidden>,
    recorded: Result<(), crate::instance::Error>,
) -> bool {
    match spec_should_defer(defer_property) {
        Err(e) => r == Err::<(bool, Hidden, bool), RebootReason>(e),
        Ok(defer) => match spec_strategy(defer, data.capabilities@) {
            Strategy::Deferred => r == (if data.rollback_index == 0 {
                Err::<(bool, Hidden, bool), RebootReason>(RebootReason::InvalidPayload)
            } else {
                Ok::<(bool, Hidden, bool), RebootReason>((false, instance_hash->Some_0, true))
            }),
            Strategy::FixedIndex(fixed) => r == (if data.rollback_index != fixed {
                Err::<(bool, Hidden, bool), RebootReason>(RebootReason::InvalidPayload)
            } else {
                Ok::<(bool, Hidden, bool), RebootReason>((false, instance_hash->Some_0, false))
            }),
            Strategy::Skipped => r == Ok::<(bool, Hidden, bool), RebootReason>(
                (false, instance_hash->Some_0, false),
            ),
            Strategy::InstanceImage => is_legacy_outcome(
                r,
                dice_inputs,
                cdi_seal,
                instance_hash,
                lookup,
                random_salt,
                record,
                found,
                generated,
                recorded,
            ),
        },
    }
}

/// Whether a payload is one whose salt is its instance hash: one that is not
/// protected by the instance image.
pub open spec fn needs_instance_hash(
    defer_property: Result<Option<()>, FdtError>,
    capabilities: Seq<Capability>,
) -> bool {
    spec_should_defer(defer_property) matches Ok(defer) && spec_strategy(defer, capabilities)
        != Strategy::InstanceImage
}

/// Performs rollback protection for a verified payload.
///
/// `defer_property` is what the lookup of the property that defers rollback
/// protection yields in the device tree. The three functions give access to the
/// instance image, as for [`perform_legacy_rollback_protection`]; they are called
/// only for a guest that is protected by the instance image.
///
/// On success, returns whether a record was made for a new instance, the salt of
/// the instance for the DICE derivation, and whether rollback protection is
/// deferred.
pub fn perform_rollback_protection<
    L: FnOnce(&[u8]) -> Result<Option<EntryBody>, RebootReason>,
    G: FnOnce() -> Option<Hidden>,
    W: FnOnce(&[u8], EntryBody) -> Result<(), crate::instance::Error>,
>(
    defer_property: Result<Option<()>, FdtError>,
    verified_boot_data: &VerifiedBootData,
    dice_inputs: &PartialInputs,
    cdi_seal: &[u8],
    instance_hash: Option<Hidden>,
    lookup: L,
    random_salt: G,
    record: W,
) -> (r: Outcome)
    requires
        needs_instance_hash(defer_property, verified_boot_data.capabilities@)
            ==> instance_hash is Some,
        call_requires(lookup, (cdi_seal,)),
        call_requires(random_salt, ()),
        forall|entry: EntryBody| call_requires(record, (cdi_seal, entry)),
    ensures
        exists|
            found: Result<Option<EntryBody>, RebootReason>,
            generated: Option<Hidden>,
            recorded: Result<(), crate::instance::Error>,
        |
            is_outcome(
                r,
                defer_property,
                *verified_boot_data,
                *dice_inputs,
                cdi_seal,
                instance_hash,
                lookup,
                random_salt,
                record,
                found,
                generated,
                recorded,
            ),
{
    let ghost unfound: Result<Option<EntryBody>, RebootReason> = Ok(None);
    let ghost unrecorded: Result<(), crate::instance::Error> = Ok(());
    let r = match should_defer_rollback_protection(defer_property) {
        Err(e) => Err(e),
        Ok(defer) => match select_strategy(defer, verified_boot_data) {
            Strategy::Deferred => match perform_deferred_rollback_protection(verified_boot_data) {
                Err(e) => Err(e),
                Ok(()) => Ok((false, instance_hash.unwrap(), true)),
            },
            Strategy::FixedIndex(fixed) => {
                // Prevent attackers from impersonating well-known images.
                match perform_fixed_index_rollback_protection(verified_boot_data, fixed) {
                    Err(e) => Err(e),
                    Ok(()) => Ok((false, instance_hash.unwrap(), false)),
                }
            },
            Strategy::Skipped => Ok((false, instance_hash.unwrap(), false)),
            Strategy::InstanceImage => {
                let r = perform_legacy_rollback_protection(
                    dice_inputs,
                    cdi_seal,
                    instance_hash,
                    lookup,
                    random_salt,
                    record,
                );
                proof {
                    let (found, generated, recorded) = choose|
                        found: Result<Option<EntryBody>, RebootReason>,
                        generated: Option<Hidden>,
                        recorded: Result<(), crate::instance::Error>,
                    |
                        is_legacy_outcome(
                            r,
                            *dice_inputs,
                            cdi_seal,
                            instance_hash,
                            lookup,
                            random_salt,
                            record,
                            found,
                            generated,
                            recorded,
                        );
                    assert(is_outcome(
                        r,
                        defer_property,
                        *verified_boot_data,
                        *dice_inputs,
                        cdi_seal,
                        instance_hash,
                        lookup,
                        random_salt,
                        record,
                        found,
                        generated,
                        recorded,
                    ));
                }
                return r;
            },
        },
    };
    assert(is_outcome(
        r,
        defer_property,
        *verified_boot_data,
        *dice_inputs,
        cdi_seal,
        instance_hash,
        lookup,
        random_salt,
        record,
        unfound,
        None,
        unrecorded,
    ));
    r
}

/// A payload that is pinned to a version and has another rollback index is
/// refused as invalid, whatever the instance image holds and whatever the three
/// functions would do: they are not asked.
pub proof fn lemma_pinned_payload_is_refused<
    L: FnOnce(&[u8]) -> Result<Option<EntryBody>, RebootReason>,
    G: FnOnce() -> Option<Hidden>,
    W: FnOnce(&[u8], EntryBody) -> Result<(), crate::instance::Error>,
>(
    r: Outcome,
    defer: bool,
    data: VerifiedBootData,
    dice_inputs: PartialInputs,
    cdi_seal: &[u8],
    instance_hash: Option<Hidden>,
    lookup: L,
    random_salt: G,
    record: W,
    found: Result<Option<EntryBody>, RebootReason>,
    generated: Option<Hidden>,
    recorded: Result<(), crate::instance::Error>,
)
    requires
        data.capabilities@.contains(Capability::RemoteAttest),
        !(defer && data.capabilities@.contains(Capability::SecretkeeperProtection)),
        data.rollback_index != SERVICE_VM_VERSION,
        is_outcome(
            r,
            Ok(if defer {
                Some(())
            } else {
                None
            }),
            data,
            dice_inputs,
            cdi_seal,
            instance_hash,
            lookup,
            random_salt,
            record,
            found,
            generated,
            recorded,
        ),
    ensures
        r == Err::<(bool, Hidden, bool), RebootReason>(RebootReason::InvalidPayload),
{
}

/// A record whose authority hash differs from that of the payload does not match,
/// even where the code hash and the DICE mode agree, and the guest is not
/// started: the payload was signed anew under another key.
pub proof fn lemma_recorded_auth_hash_mismatch<
    L: FnOnce(&[u8]) -> Result<Option<EntryBody>, RebootReason>,
    G: FnOnce() -> Option<Hidden>,
    W: FnOnce(&[u8], EntryBody) -> Result<(), crate::instance::Error>,
>(
    r: Outcome,
    dice_inputs: PartialInputs,
    entry: EntryBody,
    cdi_seal: &[u8],
    instance_hash: Option<Hidden>,
    lookup: L,
    random_salt: G,
    record: W,
    generated: Option<Hidden>,
    recorded: Result<(), crate::instance::Error>,
)
    requires
        entry.code_hash@ == dice_inputs.code_hash@,
        entry.auth_hash@ != dice_inputs.auth_hash@,
        is_legacy_outcome(
            r,
            dice_inputs,
            cdi_seal,
            instance_hash,
            lookup,
            random_salt,
            record,
            Ok(Some(entry)),
            generated,
            recorded,
        ),
    ensures
        spec_measurements_match(dice_inputs, entry) == Err::<(), crate::instance::Error>(
            crate::instance::Error::RecordedAuthHashMismatch,
        ),
        r == Err::<(bool, Hidden, bool), RebootReason>(RebootReason::InternalError),
{
}

/// A record is made for a new instance only: rollback protection reports a new
/// instance if and only if no record was found and one was written, and it is
/// deferred for no guest that is protected by the instance image.
pub proof fn lemma_new_instance_only_when_recorded<
    L: FnOnce(&[u8]) -> Result<Option<EntryBody>, RebootReason>,
    G: FnOnce() -> Option<Hidden>,
    W: FnOnce(&[u8], EntryBody) -> Result<(), crate::instance::Error>,
>(
    r: Outcome,
    dice_inputs: PartialInputs,
    cdi_seal: &[u8],
    instance_hash: Option<Hidden>,
    lookup: L,
    random_salt: G,
    record: W,
    found: Result<Option<EntryBody>, RebootReason>,
    generated: Option<Hidden>,
    recorded: Result<(), crate::instance::Error>,
)
    requires
        is_legacy_outcome(
            r,
            dice_inputs,
            cdi_seal,
            instance_hash,
            lookup,
            random_salt,
            record,
            found,
            generated,
            recorded,
        ),
        r is Ok,
    ensures
        r->Ok_0.0 <==> found == Ok::<Option<EntryBody>, RebootReason>(None),
        r->Ok_0.0 ==> recorded is Ok,
        !r->Ok_0.2,
{
}

} // verus!
