//! Inspection of the DICE chain that the loader hands over.
//!
//! The chain is not validated in full: its signatures are not checked, the loader
//! has to be trusted. A chain that is not CBOR, or clearly ill-formed, is refused.

use crate::cbor::{
    cbor_encoded, deserialize, models, pair_models, spec_deserialize, value_as_array,
    value_as_bytes, value_as_integer, value_as_map, value_from_bytes, value_from_i64,
    value_from_pairs, value_model, write_value, CborModel,
};
use crate::dice::{Cdi, DiceError};
use crate::cose::{cose_key_alg, cose_key_algorithm, CoseAlgorithm};
use ciborium::value::Value;
use vstd::prelude::*;

verus! {

/// Why a DICE chain was refused.
#[derive(Clone, Copy, Debug, PartialEq, Eq)]
pub enum DiceChainError {
    /// The chain, or the payload of one of its entries, is not CBOR.
    CborDecodeError,
    /// A value could not be encoded as CBOR.
    CborEncodeError,
    /// The subject public key of the leaf is no COSE key.
    CosetError,
    /// A DICE operation failed.
    DiceError(DiceError),
    /// The chain does not have the expected CBOR structure.
    Malformed(&'static str),
    /// There is no chain.
    Missing,
}

/// The key of the mode in the payload of a chain entry.
pub const KEY_MODE: i32 = -4670551;

/// The mode of a stage that can be debugged.
pub const MODE_DEBUG: u8 = 2;

/// The key of the subject public key in the payload of a chain entry.
pub const SUBJECT_PUBLIC_KEY: i32 = -4670552;

/// The public key of a chain entry, as far as the firmware needs it.
#[derive(Clone, Copy, Debug, PartialEq, Eq, Structural)]
pub struct PublicKey {
    /// The algorithm of the key: the `alg` field of the COSE key, as its number
    /// in the IANA registry of COSE algorithms.
    pub cose_alg: i64,
}

/// The value under the first integer key `key` of a map.
pub open spec fn spec_lookup(pairs: Seq<(CborModel, CborModel)>, key: int) -> Option<CborModel>
    decreases pairs.len(),
{
    if pairs.len() == 0 {
        None
    } else if pairs[0].0 == CborModel::Integer(key) {
        Some(pairs[0].1)
    } else {
        spec_lookup(pairs.drop_first(), key)
    }
}

/// The value under the integer key `key` of a payload. A payload that is no map
/// holds nothing.
pub open spec fn spec_value_from_key(payload: CborModel, key: int) -> Option<CborModel> {
    match payload {
        CborModel::Pairs(pairs) => spec_lookup(pairs, key),
        _ => None,
    }
}

/// The bytes of the payload of a chain entry: the third of its four elements.
pub open spec fn spec_payload_bytes(entry: CborModel) -> Option<Seq<u8>> {
    match entry {
        CborModel::Array(items) => if items.len() == 4 {
            match items[2] {
                CborModel::Bytes(bytes) => Some(bytes),
                _ => None,
            }
        } else {
            None
        },
        _ => None,
    }
}

/// The payload of a chain entry.
pub open spec fn spec_payload(entry: CborModel) -> Result<CborModel, DiceChainError> {
    match spec_payload_bytes(entry) {
        None => Err(DiceChainError::Malformed("Invalid DiceChainEntryPayload")),
        Some(bytes) => match spec_deserialize(bytes) {
            None => Err(DiceChainError::CborDecodeError),
            Some(payload) => Ok(payload),
        },
    }
}

/// Whether a payload declares the debug mode.
///
/// The mode is a byte string of one byte or an integer. A payload without a mode
/// does not declare the debug mode.
pub open spec fn spec_is_debug_mode(payload: CborModel) -> Result<bool, DiceChainError> {
    match spec_value_from_key(payload, KEY_MODE as int) {
        None => Ok(false),
        Some(CborModel::Bytes(bytes)) => if bytes.len() != 1 {
            Err(DiceChainError::Malformed("Invalid mode bstr"))
        } else {
            Ok(bytes[0] == MODE_DEBUG)
        },
        Some(CborModel::Integer(mode)) => Ok(mode == MODE_DEBUG as int),
        Some(_) => Err(DiceChainError::Malformed("Invalid type for mode")),
    }
}

/// The public key of a COSE key with the `alg` field `alg`: the field must be
/// there and hold an algorithm of the IANA registry.
pub open spec fn spec_from_algorithm(alg: Option<CoseAlgorithm>) -> Result<
    PublicKey,
    DiceChainError,
> {
    match alg {
        Some(CoseAlgorithm::Assigned(cose_alg)) => Ok(PublicKey { cose_alg }),
        _ => Err(DiceChainError::Malformed("Invalid algorithm in public key")),
    }
}

/// The public key that `bytes` encode as a COSE key.
pub open spec fn spec_public_key(bytes: Seq<u8>) -> Result<PublicKey, DiceChainError> {
    match cose_key_alg(bytes) {
        None => Err(DiceChainError::CosetError),
        Some(alg) => spec_from_algorithm(alg),
    }
}

/// The subject public key of a payload.
pub open spec fn spec_subject_public_key(payload: CborModel) -> Result<PublicKey, DiceChainError> {
    match spec_value_from_key(payload, SUBJECT_PUBLIC_KEY as int) {
        None => Err(DiceChainError::Malformed("Subject public key missing")),
        Some(CborModel::Bytes(bytes)) => spec_public_key(bytes),
        Some(_) => Err(DiceChainError::Malformed("Subject public key is not a byte string")),
    }
}

/// The payloads of a list of chain entries, or the error of the first entry that
/// has none.
pub open spec fn spec_payloads(entries: Seq<CborModel>) -> Result<Seq<CborModel>, DiceChainError>
    decreases entries.len(),
{
    if entries.len() == 0 {
        Ok(Seq::<CborModel>::empty())
    } else {
        match spec_payloads(entries.drop_last()) {
            Err(e) => Err(e),
            Ok(before) => match spec_payload(entries.last()) {
                Err(e) => Err(e),
                Ok(payload) => Ok(before.push(payload)),
            },
        }
    }
}

/// Whether a payload of the list declares the debug mode. The payloads are read
/// in order until one does; a mode that cannot be read before that is an error.
pub open spec fn spec_any_debug_mode(payloads: Seq<CborModel>) -> Result<bool, DiceChainError>
    decreases payloads.len(),
{
    if payloads.len() == 0 {
        Ok(false)
    } else {
        match spec_is_debug_mode(payloads[0]) {
            Err(e) => Err(e),
            Ok(true) => Ok(true),
            Ok(false) => spec_any_debug_mode(payloads.drop_first()),
        }
    }
}

/// What the inspection of a decoded DICE chain yields.
pub open spec fn spec_inspect(chain: CborModel) -> Result<DiceChainInfo, DiceChainError> {
    match chain {
        CborModel::Array(items) => if items.len() >= 2 {
            match spec_payloads(items.skip(1)) {
                Err(e) => Err(e),
                Ok(payloads) => match spec_any_debug_mode(payloads) {
                    Err(e) => Err(e),
                    Ok(is_debug_mode) => match spec_subject_public_key(payloads.last()) {
                        Err(e) => Err(e),
                        Ok(leaf_subject_pubkey) => Ok(
                            DiceChainInfo { is_debug_mode, leaf_subject_pubkey },
                        ),
                    },
                },
            }
        } else {
            Err(DiceChainError::Malformed("Invalid top level value"))
        },
        _ => Err(DiceChainError::Malformed("Invalid top level value")),
    }
}

/// What the inspection of a DICE chain yields, given the bytes of the chain if
/// there are any.
pub open spec fn spec_new(handover: Option<Seq<u8>>) -> Result<DiceChainInfo, DiceChainError> {
    match handover {
        None => Err(DiceChainError::Missing),
        Some(bytes) => if bytes.len() == 0 {
            Err(DiceChainError::Missing)
        } else {
            match spec_deserialize(bytes) {
                None => Err(DiceChainError::CborDecodeError),
                Some(chain) => spec_inspect(chain),
            }
        },
    }
}

/// The view of an optional byte slice.
pub open spec fn spec_bytes(bytes: Option<&[u8]>) -> Option<Seq<u8>> {
    match bytes {
        Some(b) => Some(b@),
        None => None,
    }
}

/// A DICE chain, as far as the firmware decodes it.
#[derive(Clone, Copy, Debug, PartialEq, Eq, Structural)]
pub struct DiceChainInfo {
    /// Whether an entry of the chain declares the debug mode.
    pub is_debug_mode: bool,
    /// The subject public key of the last entry of the chain.
    pub leaf_subject_pubkey: PublicKey,
}

impl DiceChainInfo {
    /// Inspects the DICE chain of a handover.
    ///
    /// The chain is an array of the public key of the device and one entry or
    /// more, from the root to the leaf.
    pub fn new(handover: Option<&[u8]>) -> (r: Result<Self, DiceChainError>)
        ensures
            r == spec_new(spec_bytes(handover)),
    {
        let handover = match handover {
            Some(handover) => handover,
            None => {
                return Err(DiceChainError::Missing);
            },
        };
        if handover.len() == 0 {
            return Err(DiceChainError::Missing);
        }
        let handover_cbor = match deserialize(handover) {
            Some(value) => value,
            None => {
                return Err(DiceChainError::CborDecodeError);
            },
        };
        Self::inspect(&handover_cbor)
    }

    /// Inspects a decoded DICE chain.
    pub fn inspect(chain: &Value) -> (r: Result<Self, DiceChainError>)
        ensures
            r == spec_inspect(value_model(*chain)),
    {
        let dice_chain = match value_as_array(chain) {
            Some(items) => items,
            None => {
                return Err(DiceChainError::Malformed("Invalid top level value"));
            },
        };
        if dice_chain.len() < 2 {
            return Err(DiceChainError::Malformed("Invalid top level value"));
        }
        // Decode all the payloads to make sure that they are well-formed.
        let ghost entries = models(dice_chain@).skip(1);
        let mut payloads: Vec<DiceChainEntryPayload> = Vec::new();
        let mut i: usize = 1;
        assert(entries.take(0) =~= Seq::<CborModel>::empty());
        assert(payload_models(payloads@) =~= Seq::<CborModel>::empty());
        while i < dice_chain.len()
            invariant
                1 <= i <= dice_chain.len(),
                dice_chain.len() >= 2,
                value_model(*chain) == CborModel::Array(models(dice_chain@)),
                entries == models(dice_chain@).skip(1),
                spec_payloads(entries.take(i - 1)) == Ok::<Seq<CborModel>, DiceChainError>(
                    payload_models(payloads@),
                ),
            decreases dice_chain.len() - i,
        {
            proof {
                assert(entries.take(i as int).drop_last() =~= entries.take(i - 1));
                assert(entries.take(i as int).last() == value_model(dice_chain@[i as int]));
                lemma_payloads_fail_on(entries, i as int);
            }
            let ghost before = payloads@;
            let payload = DiceChainEntry::new(&dice_chain[i]).payload()?;
            payloads.push(payload);
            assert(payload_models(payloads@) =~= payload_models(before).push(payload.model()));
            i += 1;
        }
        assert(entries.take(i - 1) =~= entries);
        let is_debug_mode = is_any_payload_debug_mode(payloads.as_slice())?;
        let leaf_subject_pubkey = payloads[payloads.len() - 1].subject_public_key()?;
        Ok(Self { is_debug_mode, leaf_subject_pubkey })
    }

    /// Returns whether an entry of the chain declares the debug mode, which makes
    /// the whole chain one of a device that is not secure.
    pub fn is_debug_mode(&self) -> (r: bool)
        ensures
            r == self.is_debug_mode,
    {
        self.is_debug_mode
    }

    /// The subject public key of the last entry of the chain.
    pub fn leaf_subject_pubkey(&self) -> (r: &PublicKey)
        ensures
            *r == self.leaf_subject_pubkey,
    {
        &self.leaf_subject_pubkey
    }
}

/// An error on a beginning of the entries is the error on all of them.
pub proof fn lemma_payloads_fail_on(entries: Seq<CborModel>, n: int)
    requires
        0 <= n <= entries.len(),
    ensures
        spec_payloads(entries.take(n)) is Err ==> spec_payloads(entries) == spec_payloads(
            entries.take(n),
        ),
    decreases entries.len() - n,
{
    if n == entries.len() {
        assert(entries.take(n) =~= entries);
    } else if spec_payloads(entries.take(n)) is Err {
        assert(entries.take(n + 1).drop_last() =~= entries.take(n));
        lemma_payloads_fail_on(entries, n + 1);
    }
}

/// The models of a list of payloads.
pub open spec fn payload_models(payloads: Seq<DiceChainEntryPayload>) -> Seq<CborModel> {
    payloads.map_values(|p: DiceChainEntryPayload| p.model())
}

/// Returns whether a payload of the chain declares the debug mode.
///
/// Other modes are not told apart: it is not clear what they would mean here.
pub fn is_any_payload_debug_mode(payloads: &[DiceChainEntryPayload]) -> (r: Result<
    bool,
    DiceChainError,
>)
    ensures
        r == spec_any_debug_mode(payload_models(payloads@)),
{
    let ghost all = payload_models(payloads@);
    let mut i: usize = 0;
    assert(all.skip(0) =~= all);
    while i < payloads.len()
        invariant
            i <= payloads.len(),
            all == payload_models(payloads@),
            spec_any_debug_mode(all) == spec_any_debug_mode(all.skip(i as int)),
        decreases payloads.len() - i,
    {
        assert(all.skip(i as int)[0] == payloads@[i as int].model());
        assert(all.skip(i as int).drop_first() =~= all.skip(i + 1));
        if payloads[i].is_debug_mode()? {
            return Ok(true);
        }
        i += 1;
    }
    Ok(false)
}

/// An entry of a DICE chain.
pub struct DiceChainEntry<'a>(pub &'a Value);

impl<'a> DiceChainEntry<'a> {
    /// What the entry holds.
    pub open spec fn model(self) -> CborModel {
        value_model(*self.0)
    }

    /// The entry that a value of the chain is.
    pub fn new(entry: &'a Value) -> (r: Self)
        ensures
            r.model() == value_model(*entry),
    {
        Self(entry)
    }

    /// Decodes the payload of the entry.
    ///
    /// An entry is an array of four elements: the protected header, the
    /// unprotected header, the payload and the signature. The payload is a byte
    /// string that holds a CBOR value.
    pub fn payload(&self) -> (r: Result<DiceChainEntryPayload, DiceChainError>)
        ensures
            match r {
                Ok(payload) => spec_payload(self.model()) == Ok::<CborModel, DiceChainError>(
                    payload.model(),
                ),
                Err(e) => spec_payload(self.model()) == Err::<CborModel, DiceChainError>(e),
            },
    {
        let payload = match self.payload_bytes() {
            Some(bytes) => bytes,
            None => {
                return Err(DiceChainError::Malformed("Invalid DiceChainEntryPayload"));
            },
        };
        match deserialize(payload.as_slice()) {
            Some(payload) => Ok(DiceChainEntryPayload(payload)),
            None => Err(DiceChainError::CborDecodeError),
        }
    }

    /// The bytes of the payload of the entry.
    pub fn payload_bytes(&self) -> (r: Option<&'a Vec<u8>>)
        ensures
            match r {
                Some(bytes) => spec_payload_bytes(self.model()) == Some(bytes@),
                None => spec_payload_bytes(self.model()) is None,
            },
    {
        let entry = match value_as_array(self.0) {
            Some(entry) => entry,
            None => {
                return None;
            },
        };
        if entry.len() != 4 {
            return None;
        }
        value_as_bytes(&entry[2])
    }
}

/// The payload of an entry of a DICE chain.
pub struct DiceChainEntryPayload(pub Value);

impl DiceChainEntryPayload {
    /// What the payload holds.
    pub open spec fn model(self) -> CborModel {
        value_model(self.0)
    }

    /// Returns whether the payload declares the debug mode.
    ///
    /// The mode should be a byte string of one byte, but some implementations
    /// encode it as an integer: either is accepted. A payload without a mode does
    /// not declare the debug mode.
    pub fn is_debug_mode(&self) -> (r: Result<bool, DiceChainError>)
        ensures
            r == spec_is_debug_mode(self.model()),
    {
        let value = match self.value_from_key(KEY_MODE) {
            Some(value) => value,
            None => {
                return Ok(false);
            },
        };
        if let Some(bytes) = value_as_bytes(value) {
            if bytes.len() != 1 {
                return Err(DiceChainError::Malformed("Invalid mode bstr"));
            }
            Ok(bytes[0] == MODE_DEBUG)
        } else {
            match value_as_integer(value) {
                Some(mode) => Ok(mode == MODE_DEBUG as i128),
                None => Err(DiceChainError::Malformed("Invalid type for mode")),
            }
        }
    }

    /// The subject public key of the payload.
    pub fn subject_public_key(&self) -> (r: Result<PublicKey, DiceChainError>)
        ensures
            r == spec_subject_public_key(self.model()),
    {
        let value = match self.value_from_key(SUBJECT_PUBLIC_KEY) {
            Some(value) => value,
            None => {
                return Err(DiceChainError::Malformed("Subject public key missing"));
            },
        };
        match value_as_bytes(value) {
            Some(bytes) => PublicKey::from_slice(bytes.as_slice()),
            None => Err(DiceChainError::Malformed("Subject public key is not a byte string")),
        }
    }

    /// The value under the integer key `key`.
    ///
    /// The payload is a map. Other keys than integers may be present, and the key
    /// may be absent or occur more than once: the first occurrence counts.
    pub fn value_from_key(&self, key: i32) -> (r: Option<&Value>)
        ensures
            match r {
                Some(value) => spec_value_from_key(self.model(), key as int) == Some(
                    value_model(*value),
                ),
                None => spec_value_from_key(self.model(), key as int) is None,
            },
    {
        let payload = match value_as_map(&self.0) {
            Some(payload) => payload,
            None => {
                return None;
            },
        };
        let ghost pairs = pair_models(payload@);
        let mut i: usize = 0;
        assert(pairs.skip(0) =~= pairs);
        while i < payload.len()
            invariant
                i <= payload.len(),
                pairs == pair_models(payload@),
                self.model() == CborModel::Pairs(pairs),
                spec_lookup(pairs, key as int) == spec_lookup(pairs.skip(i as int), key as int),
            decreases payload.len() - i,
        {
            assert(pairs.skip(i as int)[0] == (
                value_model(payload@[i as int].0),
                value_model(payload@[i as int].1),
            ));
            assert(pairs.skip(i as int).drop_first() =~= pairs.skip(i + 1));
            let (k, v) = &payload[i];
            let found = match value_as_integer(k) {
                Some(number) => number == key as i128,
                None => false,
            };
            if found {
                return Some(v);
            }
            i += 1;
        }
        None
    }
}

impl PublicKey {
    /// Decodes a COSE key and keeps its algorithm, which must be one of the IANA
    /// registry.
    pub fn from_slice(slice: &[u8]) -> (r: Result<Self, DiceChainError>)
        ensures
            r == spec_public_key(slice@),
    {
        match cose_key_algorithm(slice) {
            Err(_) => Err(DiceChainError::CosetError),
            Ok(alg) => Self::from_algorithm(alg),
        }
    }

    /// The public key of a COSE key with the `alg` field `alg`.
    pub fn from_algorithm(alg: Option<CoseAlgorithm>) -> (r: Result<Self, DiceChainError>)
        ensures
            r == spec_from_algorithm(alg),
    {
        match alg {
            Some(CoseAlgorithm::Assigned(cose_alg)) => Ok(Self { cose_alg }),
            _ => Err(DiceChainError::Malformed("Invalid algorithm in public key")),
        }
    }
}

/// The payloads of a list of entries that all have one stand in the order of the
/// entries.
pub proof fn lemma_payloads_in_order(entries: Seq<CborModel>)
    requires
        spec_payloads(entries) is Ok,
    ensures
        spec_payloads(entries)->Ok_0.len() == entries.len(),
        forall|i: int|
            0 <= i < entries.len() ==> spec_payload(#[trigger] entries[i]) == Ok::<
                CborModel,
                DiceChainError,
            >(spec_payloads(entries)->Ok_0[i]),
    decreases entries.len(),
{
    if entries.len() > 0 {
        lemma_payloads_in_order(entries.drop_last());
        let payloads = spec_payloads(entries)->Ok_0;
        assert forall|i: int| 0 <= i < entries.len() implies spec_payload(#[trigger] entries[i])
            == Ok::<CborModel, DiceChainError>(payloads[i]) by {
            if i < entries.len() - 1 {
                assert(entries.drop_last()[i] == entries[i]);
            }
        }
    }
}

/// A list of payloads is found in the debug mode if and only if one of its
/// payloads declares that mode.
pub proof fn lemma_any_debug_mode(payloads: Seq<CborModel>)
    requires
        spec_any_debug_mode(payloads) is Ok,
    ensures
        spec_any_debug_mode(payloads)->Ok_0 <==> exists|i: int|
            0 <= i < payloads.len() && spec_is_debug_mode(#[trigger] payloads[i]) == Ok::<
                bool,
                DiceChainError,
            >(true),
    decreases payloads.len(),
{
    if payloads.len() > 0 {
        if spec_is_debug_mode(payloads[0]) == Ok::<bool, DiceChainError>(true) {
        } else {
            let rest = payloads.drop_first();
            lemma_any_debug_mode(rest);
            if spec_any_debug_mode(rest)->Ok_0 {
                let i = choose|i: int|
                    0 <= i < rest.len() && spec_is_debug_mode(#[trigger] rest[i]) == Ok::<
                        bool,
                        DiceChainError,
                    >(true);
                assert(payloads[i + 1] == rest[i]);
            } else {
                assert forall|i: int| 0 <= i < payloads.len() implies spec_is_debug_mode(
                    #[trigger] payloads[i],
                ) != Ok::<bool, DiceChainError>(true) by {
                    if i > 0 {
                        assert(rest[i - 1] == payloads[i]);
                    }
                }
            }
        }
    }
}

/// Whether a chain entry has a payload that declares the debug mode.
pub open spec fn entry_declares_debug(entry: CborModel) -> bool {
    spec_payload(entry) matches Ok(payload) && spec_is_debug_mode(payload) == Ok::<
        bool,
        DiceChainError,
    >(true)
}

/// A chain that is accepted is in the debug mode if and only if one of its
/// entries, whatever their number, declares the debug mode.
pub proof fn lemma_debug_mode_of_chain(chain: CborModel)
    requires
        spec_inspect(chain) is Ok,
    ensures
        chain is Array,
        chain->Array_0.len() >= 2,
        spec_inspect(chain)->Ok_0.is_debug_mode <==> exists|i: int|
            1 <= i < chain->Array_0.len() && entry_declares_debug(#[trigger] chain->Array_0[i]),
{
    let items = chain->Array_0;
    let entries = items.skip(1);
    let payloads = spec_payloads(entries)->Ok_0;
    lemma_payloads_in_order(entries);
    lemma_any_debug_mode(payloads);
    if spec_inspect(chain)->Ok_0.is_debug_mode {
        let i = choose|i: int|
            0 <= i < payloads.len() && spec_is_debug_mode(#[trigger] payloads[i]) == Ok::<
                bool,
                DiceChainError,
            >(true);
        assert(entries[i] == items[i + 1]);
        assert(spec_payload(items[i + 1]) == Ok::<CborModel, DiceChainError>(payloads[i]));
    } else {
        assert forall|i: int| 1 <= i < items.len() implies !entry_declares_debug(
            #[trigger] items[i],
        ) by {
            assert(entries[i - 1] == items[i]);
            assert(spec_payload(entries[i - 1]) == Ok::<CborModel, DiceChainError>(
                payloads[i - 1],
            ));
        }
    }
}

/// The salt of the derivation that taints the CDIs: an arbitrary value, generated
/// at random.
pub const TAINT_SALT: [u8; 64] = [
    0xdc, 0x0d, 0xe7, 0x40, 0x47, 0x9d, 0x71, 0xb8, 0x69, 0xd0, 0x71, 0x85, 0x27, 0x47, 0xf5, 0x65,
    0x7f, 0x16, 0xfa, 0x59, 0x23, 0x19, 0x6a, 0x6b, 0x77, 0x41, 0x01, 0x45, 0x90, 0x3b, 0xfa, 0x68,
    0xad, 0xe5, 0x26, 0x31, 0x5b, 0x40, 0x85, 0x71, 0x97, 0x12, 0xbd, 0x0b, 0x38, 0x5c, 0x98, 0xf3,
    0x0e, 0xe1, 0x7c, 0x82, 0x23, 0xa4, 0x38, 0x38, 0x85, 0x84, 0x85, 0x0d, 0x02, 0x90, 0x60, 0xd3,
];

/// A DICE handover: the secrets of a stage and the DICE chain that leads to it.
#[derive(Debug, PartialEq, Eq)]
pub struct DiceHandover {
    /// The CDI for attestation.
    pub cdi_attest: Cdi,
    /// The CDI for sealing.
    pub cdi_seal: Cdi,
    /// The DICE chain, if the handover has one.
    pub dice_chain: Option<Vec<u8>>,
}

/// What the tainting of a CDI yields, given what the key derivation yielded.
pub open spec fn spec_tainted(derived: Result<Cdi, DiceError>) -> Result<Cdi, DiceChainError> {
    match derived {
        Ok(cdi) => Ok(cdi),
        Err(e) => Err(DiceChainError::DiceError(e)),
    }
}

/// Derives a CDI from `cdi` that no valid DICE derivation yields.
///
/// `kdf` is the key derivation function of the DICE profile, on the input key,
/// the salt and the info.
pub fn taint_cdi<K: Fn(&Cdi, &[u8; 64], &str) -> Result<Cdi, DiceError>>(
    cdi: &Cdi,
    info: &str,
    kdf: &K,
) -> (r: Result<Cdi, DiceChainError>)
    requires
        call_requires(*kdf, (cdi, &TAINT_SALT, info)),
    ensures
        exists|derived: Result<Cdi, DiceError>|
            call_ensures(*kdf, (cdi, &TAINT_SALT, info), derived) && r == spec_tainted(derived),
{
    let derived = kdf(cdi, &TAINT_SALT, info);
    let r = match derived {
        Ok(cdi) => Ok(cdi),
        Err(e) => Err(DiceChainError::DiceError(e)),
    };
    assert(r == spec_tainted(derived));
    r
}

/// The handover that holds the two CDIs and no DICE chain: a map of the CDI for
/// attestation under the key 1 and of the CDI for sealing under the key 2.
pub open spec fn spec_truncated(cdi_attest: Cdi, cdi_seal: Cdi) -> CborModel {
    CborModel::Pairs(
        seq![
            (CborModel::Integer(1), CborModel::Bytes(cdi_attest@)),
            (CborModel::Integer(2), CborModel::Bytes(cdi_seal@)),
        ],
    )
}

/// Whether `r` is the truncation of `handover` with the key derivation function
/// `kdf`, which yielded `seal` for the CDI for sealing and, if it was asked,
/// `attest` for the CDI for attestation.
pub open spec fn is_truncated<K: Fn(&Cdi, &[u8; 64], &str) -> Result<Cdi, DiceError>>(
    r: Result<Vec<u8>, DiceChainError>,
    handover: DiceHandover,
    kdf: K,
    seal: Result<Cdi, DiceError>,
    attest: Result<Cdi, DiceError>,
) -> bool {
    &&& call_ensures(kdf, (&handover.cdi_seal, &TAINT_SALT, "TaintCdiSeal"), seal)
    &&& match seal {
        Err(e) => r == Err::<Vec<u8>, DiceChainError>(DiceChainError::DiceError(e)),
        Ok(cdi_seal) => {
            &&& call_ensures(kdf, (&handover.cdi_attest, &TAINT_SALT, "TaintCdiAttest"), attest)
            &&& match attest {
                Err(e) => r == Err::<Vec<u8>, DiceChainError>(DiceChainError::DiceError(e)),
                Ok(cdi_attest) => match cbor_encoded(spec_truncated(cdi_attest, cdi_seal)) {
                    Some(bytes) => r matches Ok(v) && v@ == bytes,
                    None => r == Err::<Vec<u8>, DiceChainError>(DiceChainError::CborEncodeError),
                },
            }
        },
    }
}

/// Returns a new encoded handover that is based on the incoming CDIs but does not
/// chain from the received DICE chain.
///
/// The infos of the two derivations differ on purpose from those of a DICE
/// derivation: the result is to equal no valid derivation.
pub fn truncate<K: Fn(&Cdi, &[u8; 64], &str) -> Result<Cdi, DiceError>>(
    handover: &DiceHandover,
    kdf: K,
) -> (r: Result<Vec<u8>, DiceChainError>)
    requires
        forall|cdi: &Cdi, salt: &[u8; 64], info: &str| call_requires(kdf, (cdi, salt, info)),
    ensures
        exists|seal: Result<Cdi, DiceError>, attest: Result<Cdi, DiceError>|
            is_truncated(r, *handover, kdf, seal, attest),
{
    let ghost unasked: Result<Cdi, DiceError> = Err(DiceError::InvalidInput);
    let taint_seal = taint_cdi(&handover.cdi_seal, "TaintCdiSeal", &kdf);
    let ghost seal = choose|derived: Result<Cdi, DiceError>|
        call_ensures(kdf, (&handover.cdi_seal, &TAINT_SALT, "TaintCdiSeal"), derived)
            && taint_seal == spec_tainted(derived);
    let cdi_seal = match taint_seal {
        Ok(cdi) => cdi,
        Err(e) => {
            let r = Err(e);
            assert(is_truncated(r, *handover, kdf, seal, unasked));
            return r;
        },
    };
    let taint_attest = taint_cdi(&handover.cdi_attest, "TaintCdiAttest", &kdf);
    let ghost attest = choose|derived: Result<Cdi, DiceError>|
        call_ensures(kdf, (&handover.cdi_attest, &TAINT_SALT, "TaintCdiAttest"), derived)
            && taint_attest == spec_tainted(derived);
    let cdi_attest = match taint_attest {
        Ok(cdi) => cdi,
        Err(e) => {
            let r = Err(e);
            assert(is_truncated(r, *handover, kdf, seal, attest));
            return r;
        },
    };
    let mut pairs: Vec<(Value, Value)> = Vec::new();
    pairs.push((value_from_i64(1), value_from_bytes(cdi_attest.as_slice())));
    pairs.push((value_from_i64(2), value_from_bytes(cdi_seal.as_slice())));
    assert(pair_models(pairs@) =~= spec_truncated(cdi_attest, cdi_seal)->Pairs_0);
    let value = value_from_pairs(pairs);
    proof {
        let model = spec_truncated(cdi_attest, cdi_seal);
        assert forall|i: int| 0 <= i < model->Pairs_0.len() implies (
        #[trigger] model->Pairs_0[i]).0.is_exact() && model->Pairs_0[i].1.is_exact() by {
            reveal_with_fuel(CborModel::is_exact, 2);
        }
        assert(model.is_exact());
    }
    let r = match write_value(&value) {
        Some(bytes) => Ok(bytes),
        None => Err(DiceChainError::CborEncodeError),
    };
    assert(is_truncated(r, *handover, kdf, seal, attest));
    r
}

} // verus!
