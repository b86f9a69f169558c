//! The capabilities that a payload declares in its vbmeta image.

use crate::avb::error::{PvmfwVerifyError, SlotVerifyError};
use crate::avb::slot::{spec_property_value, Property, VbmetaData};
use crate::bytes::{bytes_eq, spec_split, split, views};
use vstd::prelude::*;
use vstd::string::StringSliceAdditionalSpecFns;

verus! {

/// A capability of a guest.
#[derive(Clone, Copy, Debug, PartialEq, Eq, Structural)]
pub enum Capability {
    /// The guest takes part in remote attestation.
    RemoteAttest,
    /// The secrets of the guest are protected by Secretkeeper.
    SecretkeeperProtection,
    /// The guest is a Trusty security VM.
    TrustySecurityVm,
    /// The guest kernel is booted through UEFI.
    SupportsUefiBoot,
}

/// The byte that separates the names in the capability property: `|`.
pub const SEPARATOR: u8 = 0x7c;

/// The key of the capability property.
pub open spec fn capability_key() -> Seq<u8> {
    "com.android.virt.cap".spec_bytes()
}

impl Capability {
    /// The number of capabilities.
    pub const COUNT: usize = 4;

    /// The name of the capability in the capability property.
    pub open spec fn name(self) -> Seq<u8> {
        match self {
            Capability::RemoteAttest => "remote_attest".spec_bytes(),
            Capability::SecretkeeperProtection => "secretkeeper_protection".spec_bytes(),
            Capability::TrustySecurityVm => "trusty_security_vm".spec_bytes(),
            Capability::SupportsUefiBoot => "supports_uefi_boot".spec_bytes(),
        }
    }

    /// The capability that goes by `name`, if any.
    pub open spec fn named(name: Seq<u8>) -> Option<Capability> {
        if name == Capability::RemoteAttest.name() {
            Some(Capability::RemoteAttest)
        } else if name == Capability::TrustySecurityVm.name() {
            Some(Capability::TrustySecurityVm)
        } else if name == Capability::SecretkeeperProtection.name() {
            Some(Capability::SecretkeeperProtection)
        } else if name == Capability::SupportsUefiBoot.name() {
            Some(Capability::SupportsUefiBoot)
        } else {
            None
        }
    }

    /// The capabilities that a list of names stands for.
    ///
    /// The names are taken in order. The first name that is unknown, or that
    /// repeats an earlier one, decides the error.
    pub open spec fn spec_from_names(names: Seq<Seq<u8>>) -> Result<
        Seq<Capability>,
        PvmfwVerifyError,
    >
        decreases names.len(),
    {
        if names.len() == 0 {
            Ok(Seq::<Capability>::empty())
        } else {
            match Self::spec_from_names(names.drop_last()) {
                Err(e) => Err(e),
                Ok(before) => match Self::named(names.last()) {
                    None => Err(PvmfwVerifyError::UnknownVbmetaProperty),
                    Some(cap) => if before.contains(cap) {
                        Err(PvmfwVerifyError::AvbSlotVerifyError(SlotVerifyError::InvalidMetadata))
                    } else {
                        Ok(before.push(cap))
                    },
                },
            }
        }
    }

    /// The capabilities that the properties of a vbmeta image declare: none without
    /// the capability property, else those that its value names between `|`.
    pub open spec fn spec_get_capabilities(properties: Seq<Property>) -> Result<
        Seq<Capability>,
        PvmfwVerifyError,
    > {
        match spec_property_value(properties, capability_key()) {
            None => Ok(Seq::<Capability>::empty()),
            Some(value) => Self::spec_from_names(spec_split(value, SEPARATOR)),
        }
    }

    /// The capability that goes by `name`, if any.
    pub fn from_name(name: &[u8]) -> (r: Option<Capability>)
        ensures
            r == Self::named(name@),
    {
        if bytes_eq(name, "remote_attest".as_bytes()) {
            Some(Capability::RemoteAttest)
        } else if bytes_eq(name, "trusty_security_vm".as_bytes()) {
            Some(Capability::TrustySecurityVm)
        } else if bytes_eq(name, "secretkeeper_protection".as_bytes()) {
            Some(Capability::SecretkeeperProtection)
        } else if bytes_eq(name, "supports_uefi_boot".as_bytes()) {
            Some(Capability::SupportsUefiBoot)
        } else {
            None
        }
    }

    /// Whether `cap` is among `capabilities`.
    pub fn is_among(cap: Capability, capabilities: &[Capability]) -> (r: bool)
        ensures
            r == capabilities@.contains(cap),
    {
        let mut i: usize = 0;
        while i < capabilities.len()
            invariant
                i <= capabilities.len(),
                forall|j: int| 0 <= j < i ==> capabilities@[j] != cap,
            decreases capabilities.len() - i,
        {
            if capabilities[i] == cap {
                return true;
            }
            i += 1;
        }
        false
    }

    /// Returns the capabilities that the vbmeta image declares, or an error if the
    /// capability property names an unknown capability or names one twice.
    pub fn get_capabilities(vbmeta_data: &VbmetaData) -> (r: Result<
        Vec<Capability>,
        PvmfwVerifyError,
    >)
        ensures
            match r {
                Ok(caps) => Self::spec_get_capabilities(vbmeta_data.properties@) == Ok::<
                    Seq<Capability>,
                    PvmfwVerifyError,
                >(caps@),
                Err(e) => Self::spec_get_capabilities(vbmeta_data.properties@) == Err::<
                    Seq<Capability>,
                    PvmfwVerifyError,
                >(e),
            },
    {
        let value = match vbmeta_data.get_property_value("com.android.virt.cap".as_bytes()) {
            Some(value) => value,
            None => {
                return Ok(Vec::new());
            },
        };
        let names = split(value, SEPARATOR);
        let mut res: Vec<Capability> = Vec::new();
        let mut i: usize = 0;
        assert(views(names@).take(0) =~= Seq::<Seq<u8>>::empty());
        while i < names.len()
            invariant
                i <= names.len(),
                Self::spec_get_capabilities(vbmeta_data.properties@) == Self::spec_from_names(
                    views(names@),
                ),
                Self::spec_from_names(views(names@).take(i as int)) == Ok::<
                    Seq<Capability>,
                    PvmfwVerifyError,
                >(res@),
            decreases names.len() - i,
        {
            proof {
                assert(views(names@).take(i + 1).drop_last() =~= views(names@).take(i as int));
                assert(views(names@).take(i + 1).last() == names@[i as int]@);
                lemma_from_names_fails_on(views(names@), i + 1);
            }
            let cap = match Self::from_name(names[i]) {
                Some(cap) => cap,
                None => {
                    return Err(PvmfwVerifyError::UnknownVbmetaProperty);
                },
            };
            if Self::is_among(cap, res.as_slice()) {
                return Err(PvmfwVerifyError::AvbSlotVerifyError(SlotVerifyError::InvalidMetadata));
            }
            res.push(cap);
            i += 1;
        }
        assert(views(names@).take(i as int) =~= views(names@));
        Ok(res)
    }
}

/// An error on a beginning of the names is the error on all of them.
pub proof fn lemma_from_names_fails_on(names: Seq<Seq<u8>>, n: int)
    requires
        0 <= n <= names.len(),
    ensures
        Capability::spec_from_names(names.take(n)) is Err ==> Capability::spec_from_names(names)
            == Capability::spec_from_names(names.take(n)),
    decreases names.len() - n,
{
    if n == names.len() {
        assert(names.take(n) =~= names);
    } else if Capability::spec_from_names(names.take(n)) is Err {
        assert(names.take(n + 1).drop_last() =~= names.take(n));
        lemma_from_names_fails_on(names, n + 1);
    }
}

/// The names that are accepted are known and pairwise different, and each
/// capability stands where its name stood.
pub proof fn lemma_from_names_distinct(names: Seq<Seq<u8>>)
    requires
        Capability::spec_from_names(names) is Ok,
    ensures
        Capability::spec_from_names(names)->Ok_0.len() == names.len(),
        forall|i: int|
            0 <= i < names.len() ==> Capability::named(#[trigger] names[i]) == Some(
                Capability::spec_from_names(names)->Ok_0[i],
            ),
        Capability::spec_from_names(names)->Ok_0.no_duplicates(),
    decreases names.len(),
{
    if names.len() > 0 {
        lemma_from_names_distinct(names.drop_last());
        let before = Capability::spec_from_names(names.drop_last())->Ok_0;
        let caps = Capability::spec_from_names(names)->Ok_0;
        assert forall|i: int| 0 <= i < names.len() implies Capability::named(#[trigger] names[i])
            == Some(caps[i]) by {
            if i < names.len() - 1 {
                assert(names.drop_last()[i] == names[i]);
            }
        }
    }
}

} // verus!
