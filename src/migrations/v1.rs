//! From the first layout, the bare gene data, to the second, which adds a
//! four-byte name.
use super::{check_version, migrated_records, records_view, KittyStorage, MigrationError, Weight};
use crate::registry::KittyId;
use crate::scale::{decode_bytes, encode_bytes};
use vstd::prelude::*;

verus! {

/// A record in the first layout.
#[derive(Clone, Copy, Debug, PartialEq, Eq, Default)]
pub struct OldKitty(pub [u8; 16]);

/// A record in the second layout.
#[derive(Clone, Copy, Debug, PartialEq, Eq, Default)]
pub struct Kitty {
    pub dna: [u8; 16],
    pub name: [u8; 4],
}

/// The name every record gets in the second layout: `abcd`.
pub open spec fn default_name() -> Seq<u8> {
    seq![97u8, 98u8, 99u8, 100u8]
}

/// A first-layout record in the second layout: its first sixteen bytes, then
/// the default name.
pub open spec fn upgraded(record: Seq<u8>) -> Option<Seq<u8>> {
    if record.len() >= 16 {
        Some(record.subrange(0, 16) + default_name())
    } else {
        None
    }
}

impl OldKitty {
    /// Reads a first-layout record from the front of `input`.
    pub fn decode(input: &[u8]) -> (r: Option<OldKitty>)
        ensures
            input@.len() >= 16 ==> r is Some && (r->0).0@ == input@.subrange(0, 16),
            input@.len() < 16 ==> r is None,
    {
        match decode_bytes::<16>(input) {
            Some(dna) => Some(OldKitty(dna)),
            None => None,
        }
    }
}

impl Kitty {
    /// The encoding of a second-layout record: its genes, then its name.
    pub fn encode(&self) -> (r: Vec<u8>)
        ensures
            r@ == self.dna@ + self.name@,
    {
        let mut out = encode_bytes(&self.dna);
        let mut name = encode_bytes(&self.name);
        out.append(&mut name);
        out
    }
}

/// Rewrites every first-layout record in the second layout, with the default
/// name, and records the new version. Records that do not decode are taken
/// out, as the storage sweep drains them.
///
/// Fails with `VersionMismatch`, changing nothing, unless the stored version
/// is 0 and `current_version` is 1.
pub fn migrate(storage: &mut KittyStorage, current_version: u16) -> (r: Result<Weight, MigrationError>)
    ensures
        r is Ok <==> super::version_guard(old(storage).on_chain_version, current_version, 0),
        r is Err ==> r == Err::<Weight, MigrationError>(
            MigrationError::VersionMismatch {
                on_chain: old(storage).on_chain_version,
                current: current_version,
            },
        ) && *final(storage) == *old(storage),
        r is Ok ==> r == Ok::<Weight, MigrationError>(0) && final(storage).on_chain_version
            == current_version && records_view(final(storage).records@) == migrated_records(
            records_view(old(storage).records@),
            0,
        ),
{
    match check_version(storage.on_chain_version, current_version, 0) {
        Ok(()) => {},
        Err(e) => {
            return Err(e);
        },
    }
    let records = &storage.records;
    let name: [u8; 4] = [97u8, 98u8, 99u8, 100u8];
    assert(name@ =~= default_name());
    let mut migrated: Vec<(KittyId, Vec<u8>)> = Vec::new();
    let mut i: usize = 0;
    while i < records.len()
        invariant
            0 <= i <= records@.len(),
            name@ == default_name(),
            records_view(migrated@) == migrated_records(
                records_view(records@.subrange(0, i as int)),
                0,
            ),
        decreases records@.len() - i,
    {
        let id = records[i].0;
        proof {
            let before = records_view(records@.subrange(0, i as int));
            let after = records_view(records@.subrange(0, i + 1));
            assert(after.drop_last() =~= before);
            assert(after.last() == (id, records@[i as int].1@));
        }
        match OldKitty::decode(records[i].1.as_slice()) {
            Some(old) => {
                let new = Kitty { dna: old.0, name };
                let bytes = new.encode();
                let ghost prev = migrated@;
                migrated.push((id, bytes));
                assert(records_view(migrated@) =~= records_view(prev).push((id, bytes@)));
            },
            None => {},
        }
        i = i + 1;
    }
    assert(records@.subrange(0, records@.len() as int) =~= records@);
    storage.records = migrated;
    storage.on_chain_version = current_version;
    Ok(0)
}

} // verus!
