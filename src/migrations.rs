//! Storage migrations of the kitty record layout. Each step reads every
//! record in the layout of one version, rewrites it in the layout of the
//! next under the same identifier, and records the new version. A step runs
//! only when the stored version is exactly the one it reads and the code's
//! version exactly the one it writes.
pub mod v1;
pub mod v2;

use crate::registry::KittyId;
use vstd::prelude::*;

verus! {

/// The weight a migration step reports.
pub type Weight = u64;

/// The kitty records as they lie in storage, each identifier with its
/// encoded record, and the layout version they are written in.
pub struct KittyStorage {
    pub on_chain_version: u16,
    pub records: Vec<(KittyId, Vec<u8>)>,
}

/// Why a migration step refused to run.
#[derive(Clone, Copy, Debug, PartialEq, Eq, Structural)]
pub enum MigrationError {
    /// The stored version or the code's version is not the one the step is for.
    VersionMismatch { on_chain: u16, current: u16 },
}

/// The records with their bytes as sequences.
pub open spec fn records_view(records: Seq<(KittyId, Vec<u8>)>) -> Seq<(KittyId, Seq<u8>)> {
    records.map_values(|e: (KittyId, Vec<u8>)| (e.0, e.1@))
}

/// The step from version `from` runs only on storage at version `from`, and
/// only for code at version `from + 1`.
pub open spec fn version_guard(on_chain: u16, current: u16, from: u16) -> bool {
    on_chain == from && current == from + 1
}

/// A record in the layout of version `from`, rewritten in the layout of the
/// next version; `None` when the bytes do not decode.
pub open spec fn upgraded(from: u16, record: Seq<u8>) -> Option<Seq<u8>> {
    if from == 0 {
        v1::upgraded(record)
    } else if from == 1 {
        v2::upgraded(record)
    } else {
        None
    }
}

/// The records after the step from version `from`: in the same order, each
/// rewritten under its identifier, and those that do not decode taken out.
pub open spec fn migrated_records(records: Seq<(KittyId, Seq<u8>)>, from: u16) -> Seq<
    (KittyId, Seq<u8>),
>
    decreases records.len(),
{
    if records.len() == 0 {
        Seq::empty()
    } else {
        let before = migrated_records(records.drop_last(), from);
        match upgraded(from, records.last().1) {
            Some(record) => before.push((records.last().0, record)),
            None => before,
        }
    }
}

/// Checks the version guard of the step from version `from`.
pub fn check_version(on_chain: u16, current: u16, from: u16) -> (r: Result<(), MigrationError>)
    ensures
        r is Ok <==> version_guard(on_chain, current, from),
        r is Err ==> r == Err::<(), MigrationError>(
            MigrationError::VersionMismatch { on_chain, current },
        ),
{
    if on_chain == from && from < u16::MAX && current == from + 1 {
        Ok(())
    } else {
        Err(MigrationError::VersionMismatch { on_chain, current })
    }
}


/// A step runs at most once: after a step from version `from` succeeded with
/// the code at version `current`, the stored version is `current`, and the
/// same step's guard refuses to run it again.
pub proof fn lemma_step_runs_once(on_chain: u16, current: u16, from: u16)
    requires
        version_guard(on_chain, current, from),
    ensures
        !version_guard(current, current, from),
{
}

/// Records of the first layout, sixteen bytes of genes each, come out of the
/// first step as their genes followed by `abcd`, and out of the second step as
/// their genes followed by `abcdefgh`, under the same identifiers and in the
/// same order.
pub proof fn lemma_two_steps(records: Seq<(KittyId, Seq<u8>)>)
    requires
        forall|i: int| 0 <= i < records.len() ==> (#[trigger] records[i]).1.len() == 16,
    ensures
        migrated_records(records, 0) == records.map_values(
            |e: (KittyId, Seq<u8>)| (e.0, e.1 + v1::default_name()),
        ),
        migrated_records(migrated_records(records, 0), 1) == records.map_values(
            |e: (KittyId, Seq<u8>)| (e.0, e.1 + v2::default_name()),
        ),
    decreases records.len(),
{
    if records.len() > 0 {
        let rest = records.drop_last();
        let last = records.last();
        assert forall|i: int| 0 <= i < rest.len() implies (#[trigger] rest[i]).1.len() == 16 by {
            assert(rest[i] == records[i]);
        }
        lemma_two_steps(rest);
        assert(records[records.len() - 1] == last);
        assert(last.1.subrange(0, 16) =~= last.1);
        let once = last.1 + v1::default_name();
        assert(once.subrange(0, 16) =~= last.1);
        let first = migrated_records(records, 0);
        assert(first == migrated_records(rest, 0).push((last.0, once)));
        assert(first.drop_last() =~= migrated_records(rest, 0));
        assert(first =~= records.map_values(
            |e: (KittyId, Seq<u8>)| (e.0, e.1 + v1::default_name()),
        ));
        assert(migrated_records(first, 1) =~= records.map_values(
            |e: (KittyId, Seq<u8>)| (e.0, e.1 + v2::default_name()),
        ));
    } else {
        assert(records.map_values(|e: (KittyId, Seq<u8>)| (e.0, e.1 + v1::default_name()))
            =~= Seq::<(KittyId, Seq<u8>)>::empty());
        assert(records.map_values(|e: (KittyId, Seq<u8>)| (e.0, e.1 + v2::default_name()))
            =~= Seq::<(KittyId, Seq<u8>)>::empty());
    }
}

} // verus!
