//! The object-id table: a bounded mapping from host-chosen eight-bit ids
//! to hardware endpoint variants, kept in a fixed-capacity index map from
//! the `heapless` crate.
//!
//! The map itself is outside code; its contents are named by
//! [`oid_entries`], and the few calls the table needs go through trusted
//! wrappers whose contracts state what the crate's source shows.

use vstd::prelude::*;

verus! {

/// A hardware endpoint as the host refers to it.  The host assigns ids
/// with the `config_*` commands before any use; reconfiguring an occupied
/// slot replaces the variant.
#[derive(Clone, Copy, PartialEq, Eq, Structural, Debug)]
pub enum OIDTypes {
    /// The half-duplex UART bridge to the TMC driver.
    TMCUart { pull_up: bool, bit_time: u32 },
    /// A stepper: the queue producer lives in the driver task; the table
    /// keeps the cached direction bit.
    Stepper { dir: bool },
    /// A one-shot digital output.
    DigitalOut { value: bool, default_value: bool, max_duration: u32 },
    /// An endstop input pin, with or without pull-up.
    Endstop { pull_up: bool, homing: bool, clock: u64 },
    /// A trigger-synchronization object; `alert_wired` says whether its
    /// signal has been pointed at the stepper stop flag.
    TRSync { alert_wired: bool },
}

#[verifier::external_type_specification]
#[verifier::external_body]
#[verifier::reject_recursive_types(K)]
#[verifier::reject_recursive_types(V)]
#[verifier::reject_recursive_types(S)]
pub struct ExIndexMap<K, V, S, const N: usize>(heapless::IndexMap<K, V, S, N>);

#[verifier::external_type_specification]
#[verifier::external_body]
pub struct ExFnvHasher(hash32::FnvHasher);

#[verifier::external_type_specification]
#[verifier::external_body]
#[verifier::reject_recursive_types(H)]
pub struct ExBuildHasherDefault<H>(hash32::BuildHasherDefault<H>);

/// The table the command handlers work over.
pub type OidMap = heapless::index_map::FnvIndexMap<u8, OIDTypes, 128>;

/// The entries an object-id table holds.
pub uninterp spec fn oid_entries(m: OidMap) -> Map<u8, OIDTypes>;

/// An object-id table with nothing in it.
pub open spec fn no_oids(entries: Map<u8, OIDTypes>) -> bool {
    entries =~= Map::<u8, OIDTypes>::empty()
}

/// Relies on `heapless::IndexMap::new`: a map with no entries.
#[verifier::external_body]
pub(crate) fn oid_map_new() -> (m: OidMap)
    ensures
        no_oids(oid_entries(m)),
{
    heapless::index_map::FnvIndexMap::new()
}

/// Relies on `heapless::IndexMap::get`: the value stored under the key,
/// if the key has one.
#[verifier::external_body]
pub(crate) fn oid_map_get(m: &OidMap, key: u8) -> (r: Option<OIDTypes>)
    ensures
        (r is Some) <==> oid_entries(*m).contains_key(key),
        r matches Some(v) ==> v == oid_entries(*m)[key],
{
    m.get(&key).copied()
}

/// Relies on `heapless::IndexMap::insert`: replaces the value under an
/// existing key, appends a new entry while there is room, and refuses the
/// pair once the map is full.
#[verifier::external_body]
pub(crate) fn oid_map_insert(m: &mut OidMap, key: u8, value: OIDTypes) -> (r: bool)
    ensures
        r <==> (oid_entries(*old(m)).contains_key(key) || oid_entries(*old(m)).dom().len() < 128),
        r ==> oid_entries(*final(m)) == oid_entries(*old(m)).insert(key, value),
        !r ==> oid_entries(*final(m)) == oid_entries(*old(m)),
{
    m.insert(key, value).is_ok()
}

} // verus!
