//! Futex keys: what identifies the synchronization object behind a user
//! address.

use vstd::prelude::*;

verus! {

/// The identity of a futex.
///
/// A futex in private memory is known by the process and the address. A
/// futex in memory that several processes share is known by the backing
/// region and the offset in it, so that every process that maps the region,
/// at whatever address, arrives at the same key.
#[derive(Clone, Copy, Debug, PartialEq, Eq, Structural)]
pub enum FutexKey {
    Private { process: u64, address: usize },
    Shared { region: u64, offset: usize },
}

/// The shared mapping that holds an address: the identity of the region
/// behind it and the address at which the process has mapped the region's
/// start.
#[derive(Clone, Copy, Debug, PartialEq, Eq, Structural)]
pub struct SharedBacking {
    pub region: u64,
    pub start: usize,
}

impl FutexKey {
    /// The key of the futex at `address` in `process`, where `backing`
    /// tells the shared mapping that holds the address, if one does.
    pub open spec fn spec_new(process: u64, address: usize, backing: Option<SharedBacking>) -> FutexKey {
        match backing {
            Some(shared) if shared.start <= address => FutexKey::Shared {
                region: shared.region,
                offset: (address - shared.start) as usize,
            },
            _ => FutexKey::Private { process, address },
        }
    }

    /// Resolves the key of the futex at `address` in `process`. A backing
    /// that starts above the address does not hold it and is left aside.
    pub fn new(process: u64, address: usize, backing: Option<SharedBacking>) -> (key: FutexKey)
        ensures
            key == Self::spec_new(process, address, backing),
    {
        match backing {
            Some(shared) => {
                if shared.start <= address {
                    FutexKey::Shared { region: shared.region, offset: address - shared.start }
                } else {
                    FutexKey::Private { process, address }
                }
            },
            None => FutexKey::Private { process, address },
        }
    }

    /// The key of the futex at `address` in the private memory of `process`.
    pub fn new_current(process: u64, address: usize) -> (key: FutexKey)
        ensures
            key == Self::spec_new(process, address, None),
            key == (FutexKey::Private { process, address }),
    {
        FutexKey::Private { process, address }
    }

    /// Whether the key names a futex in shared memory.
    pub fn is_shared(&self) -> (shared: bool)
        ensures
            shared == (*self is Shared),
    {
        match self {
            FutexKey::Shared { .. } => true,
            FutexKey::Private { .. } => false,
        }
    }
}

/// Private keys tell processes and addresses apart: two of them are equal
/// only for the same process and the same address.
pub proof fn lemma_private_keys_distinct(
    process: u64,
    address: usize,
    other_process: u64,
    other_address: usize,
)
    ensures
        FutexKey::spec_new(process, address, None) == FutexKey::spec_new(
            other_process,
            other_address,
            None,
        ) <==> process == other_process && address == other_address,
{
}

/// Two processes that map the same region, each at an address of its own,
/// resolve the same offset in it to the same key.
pub proof fn lemma_shared_keys_collapse(
    process: u64,
    address: usize,
    start: usize,
    other_process: u64,
    other_address: usize,
    other_start: usize,
    region: u64,
)
    requires
        start <= address,
        other_start <= other_address,
        address - start == other_address - other_start,
    ensures
        FutexKey::spec_new(process, address, Some(SharedBacking { region, start }))
            == FutexKey::spec_new(
            other_process,
            other_address,
            Some(SharedBacking { region, start: other_start }),
        ),
{
}

/// A shared key never equals a private one.
pub proof fn lemma_shared_differs_from_private(
    process: u64,
    address: usize,
    backing: SharedBacking,
    other_process: u64,
    other_address: usize,
)
    requires
        backing.start <= address,
    ensures
        FutexKey::spec_new(process, address, Some(backing)) != FutexKey::spec_new(
            other_process,
            other_address,
            None,
        ),
{
}

} // verus!
