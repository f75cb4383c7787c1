//! A receipt names a registration with a core: the core, and the count that
//! the core gave the registration. The empty receipt names none.

use vstd::prelude::*;

verus! {

pub struct Receipt<C> {
    core: Option<C>,
    count: u64,
}

impl<C> Receipt<C> {
    /// The core of the registration, if the receipt names one.
    pub closed spec fn named_core(self) -> Option<C> {
        self.core
    }

    /// The count of the registration, 0 for the empty receipt.
    pub closed spec fn named_count(self) -> u64 {
        self.count
    }
}

/// The receipt of the registration that `core` counted as `count`.
pub fn new<C>(core: C, count: u64) -> (receipt: Receipt<C>)
    ensures
        receipt.named_core() == Some(core),
        receipt.named_count() == count,
{
    Receipt { core: Some(core), count }
}

/// The receipt that names no registration.
pub fn none<C>() -> (receipt: Receipt<C>)
    ensures
        receipt.named_core() == None::<C>,
        receipt.named_count() == 0,
{
    Receipt { core: None, count: 0 }
}

/// The core and the count that the receipt names.
pub fn parts<C>(receipt: Receipt<C>) -> (parts: (Option<C>, u64))
    ensures
        parts == (receipt.named_core(), receipt.named_count()),
{
    (receipt.core, receipt.count)
}

} // verus!
