use vstd::prelude::*;

verus! {

/// The native status reported when no item exists under the given key
/// (errSecItemNotFound).
pub const ITEM_NOT_FOUND: i32 = -25300;

/// The native status reported when a write finds an item already present
/// (errSecDuplicateItem).
pub const DUPLICATE_ITEM: i32 = -25299;

/// A native status code, with the one condition the gateway treats
/// specially given a name of its own.
#[derive(Clone, Copy, Debug, PartialEq, Eq, Structural)]
pub enum KeychainStatus {
    ItemNotFound,
    Other(i32),
}

/// The named condition that a raw native status code stands for.
pub open spec fn status_of(code: i32) -> KeychainStatus {
    if code == ITEM_NOT_FOUND {
        KeychainStatus::ItemNotFound
    } else {
        KeychainStatus::Other(code)
    }
}

impl KeychainStatus {
    /// Classifies a raw native status code.
    pub fn from_code(code: i32) -> (r: KeychainStatus)
        ensures
            r == status_of(code),
    {
        if code == ITEM_NOT_FOUND {
            KeychainStatus::ItemNotFound
        } else {
            KeychainStatus::Other(code)
        }
    }

    /// The raw native status code that this condition stands for.
    pub fn code(&self) -> (r: i32)
        ensures
            *self is ItemNotFound ==> r == ITEM_NOT_FOUND,
            *self matches KeychainStatus::Other(c) ==> r == c,
    {
        match self {
            KeychainStatus::ItemNotFound => ITEM_NOT_FOUND,
            KeychainStatus::Other(c) => *c,
        }
    }
}

/// A failure reported by a native credential-store call, as plain values:
/// its status code and the platform's description of it.
pub struct NativeFailure {
    pub code: i32,
    pub description: String,
}

impl NativeFailure {
    /// The named condition of this failure's status code.
    pub fn status(&self) -> (r: KeychainStatus)
        ensures
            r == status_of(self.code),
    {
        KeychainStatus::from_code(self.code)
    }
}

} // verus!
