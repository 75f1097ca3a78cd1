//! The context fallback chain.
//!
//! Heterogeneous and older hardware often rejects a modern core context, so
//! context creation tries a descending chain of capability profiles against
//! the one chosen configuration: the platform's native API with its default
//! (core) profile, then the embedded-API variant, then a fixed legacy version
//! of the native API. The first profile the platform accepts wins; only when
//! all three are rejected does creation fail.
//!
//! [`ContextFactory`] is the decision half of that loop: it says which
//! profile the next attempt should use and records rejections, while the
//! host performs the platform calls.

use vstd::prelude::*;

verus! {

/// Number of profiles in the fallback chain.
pub const PROFILE_COUNT: usize = 3;

/// A capability profile a context-creation attempt can request.
#[derive(Clone, Copy, Debug, PartialEq, Eq, Structural)]
pub enum ContextProfile {
    /// The platform's native API with its default (modern core) profile.
    NativeDefault,
    /// The embedded variant of the API, for drivers without a modern native
    /// profile.
    EmbeddedDefault,
    /// A fixed legacy version of the native API, for devices that support
    /// neither of the above.
    NativeLegacy,
}

impl ContextProfile {
    /// The API version a profile pins, if any: the legacy profile requests
    /// version 2.1 of the native API, the other two leave the version to the
    /// platform.
    pub open spec fn spec_requested_version(self) -> Option<(u8, u8)> {
        match self {
            ContextProfile::NativeLegacy => Some((2u8, 1u8)),
            _ => None,
        }
    }

    /// Executable twin of [`Self::spec_requested_version`].
    pub fn requested_version(&self) -> (r: Option<(u8, u8)>)
        ensures
            r == self.spec_requested_version(),
    {
        match self {
            ContextProfile::NativeLegacy => Some((2u8, 1u8)),
            _ => None,
        }
    }
}

/// The fallback chain in the order attempts are made.
pub open spec fn profile_order() -> Seq<ContextProfile> {
    seq![
        ContextProfile::NativeDefault,
        ContextProfile::EmbeddedDefault,
        ContextProfile::NativeLegacy,
    ]
}

/// The fallback chain as a vector, first profile to try first.
pub fn fallback_profiles() -> (r: Vec<ContextProfile>)
    ensures
        r@ == profile_order(),
{
    let mut v: Vec<ContextProfile> = Vec::new();
    v.push(ContextProfile::NativeDefault);
    v.push(ContextProfile::EmbeddedDefault);
    v.push(ContextProfile::NativeLegacy);
    proof {
        assert(v@ =~= profile_order());
    }
    v
}

/// Tracks how far the fallback chain has advanced: `failures` profiles have
/// been attempted and rejected so far.
pub struct ContextFactory {
    /// Number of attempts the platform has rejected.
    pub failures: usize,
}

impl ContextFactory {
    /// At most every profile of the chain can have failed.
    pub open spec fn inv(self) -> bool {
        self.failures <= PROFILE_COUNT
    }

    /// A fresh chain: nothing attempted yet.
    pub fn new() -> (r: Self)
        ensures
            r.failures == 0,
            r.inv(),
    {
        ContextFactory { failures: 0 }
    }

    /// The profile the next creation attempt must use, in strict chain
    /// order, or `None` once every profile has been rejected (the caller
    /// then fails with `ContextCreationExhausted`).
    pub fn next_profile(&self) -> (r: Option<ContextProfile>)
        requires
            self.inv(),
        ensures
            r is Some <==> self.failures < PROFILE_COUNT,
            self.failures < PROFILE_COUNT ==> r == Some(profile_order()[self.failures as int]),
    {
        if self.failures == 0 {
            Some(ContextProfile::NativeDefault)
        } else if self.failures == 1 {
            Some(ContextProfile::EmbeddedDefault)
        } else if self.failures == 2 {
            Some(ContextProfile::NativeLegacy)
        } else {
            None
        }
    }

    /// Records that the platform rejected the profile handed out by
    /// [`Self::next_profile`], advancing the chain by one.
    pub fn record_failure(&mut self)
        requires
            old(self).inv(),
            old(self).failures < PROFILE_COUNT,
        ensures
            final(self).failures == old(self).failures + 1,
            final(self).inv(),
    {
        self.failures = self.failures + 1;
    }
}

} // verus!
