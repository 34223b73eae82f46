//! Access policy for a freshly created endpoint artifact.

use vstd::prelude::*;

verus! {

/// `std::io::Error`, carried opaquely: the builder methods keep a fallible
/// signature for symmetry with platforms where building a policy needs
/// operating-system calls, although on this platform they never fail.
#[verifier::external_type_specification]
#[verifier::external_body]
pub struct ExIoError(std::io::Error);

/// The permission bits that apply to an artifact created with the given
/// policy on a filesystem whose default bits are `os_default`: an explicit
/// mode replaces the default outright, an absent mode leaves it untouched.
pub open spec fn implied_mode(mode: Option<u16>, os_default: u16) -> u16 {
    match mode {
        Option::Some(m) => m,
        Option::None => os_default,
    }
}

/// Socket permissions to apply to a newly created endpoint.
///
/// The policy is a single optional permission bitmask in the conventional
/// owner/group/other octal encoding; an absent mask means "keep whatever
/// the operating system assigned at creation".
pub struct SecurityAttributes {
    mode: Option<u16>,
}

impl SecurityAttributes {
    /// The permission bitmask this policy applies, if any.
    pub closed spec fn mode_spec(&self) -> Option<u16> {
        self.mode
    }

    /// New default security attributes: no mask is set, so the artifact
    /// keeps the operating system's default permission bits.
    pub fn empty() -> (r: Self)
        ensures
            r.mode_spec() is None,
    {
        SecurityAttributes { mode: None }
    }

    /// New security attributes that allow everyone to connect: read, write
    /// and connect for owner, group and others.
    pub fn allow_everyone_connect(self) -> (r: Result<Self, std::io::Error>)
        ensures
            r matches Ok(a) && a.mode_spec() == Some(0o777u16),
    {
        Ok(SecurityAttributes { mode: Some(0o777) })
    }

    /// Set a custom permission mask on the socket, taken verbatim; the
    /// caller is responsible for the owner/group/other triple semantics.
    pub fn set_mode(self, mode: u16) -> (r: Result<Self, std::io::Error>)
        ensures
            r matches Ok(a) && a.mode_spec() == Some(mode),
    {
        Ok(SecurityAttributes { mode: Some(mode) })
    }

    /// New security attributes for when the containing directory, not the
    /// socket, must be creatable by everyone.  On this platform the relevant
    /// permission lives on the socket file itself once created, so no mask
    /// is set.
    pub fn allow_everyone_create() -> (r: Result<Self, std::io::Error>)
        ensures
            r matches Ok(a) && a.mode_spec() is None,
    {
        Ok(SecurityAttributes { mode: None })
    }

    /// The permission bitmask this policy applies, if any.
    pub fn mode(&self) -> (r: Option<u16>)
        ensures
            r == self.mode_spec(),
    {
        self.mode
    }
}

} // verus!
