//! The Windows backend: a geolocator of the Windows runtime.
use vstd::prelude::*;
use windows_result::Error as WinError;

use crate::error::Error;
use crate::lla::Lla;

verus! {

/// The raw value of `GeolocationAccessStatus::Allowed`.
pub const ACCESS_ALLOWED: i32 = 1;

/// The settings page that is opened when location access is not allowed.
pub const PRIVACY_SETTINGS_URI: &'static str = "ms-settings:privacy-location";

/// How long (in seconds) to wait after opening the settings page before reporting the
/// denial, since nothing tells when (or even if) the user re-enables location.
pub const SETTINGS_GRACE_SECS: u64 = 2;

/// The location access status reported by the Windows runtime allows access.
pub open spec fn access_allowed(access: Result<i32, WinError>) -> bool {
    access matches Ok(status) && status == ACCESS_ALLOWED
}

/// What a fallible call of the Windows runtime gives the library: the value, or the error
/// wrapped as the library's own.
pub open spec fn windows_outcome<T>(reply: Result<T, WinError>) -> Result<T, Error> {
    match reply {
        Ok(v) => Ok(v),
        Err(e) => Err(Error::Windows(e)),
    }
}

/// Whether a permission request that ended with `outcome` opens the privacy settings page
/// (and then waits `SETTINGS_GRACE_SECS` seconds): exactly when access was denied.
pub fn opens_privacy_settings(outcome: &Result<(), Error>) -> (r: bool)
    ensures
        r == (outcome matches Err(Error::PermissionsDenied)),
{
    match outcome {
        Err(Error::PermissionsDenied) => true,
        _ => false,
    }
}

/// Access is allowed exactly on the status 1 (`Allowed`), and never when the request
/// failed; a runtime error comes through unchanged as `Error::Windows`, a value as itself.
pub proof fn lemma_access_and_outcome(status: i32, e: WinError, v: Lla)
    ensures
        access_allowed(Ok(status)) <==> status == 1,
        !access_allowed(Err(e)),
        windows_outcome(Ok::<Lla, WinError>(v)) == Ok::<Lla, Error>(v),
        windows_outcome(Err::<Lla, WinError>(e)) == Err::<Lla, Error>(Error::Windows(e)),
{
}

/// A Windows location backend, holding the geolocator `L` through which positions are read.
#[derive(Debug)]
pub struct Windows<L> {
    locator: L,
}

impl<L> Windows<L> {
    /// The geolocator held by this backend.
    pub closed spec fn locator_spec(&self) -> L {
        self.locator
    }

    /// Builds the backend from the outcome of creating a geolocator; a failure to create one
    /// is reported as `Error::Windows`.
    pub fn new(locator: Result<L, WinError>) -> (r: Result<Self, Error>)
        ensures
            match locator {
                Ok(l) => r matches Ok(w) && w.locator_spec() == l,
                Err(e) => r == Err::<Self, Error>(Error::Windows(e)),
            },
    {
        match locator {
            Ok(l) => Ok(Windows { locator: l }),
            Err(e) => Err(Error::from(e)),
        }
    }

    /// The geolocator, for the calls into the Windows runtime.
    pub fn locator(&self) -> (r: &L)
        ensures
            *r == self.locator_spec(),
    {
        &self.locator
    }

    /// Ensures this application has permissions to access GPS location, given the access
    /// status that the Windows runtime answered to the access request. If access is already
    /// allowed, this is a nop. Otherwise access is denied (`Error::PermissionsDenied`); the
    /// caller then opens `PRIVACY_SETTINGS_URI` and waits `SETTINGS_GRACE_SECS` seconds, since
    /// it cannot know when the user will re-enable location.
    pub fn get_permissions(&mut self, access: Result<i32, WinError>) -> (r: Result<(), Error>)
        ensures
            *final(self) == *old(self),
            access_allowed(access) ==> r == Ok::<(), Error>(()),
            !access_allowed(access) ==> r == Err::<(), Error>(Error::PermissionsDenied),
    {
        let allowed = match &access {
            Ok(status) => *status == ACCESS_ALLOWED,
            Err(_) => false,
        };
        if !allowed {
            return Err(Error::PermissionsDenied);
        }
        Ok(())
    }

    /// Gets the current position, given the outcome of reading the geoposition from the
    /// geolocator (the first error of that chain of calls, or the position it gave).
    pub fn get(&mut self, position: Result<Lla, WinError>) -> (r: Result<Lla, Error>)
        ensures
            *final(self) == *old(self),
            r == windows_outcome(position),
    {
        match position {
            Ok(pos) => Ok(pos),
            Err(e) => Err(Error::from(e)),
        }
    }
}

} // verus!
