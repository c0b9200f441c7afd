//! The platform-independent location getter.
use std::marker::PhantomData;
use std::rc::Rc;

use vstd::prelude::*;
use windows_result::Error as WinError;

use crate::error::Error;
use crate::lla::Lla;
use crate::windows::{windows_outcome, Windows};

verus! {

/// The host platform, as far as picking a location source goes. On Windows it carries the
/// outcome of creating the runtime's geolocator `L`.
#[derive(Debug)]
pub enum Platform<L> {
    Android,
    Macos,
    Windows(Result<L, WinError>),
    /// Any platform without a location source.
    Other,
}

#[derive(Debug)]
enum Inner<L> {
    Windows(Windows<L>),
}

/// Obtains positions from the location source of the host platform.
///
/// A getter is tied to the thread that made it (it is neither `Send` nor `Sync`), as the
/// platform location services are.
#[derive(Debug)]
pub struct Getter<L> {
    inner: Inner<L>,
    _phantom: PhantomData<Rc<()>>,
}

impl<L> Getter<L> {
    /// The Windows backend this getter drives.
    pub closed spec fn backend(&self) -> Windows<L> {
        match self.inner {
            Inner::Windows(w) => w,
        }
    }

    /// Attempts to return the default getter which can be used to obtain GPS location.
    ///
    /// On Windows this is a getter over the geolocator that was created, or the error of its
    /// creation. Every other platform is answered with `Error::Unsupported`: there is no
    /// location source elsewhere, and the Android and macOS sources cannot be made a default
    /// getter yet.
    pub fn system_default(platform: Platform<L>) -> (r: Result<Self, Error>)
        ensures
            !(platform is Windows) ==> r == Err::<Self, Error>(Error::Unsupported),
            platform matches Platform::Windows(Ok(l)) ==> (r matches Ok(g)
                && g.backend().locator_spec() == l),
            platform matches Platform::Windows(Err(e)) ==> r == Err::<Self, Error>(
                Error::Windows(e),
            ),
    {
        match platform {
            Platform::Windows(locator) => {
                let w = Windows::new(locator)?;
                Ok(Getter::from(w))
            },
            _ => Err(Error::Unsupported),
        }
    }

    /// The Windows backend, for the calls into the Windows runtime.
    pub fn windows(&self) -> (r: &Windows<L>)
        ensures
            *r == self.backend(),
    {
        match &self.inner {
            Inner::Windows(w) => w,
        }
    }

    /// Ensures this application has permissions to access GPS location, given the access
    /// status the platform answered to the access request.
    /// If permissions are already granted, this is a nop.
    pub fn get_permissions(&mut self, access: Result<i32, WinError>) -> (r: Result<(), Error>)
        ensures
            *final(self) == *old(self),
            crate::windows::access_allowed(access) ==> r == Ok::<(), Error>(()),
            !crate::windows::access_allowed(access) ==> r == Err::<(), Error>(
                Error::PermissionsDenied,
            ),
    {
        match &mut self.inner {
            Inner::Windows(windows) => windows.get_permissions(access),
        }
    }

    /// Gets the current GPS position, given the outcome of reading it from the platform
    /// (which blocks until it becomes available).
    pub fn get(&mut self, position: Result<Lla, WinError>) -> (r: Result<Lla, Error>)
        ensures
            *final(self) == *old(self),
            r == windows_outcome(position),
    {
        match &mut self.inner {
            Inner::Windows(windows) => windows.get(position),
        }
    }
}

impl<L> From<Windows<L>> for Getter<L> {
    /// A getter driving the given Windows backend.
    fn from(inner: Windows<L>) -> (r: Self)
        ensures
            r.backend() == inner,
    {
        Getter { inner: Inner::Windows(inner), _phantom: PhantomData }
    }
}

impl<L> vstd::std_specs::convert::FromSpecImpl<Windows<L>> for Getter<L> {
    open spec fn obeys_from_spec() -> bool {
        true
    }

    closed spec fn from_spec(v: Windows<L>) -> Self {
        Getter { inner: Inner::Windows(v), _phantom: PhantomData }
    }
}

} // verus!
