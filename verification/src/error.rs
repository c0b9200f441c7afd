use vstd::prelude::*;
use windows_result::Error as WinError;

verus! {

/// `windows_result::Error`, the error reported by the Windows runtime (an `HRESULT` with
/// optional detail). Declared opaque: nothing is claimed of its contents; the library only
/// carries it inside `Error::Windows`.
#[verifier::external_type_specification]
#[verifier::external_body]
pub struct ExWinError(WinError);

/// Errors reported while obtaining a position.
#[derive(Debug)]
pub enum Error {
    /// No location source exists for this platform.
    Unsupported,
    /// Permissions to access location / device are not allowed, and cannot be accessed until the
    /// user manually intervenes.
    PermissionsDenied,
    /// The Windows location service reported an error.
    Windows(WinError),
}

impl Error {
    /// The message describing the error: a fixed text, or for a Windows runtime error its
    /// own message (its `Display`).
    pub fn message(&self) -> (r: String)
        ensures
            self is Unsupported ==> r@ == "Unsupported platform"@,
            self is PermissionsDenied ==> r@ == "Permissions denied"@,
            self matches Error::Windows(e) ==> vstd::string::to_string_from_display_ensures::<
                WinError,
            >(&e, r),
    {
        match self {
            Error::Unsupported => "Unsupported platform".to_owned(),
            Error::PermissionsDenied => "Permissions denied".to_owned(),
            Error::Windows(e) => e.to_string(),
        }
    }
}

impl From<WinError> for Error {
    /// Wraps a Windows runtime error.
    fn from(err: WinError) -> (r: Self) {
        Error::Windows(err)
    }
}

impl vstd::std_specs::convert::FromSpecImpl<WinError> for Error {
    open spec fn obeys_from_spec() -> bool {
        true
    }

    open spec fn from_spec(v: WinError) -> Self {
        Error::Windows(v)
    }
}

} // verus!
