use getlla::error::Error;
use getlla::windows::{opens_privacy_settings, ACCESS_ALLOWED, PRIVACY_SETTINGS_URI, SETTINGS_GRACE_SECS};
use getlla::{Getter, Lla, Platform, Windows};
use windows_result::HRESULT;

const E_FAIL: i32 = 0x8000_4005u32 as i32;
const E_ACCESSDENIED: i32 = 0x8007_0005u32 as i32;

fn win_error(code: i32) -> windows_result::Error {
    windows_result::Error::from_hresult(HRESULT(code))
}

fn sample_lla() -> Lla {
    Lla {
        latitude_degs_bits: 47.6062f64.to_bits(),
        longitude_degs_bits: (-122.3321f64).to_bits(),
        altitude_m_hae_bits: 56.5f64.to_bits(),
    }
}

fn windows_getter(locator: u32) -> Getter<u32> {
    Getter::system_default(Platform::Windows(Ok(locator))).unwrap()
}

#[test]
fn system_default_is_unsupported_elsewhere() {
    let r = Getter::<u32>::system_default(Platform::Other);
    assert!(matches!(r, Err(Error::Unsupported)));
}

#[test]
fn system_default_on_windows_holds_the_locator() {
    let getter = windows_getter(7);
    assert_eq!(*getter.windows().locator(), 7);
}

#[test]
fn system_default_reports_a_failed_locator() {
    let r = Getter::<u32>::system_default(Platform::Windows(Err(win_error(E_FAIL))));
    match r {
        Err(Error::Windows(e)) => assert_eq!(e.code(), HRESULT(E_FAIL)),
        other => panic!("unexpected {:?}", other),
    }
}

#[test]
fn windows_new_keeps_the_locator() {
    let w = Windows::new(Ok::<u32, windows_result::Error>(3)).unwrap();
    assert_eq!(*w.locator(), 3);
}

#[test]
fn windows_new_wraps_the_error() {
    let r = Windows::<u32>::new(Err(win_error(E_ACCESSDENIED)));
    match r {
        Err(Error::Windows(e)) => assert_eq!(e.code().0, E_ACCESSDENIED),
        other => panic!("unexpected {:?}", other),
    }
}

#[test]
fn getter_from_windows_backend() {
    let w = Windows::new(Ok::<u32, windows_result::Error>(11)).unwrap();
    let getter: Getter<u32> = Getter::from(w);
    assert_eq!(*getter.windows().locator(), 11);
}

#[test]
fn error_from_windows_error() {
    let e: Error = Error::from(win_error(E_FAIL));
    match e {
        Error::Windows(inner) => assert_eq!(inner.code(), HRESULT(E_FAIL)),
        other => panic!("unexpected {:?}", other),
    }
}

#[test]
fn get_permissions_when_allowed_is_a_nop() {
    let mut getter = windows_getter(1);
    assert!(getter.get_permissions(Ok(ACCESS_ALLOWED)).is_ok());
    assert!(getter.get_permissions(Ok(1)).is_ok());
    assert_eq!(*getter.windows().locator(), 1);
}

#[test]
fn get_permissions_denied() {
    let mut getter = windows_getter(1);
    assert!(matches!(getter.get_permissions(Ok(2)), Err(Error::PermissionsDenied)));
}

#[test]
fn get_permissions_unspecified_is_denied() {
    let mut getter = windows_getter(1);
    assert!(matches!(getter.get_permissions(Ok(0)), Err(Error::PermissionsDenied)));
}

#[test]
fn get_permissions_failed_request_is_denied() {
    let mut getter = windows_getter(1);
    let r = getter.get_permissions(Err(win_error(E_FAIL)));
    assert!(matches!(r, Err(Error::PermissionsDenied)));
}

#[test]
fn windows_get_permissions_direct() {
    let mut w = Windows::new(Ok::<u32, windows_result::Error>(5)).unwrap();
    assert!(w.get_permissions(Ok(1)).is_ok());
    assert!(matches!(w.get_permissions(Ok(2)), Err(Error::PermissionsDenied)));
}

#[test]
fn get_returns_the_position() {
    let mut getter = windows_getter(1);
    let lla = getter.get(Ok(sample_lla())).unwrap();
    assert_eq!(lla, sample_lla());
    assert_eq!(f64::from_bits(lla.latitude_degs_bits), 47.6062);
    assert_eq!(f64::from_bits(lla.longitude_degs_bits), -122.3321);
    assert_eq!(f64::from_bits(lla.altitude_m_hae_bits), 56.5);
}

#[test]
fn get_reports_the_windows_error() {
    let mut getter = windows_getter(1);
    match getter.get(Err(win_error(E_ACCESSDENIED))) {
        Err(Error::Windows(e)) => assert_eq!(e.code().0, E_ACCESSDENIED),
        other => panic!("unexpected {:?}", other),
    }
}

#[test]
fn windows_get_direct() {
    let mut w = Windows::new(Ok::<u32, windows_result::Error>(5)).unwrap();
    assert_eq!(w.get(Ok(sample_lla())).unwrap(), sample_lla());
    assert!(matches!(w.get(Err(win_error(E_FAIL))), Err(Error::Windows(_))));
}

#[test]
fn settings_constants() {
    assert_eq!(PRIVACY_SETTINGS_URI, "ms-settings:privacy-location");
    assert_eq!(SETTINGS_GRACE_SECS, 2);
    assert_eq!(ACCESS_ALLOWED, 1);
}

#[test]
fn system_default_on_android_and_macos_is_unsupported() {
    let r = Getter::<u32>::system_default(Platform::Android);
    assert!(matches!(r, Err(Error::Unsupported)));
    let r = Getter::<u32>::system_default(Platform::Macos);
    assert!(matches!(r, Err(Error::Unsupported)));
}

#[test]
fn error_messages() {
    assert_eq!(Error::Unsupported.message(), "Unsupported platform");
    assert_eq!(Error::PermissionsDenied.message(), "Permissions denied");
    let e = win_error(E_FAIL);
    assert_eq!(Error::Windows(e.clone()).message(), e.to_string());
}

#[test]
fn settings_open_only_on_denial() {
    assert!(opens_privacy_settings(&Err(Error::PermissionsDenied)));
    assert!(!opens_privacy_settings(&Ok(())));
    assert!(!opens_privacy_settings(&Err(Error::Unsupported)));
    assert!(!opens_privacy_settings(&Err(Error::Windows(win_error(E_FAIL)))));
    let mut getter = windows_getter(1);
    let denied = getter.get_permissions(Ok(2));
    assert!(opens_privacy_settings(&denied));
    let granted = getter.get_permissions(Ok(ACCESS_ALLOWED));
    assert!(!opens_privacy_settings(&granted));
}
