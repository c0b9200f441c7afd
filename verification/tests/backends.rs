use getlla::android::{
    check_permission, last_activity_index, still_waiting, ActivityCall, ActivityLookup,
    ActivityStep, JniReply, LlaCall, LlaLookup, LlaStep, Receiver, FINE_LOCATION_PERMISSION,
    PERMISSION_GRANTED, PERMISSION_REQUEST_CODE,
};
use getlla::error::Error;
use getlla::macos::{authorization_message, permission_outcome, LocationSlot, ReadStep};
use getlla::Lla;

fn lla(lat: f64, lon: f64, alt: f64) -> Lla {
    Lla {
        latitude_degs_bits: lat.to_bits(),
        longitude_degs_bits: lon.to_bits(),
        altitude_m_hae_bits: alt.to_bits(),
    }
}

#[test]
fn authorization_messages() {
    assert_eq!(
        authorization_message(0),
        Some("Undetermined authorization, requesting when in use")
    );
    assert_eq!(authorization_message(1), Some("Restricted"));
    assert_eq!(authorization_message(3), Some("Always"));
    assert_eq!(authorization_message(4), Some("When in use"));
}

#[test]
fn authorization_denied_and_unknown_have_no_line() {
    assert_eq!(authorization_message(2), None);
    assert_eq!(authorization_message(5), None);
    assert_eq!(authorization_message(-1), None);
}

#[test]
fn slot_gives_back_the_recorded_update() {
    let mut slot = LocationSlot::new();
    assert!(!slot.has_location());
    assert_eq!(slot.take(), None);
    slot.record_update(lla(1.0, 2.0, 3.0));
    slot.record_update(lla(4.0, 5.0, 6.0));
    assert!(slot.has_location());
    assert_eq!(slot.take(), Some(lla(4.0, 5.0, 6.0)));
    assert_eq!(slot.take(), None);
}

#[test]
fn finish_get_takes_the_location() {
    let mut slot = LocationSlot::new();
    slot.record_update(lla(52.52, 13.405, 34.0));
    assert_eq!(slot.finish_get(), ReadStep::Fix(lla(52.52, 13.405, 34.0)));
    assert_eq!(slot.take(), None);
}

#[test]
fn finish_get_on_an_empty_slot_runs_again() {
    let mut slot = LocationSlot::new();
    assert_eq!(slot.finish_get(), ReadStep::RunAgain);
    assert!(!slot.has_location());
}

#[test]
fn each_fix_is_read_once() {
    let mut slot = LocationSlot::new();
    slot.record_update(lla(10.0, 20.0, 30.0));
    assert_eq!(slot.finish_get(), ReadStep::Fix(lla(10.0, 20.0, 30.0)));
    assert_eq!(slot.finish_get(), ReadStep::RunAgain);
    slot.record_update(lla(11.0, 21.0, 31.0));
    assert_eq!(slot.finish_get(), ReadStep::Fix(lla(11.0, 21.0, 31.0)));
}

#[test]
fn macos_permission_outcome() {
    assert!(permission_outcome(Ok(lla(0.0, 0.0, 0.0))).is_ok());
    assert!(matches!(
        permission_outcome(Err(Error::PermissionsDenied)),
        Err(Error::PermissionsDenied)
    ));
    assert!(matches!(permission_outcome(Err(Error::Unsupported)), Err(Error::Unsupported)));
}

#[test]
fn android_constants() {
    assert_eq!(PERMISSION_GRANTED, 0);
    assert_eq!(PERMISSION_REQUEST_CODE, 420);
    assert_eq!(FINE_LOCATION_PERMISSION, "android.permission.ACCESS_FINE_LOCATION");
}

#[test]
fn activity_lookup_finds_the_last_activity() {
    let (mut lookup, first) = ActivityLookup::start();
    assert_eq!(first, ActivityCall::CurrentActivityThread);
    assert_eq!(lookup.advance(JniReply::Object), ActivityStep::Call(ActivityCall::ActivitiesField));
    assert_eq!(lookup.advance(JniReply::Object), ActivityStep::Call(ActivityCall::Size));
    assert_eq!(lookup.advance(JniReply::Int(3)), ActivityStep::Call(ActivityCall::ValueAt(2)));
    assert_eq!(lookup.advance(JniReply::Object), ActivityStep::Call(ActivityCall::ActivityField));
    assert_eq!(lookup.advance(JniReply::Object), ActivityStep::Found);
    assert_eq!(lookup, ActivityLookup::Finished);
}

#[test]
fn activity_lookup_without_activities() {
    let (mut lookup, _) = ActivityLookup::start();
    lookup.advance(JniReply::Object);
    lookup.advance(JniReply::Object);
    assert_eq!(lookup.advance(JniReply::Int(0)), ActivityStep::NotFound);
    assert_eq!(lookup.advance(JniReply::Object), ActivityStep::NotFound);
}

#[test]
fn activity_lookup_stops_at_a_wrong_reply() {
    let (mut lookup, _) = ActivityLookup::start();
    assert_eq!(lookup.advance(JniReply::Object), ActivityStep::Call(ActivityCall::ActivitiesField));
    assert_eq!(lookup.advance(JniReply::Int(4)), ActivityStep::NotFound);
    assert_eq!(lookup, ActivityLookup::Finished);

    let (mut lookup, _) = ActivityLookup::start();
    assert_eq!(lookup.advance(JniReply::Other), ActivityStep::NotFound);
}

#[test]
fn last_activity_index_values() {
    assert_eq!(last_activity_index(0), None);
    assert_eq!(last_activity_index(1), Some(0));
    assert_eq!(last_activity_index(5), Some(4));
    assert_eq!(last_activity_index(i32::MAX), Some(i32::MAX - 1));
}

#[test]
fn lla_lookup_reads_the_coordinates_in_order() {
    let (mut lookup, first) = LlaLookup::start();
    assert_eq!(first, LlaCall::LocationService);
    assert_eq!(lookup.advance(JniReply::Object), LlaStep::Call(LlaCall::Providers));
    assert_eq!(lookup.advance(JniReply::Object), LlaStep::Call(LlaCall::FirstProvider));
    assert_eq!(lookup.advance(JniReply::Object), LlaStep::Call(LlaCall::LastKnownLocation));
    assert_eq!(lookup.advance(JniReply::Object), LlaStep::Call(LlaCall::Latitude));
    assert_eq!(
        lookup.advance(JniReply::Double(48.8566f64.to_bits())),
        LlaStep::Call(LlaCall::Longitude)
    );
    assert_eq!(
        lookup.advance(JniReply::Double(2.3522f64.to_bits())),
        LlaStep::Call(LlaCall::Altitude)
    );
    assert_eq!(
        lookup.advance(JniReply::Double(35.0f64.to_bits())),
        LlaStep::Done(Ok(lla(48.8566, 2.3522, 35.0)))
    );
}

#[test]
fn lla_lookup_fails_on_a_missing_location() {
    let (mut lookup, _) = LlaLookup::start();
    lookup.advance(JniReply::Object);
    lookup.advance(JniReply::Object);
    lookup.advance(JniReply::Object);
    assert_eq!(lookup.advance(JniReply::Other), LlaStep::Done(Err(())));
    assert_eq!(lookup, LlaLookup::Finished);
}

#[test]
fn lla_lookup_fails_on_a_non_double() {
    let (mut lookup, _) = LlaLookup::start();
    for _ in 0..4 {
        lookup.advance(JniReply::Object);
    }
    lookup.advance(JniReply::Double(1.0f64.to_bits()));
    assert_eq!(lookup.advance(JniReply::Int(1)), LlaStep::Done(Err(())));
}

#[test]
fn permission_check_and_wait() {
    assert_eq!(check_permission(JniReply::Int(0)), Ok(true));
    assert_eq!(check_permission(JniReply::Int(-1)), Ok(false));
    assert_eq!(check_permission(JniReply::Object), Err(()));
    assert_eq!(check_permission(JniReply::Other), Err(()));
    assert!(still_waiting(Ok(false)));
    assert!(!still_waiting(Ok(true)));
    assert!(!still_waiting(Err(())));
    assert!(still_waiting(check_permission(JniReply::Int(-1))));
    assert!(!still_waiting(check_permission(JniReply::Int(0))));
}

#[test]
fn activity_calls_receivers() {
    assert_eq!(ActivityCall::CurrentActivityThread.receiver(), Receiver::Class);
    assert_eq!(ActivityCall::ActivitiesField.receiver(), Receiver::Object(0));
    assert_eq!(ActivityCall::Size.receiver(), Receiver::Object(1));
    assert_eq!(ActivityCall::ValueAt(4).receiver(), Receiver::Object(1));
    assert_eq!(ActivityCall::ActivityField.receiver(), Receiver::Object(2));
}

#[test]
fn lla_calls_receivers_and_arguments() {
    assert_eq!(LlaCall::LocationService.receiver(), Receiver::Activity);
    assert_eq!(LlaCall::Providers.receiver(), Receiver::Object(0));
    assert_eq!(LlaCall::FirstProvider.receiver(), Receiver::Object(1));
    assert_eq!(LlaCall::LastKnownLocation.receiver(), Receiver::Object(0));
    assert_eq!(LlaCall::LastKnownLocation.argument(), Some(2));
    assert_eq!(LlaCall::Latitude.receiver(), Receiver::Object(3));
    assert_eq!(LlaCall::Longitude.receiver(), Receiver::Object(3));
    assert_eq!(LlaCall::Altitude.receiver(), Receiver::Object(3));
    assert_eq!(LlaCall::Providers.argument(), None);
    assert_eq!(LlaCall::Latitude.argument(), None);
}

#[test]
fn lookups_end_within_their_replies() {
    let (mut lookup, _) = ActivityLookup::start();
    let replies = [JniReply::Object, JniReply::Object, JniReply::Int(2), JniReply::Int(7), JniReply::Object];
    let mut ended = false;
    for reply in replies {
        if !matches!(lookup.advance(reply), ActivityStep::Call(_)) {
            ended = true;
            break;
        }
    }
    assert!(ended);

    let (mut lookup, _) = LlaLookup::start();
    let mut ended = false;
    for _ in 0..7 {
        if !matches!(lookup.advance(JniReply::Object), LlaStep::Call(_)) {
            ended = true;
            break;
        }
    }
    assert!(ended);
}
