//! The decisions of the Android backend, made on what the Java runtime answered.
//!
//! Each lookup is a step machine: the caller makes the call that a step asks for through
//! JNI, keeps the objects that come back (numbered in the order they arrive), and hands
//! the kind of the answer back to the machine, which says what to call next or how the
//! lookup ended.
use vstd::prelude::*;

use crate::lla::Lla;

verus! {

/// `PackageManager.PERMISSION_GRANTED`.
pub const PERMISSION_GRANTED: i32 = 0;

/// The request code of the location permission request.
pub const PERMISSION_REQUEST_CODE: i32 = 420;

/// The permission that is checked and requested.
pub const FINE_LOCATION_PERMISSION: &'static str = "android.permission.ACCESS_FINE_LOCATION";

/// What a call into the Java runtime answered, as far as the lookups read it.
#[derive(Clone, Copy, Debug, PartialEq, Eq)]
pub enum JniReply {
    /// An object reference (kept by the caller).
    Object,
    /// An `int`.
    Int(i32),
    /// A `double`, as the bit pattern of its value.
    Double(u64),
    /// The call failed, or answered a value of another kind.
    Other,
}

// ---------------------------------------------------------------------------------------
// The current activity
// ---------------------------------------------------------------------------------------

/// The calls of the lookup of the current activity. Objects are named by the order in
/// which they arrived during the lookup (the activity thread is object 0).
#[derive(Clone, Copy, Debug, PartialEq, Eq)]
pub enum ActivityCall {
    /// `ActivityThread.currentActivityThread()`.
    CurrentActivityThread,
    /// The field `mActivities` of object 0 (the activity thread).
    ActivitiesField,
    /// `size()` of object 1 (the map of activity records).
    Size,
    /// `valueAt(index)` of object 1.
    ValueAt(i32),
    /// The field `activity` of object 2 (the activity record).
    ActivityField,
}

/// The object a call is made on.
#[derive(Clone, Copy, Debug, PartialEq, Eq)]
pub enum Receiver {
    /// A static method of a class.
    Class,
    /// The current activity, found before the lookup started.
    Activity,
    /// The object that arrived in this position during the lookup.
    Object(usize),
}

/// The object each call of the lookup of the current activity is made on.
pub open spec fn activity_receiver(call: ActivityCall) -> Receiver {
    match call {
        ActivityCall::CurrentActivityThread => Receiver::Class,
        ActivityCall::ActivitiesField => Receiver::Object(0),
        ActivityCall::Size => Receiver::Object(1),
        ActivityCall::ValueAt(_) => Receiver::Object(1),
        ActivityCall::ActivityField => Receiver::Object(2),
    }
}

impl ActivityCall {
    /// The object this call is made on.
    pub fn receiver(&self) -> (r: Receiver)
        ensures
            r == activity_receiver(*self),
    {
        match self {
            ActivityCall::CurrentActivityThread => Receiver::Class,
            ActivityCall::ActivitiesField => Receiver::Object(0),
            ActivityCall::Size => Receiver::Object(1),
            ActivityCall::ValueAt(_) => Receiver::Object(1),
            ActivityCall::ActivityField => Receiver::Object(2),
        }
    }
}

/// Where the lookup of the current activity stands.
#[derive(Clone, Copy, Debug, PartialEq, Eq)]
pub enum ActivityLookup {
    AwaitThread,
    AwaitActivities,
    AwaitSize,
    AwaitRecord,
    AwaitActivity,
    Finished,
}

/// What the lookup asks for after a reply.
#[derive(Debug, PartialEq, Eq)]
pub enum ActivityStep {
    /// Make this call and hand its reply back.
    Call(ActivityCall),
    /// The current activity is object 3, the last one that arrived.
    Found,
    /// There is no current activity to be had.
    NotFound,
}

/// One step of the lookup of the current activity.
pub open spec fn activity_transition(stage: ActivityLookup, reply: JniReply) -> (
    ActivityLookup,
    ActivityStep,
) {
    match (stage, reply) {
        (ActivityLookup::AwaitThread, JniReply::Object) => (
            ActivityLookup::AwaitActivities,
            ActivityStep::Call(ActivityCall::ActivitiesField),
        ),
        (ActivityLookup::AwaitActivities, JniReply::Object) => (
            ActivityLookup::AwaitSize,
            ActivityStep::Call(ActivityCall::Size),
        ),
        (ActivityLookup::AwaitSize, JniReply::Int(size)) => if size == 0 {
            (ActivityLookup::Finished, ActivityStep::NotFound)
        } else {
            (
                ActivityLookup::AwaitRecord,
                ActivityStep::Call(ActivityCall::ValueAt((size - 1) as i32)),
            )
        },
        (ActivityLookup::AwaitRecord, JniReply::Object) => (
            ActivityLookup::AwaitActivity,
            ActivityStep::Call(ActivityCall::ActivityField),
        ),
        (ActivityLookup::AwaitActivity, JniReply::Object) => (
            ActivityLookup::Finished,
            ActivityStep::Found,
        ),
        _ => (ActivityLookup::Finished, ActivityStep::NotFound),
    }
}

/// A reply that the transition can take: a size of `i32::MIN` has no last index.
pub open spec fn activity_reply_ok(stage: ActivityLookup, reply: JniReply) -> bool {
    !(stage is AwaitSize && (reply matches JniReply::Int(size) && size == i32::MIN))
}

impl ActivityLookup {
    /// Starts a lookup of the current activity: the first call is for the activity thread.
    pub fn start() -> (r: (Self, ActivityCall))
        ensures
            r == (ActivityLookup::AwaitThread, ActivityCall::CurrentActivityThread),
    {
        (ActivityLookup::AwaitThread, ActivityCall::CurrentActivityThread)
    }

    /// Takes the reply to the last call asked for.
    pub fn advance(&mut self, reply: JniReply) -> (r: ActivityStep)
        requires
            activity_reply_ok(*old(self), reply),
        ensures
            (*final(self), r) == activity_transition(*old(self), reply),
    {
        let (next, step) = match (&*self, reply) {
            (ActivityLookup::AwaitThread, JniReply::Object) => (
                ActivityLookup::AwaitActivities,
                ActivityStep::Call(ActivityCall::ActivitiesField),
            ),
            (ActivityLookup::AwaitActivities, JniReply::Object) => (
                ActivityLookup::AwaitSize,
                ActivityStep::Call(ActivityCall::Size),
            ),
            (ActivityLookup::AwaitSize, JniReply::Int(size)) => match last_activity_index(size) {
                Some(index) => (
                    ActivityLookup::AwaitRecord,
                    ActivityStep::Call(ActivityCall::ValueAt(index)),
                ),
                None => (ActivityLookup::Finished, ActivityStep::NotFound),
            },
            (ActivityLookup::AwaitRecord, JniReply::Object) => (
                ActivityLookup::AwaitActivity,
                ActivityStep::Call(ActivityCall::ActivityField),
            ),
            (ActivityLookup::AwaitActivity, JniReply::Object) => (
                ActivityLookup::Finished,
                ActivityStep::Found,
            ),
            _ => (ActivityLookup::Finished, ActivityStep::NotFound),
        };
        *self = next;
        step
    }
}

/// The index of the current activity in the activity thread's map of `size` activities: the
/// last one; `None` when there is no activity, that is, when not called from a thread with
/// an activity.
pub fn last_activity_index(size: i32) -> (r: Option<i32>)
    requires
        size > i32::MIN,
    ensures
        size == 0 ==> r is None,
        size != 0 ==> r == Some((size - 1) as i32),
        size > 0 ==> (r matches Some(i) && 0 <= i < size),
{
    if size == 0 {
        return None;
    }
    Some(size - 1)
}

// ---------------------------------------------------------------------------------------
// The last known position
// ---------------------------------------------------------------------------------------

/// The calls of the lookup of the last known position, made once the current activity is
/// known. Objects are named by the order in which they arrived during this lookup.
#[derive(Clone, Copy, Debug, PartialEq, Eq)]
pub enum LlaCall {
    /// `getSystemService("location")` of the activity: the location manager, object 0.
    LocationService,
    /// `getProviders(true)` of object 0: the list of enabled providers, object 1.
    Providers,
    /// `getFirst()` of object 1: the provider, object 2.
    FirstProvider,
    /// `getLastKnownLocation(object 2)` of object 0: the location, object 3.
    LastKnownLocation,
    /// `getLatitude()` of object 3.
    Latitude,
    /// `getLongitude()` of object 3.
    Longitude,
    /// `getAltitude()` of object 3 (above the WGS84 ellipsoid).
    Altitude,
}

/// The object each call of the lookup of the last known position is made on.
pub open spec fn lla_receiver(call: LlaCall) -> Receiver {
    match call {
        LlaCall::LocationService => Receiver::Activity,
        LlaCall::Providers => Receiver::Object(0),
        LlaCall::FirstProvider => Receiver::Object(1),
        LlaCall::LastKnownLocation => Receiver::Object(0),
        LlaCall::Latitude => Receiver::Object(3),
        LlaCall::Longitude => Receiver::Object(3),
        LlaCall::Altitude => Receiver::Object(3),
    }
}

/// The object passed to a call of the lookup of the last known position, if any: the
/// location is asked of the provider.
pub open spec fn lla_argument(call: LlaCall) -> Option<usize> {
    match call {
        LlaCall::LastKnownLocation => Some(2),
        _ => None,
    }
}

impl LlaCall {
    /// The object this call is made on.
    pub fn receiver(&self) -> (r: Receiver)
        ensures
            r == lla_receiver(*self),
    {
        match self {
            LlaCall::LocationService => Receiver::Activity,
            LlaCall::Providers => Receiver::Object(0),
            LlaCall::FirstProvider => Receiver::Object(1),
            LlaCall::LastKnownLocation => Receiver::Object(0),
            LlaCall::Latitude => Receiver::Object(3),
            LlaCall::Longitude => Receiver::Object(3),
            LlaCall::Altitude => Receiver::Object(3),
        }
    }

    /// The object passed to this call, if any.
    pub fn argument(&self) -> (r: Option<usize>)
        ensures
            r == lla_argument(*self),
    {
        match self {
            LlaCall::LastKnownLocation => Some(2),
            _ => None,
        }
    }
}

/// Where the lookup of the last known position stands; the coordinates read so far are
/// kept as bit patterns.
#[derive(Clone, Copy, Debug, PartialEq, Eq)]
pub enum LlaLookup {
    AwaitManager,
    AwaitProviders,
    AwaitProvider,
    AwaitLocation,
    AwaitLatitude,
    AwaitLongitude { latitude: u64 },
    AwaitAltitude { latitude: u64, longitude: u64 },
    Finished,
}

/// What the lookup asks for after a reply.
#[derive(Debug, PartialEq, Eq)]
pub enum LlaStep {
    /// Make this call and hand its reply back.
    Call(LlaCall),
    /// The lookup ended: the position, or `Err(())` at the first reply of the wrong kind.
    Done(Result<Lla, ()>),
}

/// One step of the lookup of the last known position.
pub open spec fn lla_transition(stage: LlaLookup, reply: JniReply) -> (LlaLookup, LlaStep) {
    match (stage, reply) {
        (LlaLookup::AwaitManager, JniReply::Object) => (
            LlaLookup::AwaitProviders,
            LlaStep::Call(LlaCall::Providers),
        ),
        (LlaLookup::AwaitProviders, JniReply::Object) => (
            LlaLookup::AwaitProvider,
            LlaStep::Call(LlaCall::FirstProvider),
        ),
        (LlaLookup::AwaitProvider, JniReply::Object) => (
            LlaLookup::AwaitLocation,
            LlaStep::Call(LlaCall::LastKnownLocation),
        ),
        (LlaLookup::AwaitLocation, JniReply::Object) => (
            LlaLookup::AwaitLatitude,
            LlaStep::Call(LlaCall::Latitude),
        ),
        (LlaLookup::AwaitLatitude, JniReply::Double(lat)) => (
            LlaLookup::AwaitLongitude { latitude: lat },
            LlaStep::Call(LlaCall::Longitude),
        ),
        (LlaLookup::AwaitLongitude { latitude }, JniReply::Double(lon)) => (
            LlaLookup::AwaitAltitude { latitude, longitude: lon },
            LlaStep::Call(LlaCall::Altitude),
        ),
        (LlaLookup::AwaitAltitude { latitude, longitude }, JniReply::Double(alt)) => (
            LlaLookup::Finished,
            LlaStep::Done(
                Ok(
                    Lla {
                        latitude_degs_bits: latitude,
                        longitude_degs_bits: longitude,
                        altitude_m_hae_bits: alt,
                    },
                ),
            ),
        ),
        _ => (LlaLookup::Finished, LlaStep::Done(Err(()))),
    }
}

impl LlaLookup {
    /// Starts a lookup of the last known position: the first call is for the location
    /// manager.
    pub fn start() -> (r: (Self, LlaCall))
        ensures
            r == (LlaLookup::AwaitManager, LlaCall::LocationService),
    {
        (LlaLookup::AwaitManager, LlaCall::LocationService)
    }

    /// Takes the reply to the last call asked for.
    pub fn advance(&mut self, reply: JniReply) -> (r: LlaStep)
        ensures
            (*final(self), r) == lla_transition(*old(self), reply),
    {
        let (next, step) = match (&*self, reply) {
            (LlaLookup::AwaitManager, JniReply::Object) => (
                LlaLookup::AwaitProviders,
                LlaStep::Call(LlaCall::Providers),
            ),
            (LlaLookup::AwaitProviders, JniReply::Object) => (
                LlaLookup::AwaitProvider,
                LlaStep::Call(LlaCall::FirstProvider),
            ),
            (LlaLookup::AwaitProvider, JniReply::Object) => (
                LlaLookup::AwaitLocation,
                LlaStep::Call(LlaCall::LastKnownLocation),
            ),
            (LlaLookup::AwaitLocation, JniReply::Object) => (
                LlaLookup::AwaitLatitude,
                LlaStep::Call(LlaCall::Latitude),
            ),
            (LlaLookup::AwaitLatitude, JniReply::Double(lat)) => (
                LlaLookup::AwaitLongitude { latitude: lat },
                LlaStep::Call(LlaCall::Longitude),
            ),
            (LlaLookup::AwaitLongitude { latitude }, JniReply::Double(lon)) => (
                LlaLookup::AwaitAltitude { latitude: *latitude, longitude: lon },
                LlaStep::Call(LlaCall::Altitude),
            ),
            (LlaLookup::AwaitAltitude { latitude, longitude }, JniReply::Double(alt)) => (
                LlaLookup::Finished,
                LlaStep::Done(
                    Ok(
                        Lla {
                            latitude_degs_bits: *latitude,
                            longitude_degs_bits: *longitude,
                            altitude_m_hae_bits: alt,
                        },
                    ),
                ),
            ),
            _ => (LlaLookup::Finished, LlaStep::Done(Err(()))),
        };
        *self = next;
        step
    }
}

// ---------------------------------------------------------------------------------------
// The permission
// ---------------------------------------------------------------------------------------

/// The outcome of a permission check, given what `checkSelfPermission` answered.
pub open spec fn check_outcome(reply: JniReply) -> Result<bool, ()> {
    match reply {
        JniReply::Int(perm) => Ok(perm == PERMISSION_GRANTED),
        _ => Err(()),
    }
}

/// Whether a permission request keeps waiting after a check with the given outcome: only
/// while the check succeeds and reports the permission as not granted yet.
pub open spec fn waits_after(check: Result<bool, ()>) -> bool {
    check == Ok::<bool, ()>(false)
}

/// Checks the location permission, given what `checkSelfPermission` answered.
pub fn check_permission(reply: JniReply) -> (r: Result<bool, ()>)
    ensures
        r == check_outcome(reply),
{
    match reply {
        JniReply::Int(perm) => Ok(perm == PERMISSION_GRANTED),
        _ => Err(()),
    }
}

/// Whether a permission request keeps waiting (polling the check again) after a check
/// with the given outcome.
pub fn still_waiting(check: Result<bool, ()>) -> (r: bool)
    ensures
        r == waits_after(check),
{
    match check {
        Ok(granted) => !granted,
        Err(()) => false,
    }
}

// ---------------------------------------------------------------------------------------
// Whole lookups
// ---------------------------------------------------------------------------------------

/// How a lookup of the current activity that stands at `stage` ends when the calls it asks
/// for are answered by `replies` in order: `Some(true)` when the activity is found,
/// `Some(false)` when it is not, `None` when the replies run out first.
pub open spec fn activity_outcome(stage: ActivityLookup, replies: Seq<JniReply>) -> Option<bool>
    decreases replies.len(),
{
    if replies.len() == 0 {
        None
    } else {
        let (next, step) = activity_transition(stage, replies[0]);
        match step {
            ActivityStep::Call(_) => activity_outcome(next, replies.drop_first()),
            ActivityStep::Found => Some(true),
            ActivityStep::NotFound => Some(false),
        }
    }
}

/// How a lookup of the last known position that stands at `stage` ends when the calls it
/// asks for are answered by `replies` in order (`None` when the replies run out first).
pub open spec fn lla_outcome(stage: LlaLookup, replies: Seq<JniReply>) -> Option<Result<Lla, ()>>
    decreases replies.len(),
{
    if replies.len() == 0 {
        None
    } else {
        let (next, step) = lla_transition(stage, replies[0]);
        match step {
            LlaStep::Call(_) => lla_outcome(next, replies.drop_first()),
            LlaStep::Done(r) => Some(r),
        }
    }
}

/// The current activity is found when the thread, the map of records, a non-empty size,
/// the record and the activity arrive in turn; the record asked for is the last one.
pub proof fn lemma_activity_found(size: i32)
    requires
        size != 0,
        size != i32::MIN,
    ensures
        activity_outcome(
            ActivityLookup::AwaitThread,
            seq![JniReply::Object, JniReply::Object, JniReply::Int(size), JniReply::Object, JniReply::Object],
        ) == Some(true),
        activity_transition(ActivityLookup::AwaitSize, JniReply::Int(size)).1
            == ActivityStep::Call(ActivityCall::ValueAt((size - 1) as i32)),
{
    let replies = seq![JniReply::Object, JniReply::Object, JniReply::Int(size), JniReply::Object, JniReply::Object];
    assert(replies.drop_first() =~= seq![JniReply::Object, JniReply::Int(size), JniReply::Object, JniReply::Object]);
    assert(replies.drop_first().drop_first() =~= seq![JniReply::Int(size), JniReply::Object, JniReply::Object]);
    assert(replies.drop_first().drop_first().drop_first() =~= seq![JniReply::Object, JniReply::Object]);
    assert(replies.drop_first().drop_first().drop_first().drop_first() =~= seq![JniReply::Object]);
    reveal_with_fuel(activity_outcome, 6);
}

/// An empty map of activity records means there is no current activity.
pub proof fn lemma_no_activity_when_empty(rest: Seq<JniReply>)
    ensures
        activity_outcome(
            ActivityLookup::AwaitThread,
            seq![JniReply::Object, JniReply::Object, JniReply::Int(0)] + rest,
        ) == Some(false),
{
    let replies = seq![JniReply::Object, JniReply::Object, JniReply::Int(0)] + rest;
    assert(replies.drop_first() =~= seq![JniReply::Object, JniReply::Int(0)] + rest);
    assert(replies.drop_first().drop_first() =~= seq![JniReply::Int(0)] + rest);
    reveal_with_fuel(activity_outcome, 4);
}

/// A lookup of the current activity stops at the first reply of the wrong kind, whatever
/// would follow it.
pub proof fn lemma_activity_stops_at_failure(stage: ActivityLookup, rest: Seq<JniReply>)
    ensures
        activity_outcome(stage, seq![JniReply::Other] + rest) == Some(false),
{
    assert((seq![JniReply::Other] + rest)[0] == JniReply::Other);
}

/// A lookup of the current activity that has ended asks for nothing more, whatever it is
/// handed.
pub proof fn lemma_activity_finished_stays(reply: JniReply)
    ensures
        activity_transition(ActivityLookup::Finished, reply) == (
            ActivityLookup::Finished,
            ActivityStep::NotFound,
        ),
{
}

/// How many more replies a lookup of the current activity takes at most, from `stage`.
pub open spec fn activity_calls_left(stage: ActivityLookup) -> nat {
    match stage {
        ActivityLookup::AwaitThread => 5,
        ActivityLookup::AwaitActivities => 4,
        ActivityLookup::AwaitSize => 3,
        ActivityLookup::AwaitRecord => 2,
        ActivityLookup::AwaitActivity => 1,
        ActivityLookup::Finished => 1,
    }
}

/// How many more replies a lookup of the last known position takes at most, from `stage`.
pub open spec fn lla_calls_left(stage: LlaLookup) -> nat {
    match stage {
        LlaLookup::AwaitManager => 7,
        LlaLookup::AwaitProviders => 6,
        LlaLookup::AwaitProvider => 5,
        LlaLookup::AwaitLocation => 4,
        LlaLookup::AwaitLatitude => 3,
        LlaLookup::AwaitLongitude { .. } => 2,
        LlaLookup::AwaitAltitude { .. } => 1,
        LlaLookup::Finished => 1,
    }
}

/// From any stage, a lookup of the current activity has ended once it has been handed as
/// many replies as its stage leaves, whatever they are.
pub proof fn lemma_activity_ends_within(stage: ActivityLookup, replies: Seq<JniReply>)
    requires
        replies.len() >= activity_calls_left(stage),
    ensures
        activity_outcome(stage, replies) is Some,
    decreases replies.len(),
{
    let (next, step) = activity_transition(stage, replies[0]);
    if step is Call {
        lemma_activity_ends_within(next, replies.drop_first());
    }
}

/// Every lookup of the current activity ends within five replies, whatever they are.
pub proof fn lemma_activity_ends(replies: Seq<JniReply>)
    requires
        replies.len() >= 5,
    ensures
        activity_outcome(ActivityLookup::AwaitThread, replies) is Some,
{
    lemma_activity_ends_within(ActivityLookup::AwaitThread, replies);
}

/// From any stage, a lookup of the last known position has ended once it has been handed as
/// many replies as its stage leaves, whatever they are.
pub proof fn lemma_lla_ends_within(stage: LlaLookup, replies: Seq<JniReply>)
    requires
        replies.len() >= lla_calls_left(stage),
    ensures
        lla_outcome(stage, replies) is Some,
    decreases replies.len(),
{
    let (next, step) = lla_transition(stage, replies[0]);
    if step is Call {
        lemma_lla_ends_within(next, replies.drop_first());
    }
}

/// Every lookup of the last known position ends within seven replies, whatever they are.
pub proof fn lemma_lla_ends(replies: Seq<JniReply>)
    requires
        replies.len() >= 7,
    ensures
        lla_outcome(LlaLookup::AwaitManager, replies) is Some,
{
    lemma_lla_ends_within(LlaLookup::AwaitManager, replies);
}

/// The position is the three coordinates read in turn, once the location manager, the
/// providers, the provider and the location have arrived.
pub proof fn lemma_lla_read(lat: u64, lon: u64, alt: u64)
    ensures
        lla_outcome(
            LlaLookup::AwaitManager,
            seq![
                JniReply::Object,
                JniReply::Object,
                JniReply::Object,
                JniReply::Object,
                JniReply::Double(lat),
                JniReply::Double(lon),
                JniReply::Double(alt),
            ],
        ) == Some(
            Ok::<Lla, ()>(
                Lla { latitude_degs_bits: lat, longitude_degs_bits: lon, altitude_m_hae_bits: alt },
            ),
        ),
{
    let r = seq![
        JniReply::Object,
        JniReply::Object,
        JniReply::Object,
        JniReply::Object,
        JniReply::Double(lat),
        JniReply::Double(lon),
        JniReply::Double(alt),
    ];
    let r1 = r.drop_first();
    let r2 = r1.drop_first();
    let r3 = r2.drop_first();
    let r4 = r3.drop_first();
    let r5 = r4.drop_first();
    let r6 = r5.drop_first();
    assert(r1 =~= seq![JniReply::Object, JniReply::Object, JniReply::Object, JniReply::Double(lat), JniReply::Double(lon), JniReply::Double(alt)]);
    assert(r2 =~= seq![JniReply::Object, JniReply::Object, JniReply::Double(lat), JniReply::Double(lon), JniReply::Double(alt)]);
    assert(r3 =~= seq![JniReply::Object, JniReply::Double(lat), JniReply::Double(lon), JniReply::Double(alt)]);
    assert(r4 =~= seq![JniReply::Double(lat), JniReply::Double(lon), JniReply::Double(alt)]);
    assert(r5 =~= seq![JniReply::Double(lon), JniReply::Double(alt)]);
    assert(r6 =~= seq![JniReply::Double(alt)]);
    reveal_with_fuel(lla_outcome, 8);
}

/// A lookup of the last known position stops with `Err(())` at the first reply of the
/// wrong kind, whatever would follow it.
pub proof fn lemma_lla_stops_at_failure(stage: LlaLookup, rest: Seq<JniReply>)
    ensures
        lla_outcome(stage, seq![JniReply::Other] + rest) == Some(Err::<Lla, ()>(())),
{
    assert((seq![JniReply::Other] + rest)[0] == JniReply::Other);
}

/// The calls a lookup of the current activity that stands at `stage` asks for, in order,
/// when the calls are answered by `replies` in order (the call asked by `start` excluded).
pub open spec fn activity_calls(stage: ActivityLookup, replies: Seq<JniReply>) -> Seq<ActivityCall>
    decreases replies.len(),
{
    if replies.len() == 0 {
        Seq::empty()
    } else {
        let (next, step) = activity_transition(stage, replies[0]);
        match step {
            ActivityStep::Call(c) => seq![c] + activity_calls(next, replies.drop_first()),
            _ => Seq::empty(),
        }
    }
}

/// The calls a lookup of the last known position that stands at `stage` asks for, in order,
/// when the calls are answered by `replies` in order (the call asked by `start` excluded).
pub open spec fn lla_calls(stage: LlaLookup, replies: Seq<JniReply>) -> Seq<LlaCall>
    decreases replies.len(),
{
    if replies.len() == 0 {
        Seq::empty()
    } else {
        let (next, step) = lla_transition(stage, replies[0]);
        match step {
            LlaStep::Call(c) => seq![c] + lla_calls(next, replies.drop_first()),
            _ => Seq::empty(),
        }
    }
}

/// After a map of any non-zero size, the lookup always asks for the last record, and always
/// then waits for that record (whatever the size, including a single activity).
pub proof fn lemma_size_leads_to_record(size: i32)
    requires
        size != 0,
        size != i32::MIN,
    ensures
        activity_transition(ActivityLookup::AwaitSize, JniReply::Int(size)) == (
            ActivityLookup::AwaitRecord,
            ActivityStep::Call(ActivityCall::ValueAt((size - 1) as i32)),
        ),
{
}

/// The activity is reported found only after five replies: the thread, the map, a non-zero
/// size, the record and the activity; never earlier, and never on any other replies.
pub proof fn lemma_found_only_after_activity(replies: Seq<JniReply>)
    requires
        activity_outcome(ActivityLookup::AwaitThread, replies) == Some(true),
    ensures
        replies.len() >= 5,
        replies[0] == JniReply::Object,
        replies[1] == JniReply::Object,
        replies[2] matches JniReply::Int(n) && n != 0,
        replies[3] == JniReply::Object,
        replies[4] == JniReply::Object,
{
    reveal_with_fuel(activity_outcome, 6);
    let r1 = replies.drop_first();
    let r2 = r1.drop_first();
    let r3 = r2.drop_first();
    let r4 = r3.drop_first();
    assert(r1.len() > 0 ==> r1[0] == replies[1]);
    assert(r2.len() > 0 ==> r2[0] == replies[2]);
    assert(r3.len() > 0 ==> r3[0] == replies[3]);
    assert(r4.len() > 0 ==> r4[0] == replies[4]);
}

/// A lookup that finds the activity asks, after the thread, for the map, its size, the last
/// record (`size - 1`) and that record's activity, in this order, whatever the size.
pub proof fn lemma_activity_calls_in_order(size: i32)
    requires
        size != 0,
        size != i32::MIN,
    ensures
        activity_calls(
            ActivityLookup::AwaitThread,
            seq![JniReply::Object, JniReply::Object, JniReply::Int(size), JniReply::Object, JniReply::Object],
        ) == seq![
            ActivityCall::ActivitiesField,
            ActivityCall::Size,
            ActivityCall::ValueAt((size - 1) as i32),
            ActivityCall::ActivityField,
        ],
{
    let replies = seq![JniReply::Object, JniReply::Object, JniReply::Int(size), JniReply::Object, JniReply::Object];
    assert(replies.drop_first() =~= seq![JniReply::Object, JniReply::Int(size), JniReply::Object, JniReply::Object]);
    assert(replies.drop_first().drop_first() =~= seq![JniReply::Int(size), JniReply::Object, JniReply::Object]);
    assert(replies.drop_first().drop_first().drop_first() =~= seq![JniReply::Object, JniReply::Object]);
    assert(replies.drop_first().drop_first().drop_first().drop_first() =~= seq![JniReply::Object]);
    reveal_with_fuel(activity_calls, 6);
    assert(activity_calls(ActivityLookup::AwaitActivity, seq![JniReply::Object]) =~= Seq::<ActivityCall>::empty());
    assert(activity_calls(ActivityLookup::AwaitRecord, seq![JniReply::Object, JniReply::Object]) =~= seq![ActivityCall::ActivityField]);
}

/// Every call of the lookup of the current activity is made on the object that the call
/// before it gave: the field of the thread (object 0), the size and every record of the
/// map (object 1, whatever the index), the field of the record (object 2).
pub proof fn lemma_activity_receivers()
    ensures
        activity_receiver(ActivityCall::CurrentActivityThread) == Receiver::Class,
        activity_receiver(ActivityCall::ActivitiesField) == Receiver::Object(0),
        activity_receiver(ActivityCall::Size) == Receiver::Object(1),
        forall|i: i32| #[trigger]
            activity_receiver(ActivityCall::ValueAt(i)) == activity_receiver(ActivityCall::Size),
        activity_receiver(ActivityCall::ActivityField) == Receiver::Object(2),
{
}

/// After a latitude, whatever its value, the lookup asks for the longitude; after a
/// longitude, whatever the two values, it asks for the altitude; after an altitude it ends
/// with the three values in their own fields.
pub proof fn lemma_coordinates_asked_in_order(lat: u64, lon: u64, alt: u64)
    ensures
        lla_transition(LlaLookup::AwaitLatitude, JniReply::Double(lat)) == (
            LlaLookup::AwaitLongitude { latitude: lat },
            LlaStep::Call(LlaCall::Longitude),
        ),
        lla_transition(LlaLookup::AwaitLongitude { latitude: lat }, JniReply::Double(lon)) == (
            LlaLookup::AwaitAltitude { latitude: lat, longitude: lon },
            LlaStep::Call(LlaCall::Altitude),
        ),
        lla_transition(
            LlaLookup::AwaitAltitude { latitude: lat, longitude: lon },
            JniReply::Double(alt),
        ).1 == LlaStep::Done(
            Ok(Lla { latitude_degs_bits: lat, longitude_degs_bits: lon, altitude_m_hae_bits: alt }),
        ),
{
}

/// A lookup of the last known position asks, after the location manager, for the providers,
/// the first provider, its last known location, then the latitude, longitude and altitude,
/// in this order whatever the values; each field of the position is the reply to the call
/// of the same name (reply `k` answers call `k`, the first call being the one `start` asks).
pub proof fn lemma_lla_calls_in_order(lat: u64, lon: u64, alt: u64)
    ensures ({
        let replies = seq![
            JniReply::Object,
            JniReply::Object,
            JniReply::Object,
            JniReply::Object,
            JniReply::Double(lat),
            JniReply::Double(lon),
            JniReply::Double(alt),
        ];
        let asked = seq![LlaCall::LocationService] + lla_calls(LlaLookup::AwaitManager, replies);
        &&& asked == seq![
            LlaCall::LocationService,
            LlaCall::Providers,
            LlaCall::FirstProvider,
            LlaCall::LastKnownLocation,
            LlaCall::Latitude,
            LlaCall::Longitude,
            LlaCall::Altitude,
        ]
        &&& asked[4] == LlaCall::Latitude && replies[4] == JniReply::Double(lat)
        &&& asked[5] == LlaCall::Longitude && replies[5] == JniReply::Double(lon)
        &&& asked[6] == LlaCall::Altitude && replies[6] == JniReply::Double(alt)
        &&& lla_outcome(LlaLookup::AwaitManager, replies) == Some(
            Ok::<Lla, ()>(
                Lla { latitude_degs_bits: lat, longitude_degs_bits: lon, altitude_m_hae_bits: alt },
            ),
        )
    }),
{
    let r = seq![
        JniReply::Object,
        JniReply::Object,
        JniReply::Object,
        JniReply::Object,
        JniReply::Double(lat),
        JniReply::Double(lon),
        JniReply::Double(alt),
    ];
    let r1 = r.drop_first();
    let r2 = r1.drop_first();
    let r3 = r2.drop_first();
    let r4 = r3.drop_first();
    let r5 = r4.drop_first();
    let r6 = r5.drop_first();
    assert(r1 =~= seq![JniReply::Object, JniReply::Object, JniReply::Object, JniReply::Double(lat), JniReply::Double(lon), JniReply::Double(alt)]);
    assert(r2 =~= seq![JniReply::Object, JniReply::Object, JniReply::Double(lat), JniReply::Double(lon), JniReply::Double(alt)]);
    assert(r3 =~= seq![JniReply::Object, JniReply::Double(lat), JniReply::Double(lon), JniReply::Double(alt)]);
    assert(r4 =~= seq![JniReply::Double(lat), JniReply::Double(lon), JniReply::Double(alt)]);
    assert(r5 =~= seq![JniReply::Double(lon), JniReply::Double(alt)]);
    assert(r6 =~= seq![JniReply::Double(alt)]);
    reveal_with_fuel(lla_calls, 8);
    reveal_with_fuel(lla_outcome, 8);
    let c6 = lla_calls(LlaLookup::AwaitAltitude { latitude: lat, longitude: lon }, r6);
    assert(c6 =~= Seq::<LlaCall>::empty());
    let c5 = lla_calls(LlaLookup::AwaitLongitude { latitude: lat }, r5);
    assert(c5 =~= seq![LlaCall::Altitude]);
    let c4 = lla_calls(LlaLookup::AwaitLatitude, r4);
    assert(c4 =~= seq![LlaCall::Longitude, LlaCall::Altitude]);
    let c3 = lla_calls(LlaLookup::AwaitLocation, r3);
    assert(c3 =~= seq![LlaCall::Latitude, LlaCall::Longitude, LlaCall::Altitude]);
    let c2 = lla_calls(LlaLookup::AwaitProvider, r2);
    assert(c2 =~= seq![LlaCall::LastKnownLocation, LlaCall::Latitude, LlaCall::Longitude, LlaCall::Altitude]);
    let c1 = lla_calls(LlaLookup::AwaitProviders, r1);
    assert(c1 =~= seq![LlaCall::FirstProvider, LlaCall::LastKnownLocation, LlaCall::Latitude, LlaCall::Longitude, LlaCall::Altitude]);
    let c0 = lla_calls(LlaLookup::AwaitManager, r);
    assert(c0 =~= seq![LlaCall::Providers, LlaCall::FirstProvider, LlaCall::LastKnownLocation, LlaCall::Latitude, LlaCall::Longitude, LlaCall::Altitude]);
    assert(seq![LlaCall::LocationService] + c0 =~= seq![
        LlaCall::LocationService,
        LlaCall::Providers,
        LlaCall::FirstProvider,
        LlaCall::LastKnownLocation,
        LlaCall::Latitude,
        LlaCall::Longitude,
        LlaCall::Altitude,
    ]);
}

/// The coordinates are read from the location (object 3), which is asked of the location
/// manager (object 0) with the provider (object 2) as argument.
pub proof fn lemma_lla_receivers()
    ensures
        lla_receiver(LlaCall::LocationService) == Receiver::Activity,
        lla_receiver(LlaCall::Providers) == Receiver::Object(0),
        lla_receiver(LlaCall::FirstProvider) == Receiver::Object(1),
        lla_receiver(LlaCall::LastKnownLocation) == Receiver::Object(0),
        lla_argument(LlaCall::LastKnownLocation) == Some(2usize),
        lla_receiver(LlaCall::Latitude) == Receiver::Object(3),
        lla_receiver(LlaCall::Longitude) == Receiver::Object(3),
        lla_receiver(LlaCall::Altitude) == Receiver::Object(3),
{
}

/// The check grants the permission exactly on the `int` 0 (`PERMISSION_GRANTED`), reports
/// it not granted on any other `int`, and fails on any other reply.
pub proof fn lemma_check_outcome(perm: i32, reply: JniReply)
    ensures
        check_outcome(JniReply::Int(perm)) is Ok,
        check_outcome(JniReply::Int(perm)) == Ok::<bool, ()>(true) <==> perm == 0,
        !(reply is Int) ==> check_outcome(reply) == Err::<bool, ()>(()),
        waits_after(Ok(false)),
        !waits_after(Ok(true)),
        !waits_after(Err(())),
{
}

/// A permission request waits exactly while the check answers an `int` other than granted:
/// it stops at the first check that grants the permission or that fails.
pub proof fn lemma_wait_ends(reply: JniReply)
    ensures
        waits_after(check_outcome(reply)) <==> (reply matches JniReply::Int(p) && p
            != PERMISSION_GRANTED),
{
}

} // verus!
