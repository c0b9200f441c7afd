//! The decisions of the macOS (CoreLocation) backend: what an authorization status is
//! reported as, and what the location manager's delegate keeps of an update.
use vstd::prelude::*;

use crate::error::Error;
use crate::lla::Lla;

verus! {

/// `kCLAuthorizationStatusNotDetermined`.
pub const STATUS_NOT_DETERMINED: i32 = 0;

/// `kCLAuthorizationStatusRestricted`.
pub const STATUS_RESTRICTED: i32 = 1;

/// `kCLAuthorizationStatusAuthorizedAlways`.
pub const STATUS_AUTHORIZED_ALWAYS: i32 = 3;

/// `kCLAuthorizationStatusAuthorizedWhenInUse`.
pub const STATUS_AUTHORIZED_WHEN_IN_USE: i32 = 4;

/// The line reported for a `CLAuthorizationStatus` of the given raw value, or `None` for a
/// status without a line of its own, which is reported as "Other auth value " followed by
/// the status.
pub fn authorization_message(status: i32) -> (r: Option<&'static str>)
    ensures
        status == STATUS_NOT_DETERMINED ==> (r matches Some(m)
            && m@ == "Undetermined authorization, requesting when in use"@),
        status == STATUS_RESTRICTED ==> (r matches Some(m) && m@ == "Restricted"@),
        status == STATUS_AUTHORIZED_ALWAYS ==> (r matches Some(m) && m@ == "Always"@),
        status == STATUS_AUTHORIZED_WHEN_IN_USE ==> (r matches Some(m) && m@ == "When in use"@),
        r is None <==> !(status == STATUS_NOT_DETERMINED || status == STATUS_RESTRICTED
            || status == STATUS_AUTHORIZED_ALWAYS || status == STATUS_AUTHORIZED_WHEN_IN_USE),
{
    if status == STATUS_NOT_DETERMINED {
        Some("Undetermined authorization, requesting when in use")
    } else if status == STATUS_RESTRICTED {
        Some("Restricted")
    } else if status == STATUS_AUTHORIZED_ALWAYS {
        Some("Always")
    } else if status == STATUS_AUTHORIZED_WHEN_IN_USE {
        Some("When in use")
    } else {
        None
    }
}

/// What the slot holds after an update that delivered `first` as its first location.
pub open spec fn after_update(held: Option<Lla>, first: Lla) -> Option<Lla> {
    Some(first)
}

/// What taking from a slot that holds `held` gives back, and what the slot holds afterwards.
pub open spec fn take_result(held: Option<Lla>) -> (Option<Lla>, Option<Lla>) {
    (held, None)
}

/// How a run of the run loop ends a read of the position.
#[derive(Clone, Copy, Debug, PartialEq, Eq)]
pub enum ReadStep {
    /// The read gives this position.
    Fix(Lla),
    /// No update arrived: run the loop again.
    RunAgain,
}

/// How a read ends after a run of the run loop with the slot holding `held`, and what the
/// slot holds afterwards.
pub open spec fn read_result(held: Option<Lla>) -> (ReadStep, Option<Lla>) {
    match held {
        Some(lla) => (ReadStep::Fix(lla), None),
        None => (ReadStep::RunAgain, None),
    }
}

/// The location that the location manager's delegate keeps of its last update, until the
/// getter takes it.
#[derive(Debug)]
pub struct LocationSlot {
    location: Option<Lla>,
}

impl View for LocationSlot {
    type V = Option<Lla>;

    closed spec fn view(&self) -> Option<Lla> {
        self.location
    }
}

impl LocationSlot {
    /// An empty slot.
    pub fn new() -> (r: Self)
        ensures
            r@ is None,
    {
        LocationSlot { location: None }
    }

    /// Records an update of the locations: `first` is the first of the locations that the
    /// update delivered; it replaces whatever the slot held.
    pub fn record_update(&mut self, first: Lla)
        ensures
            final(self)@ == after_update(old(self)@, first),
    {
        self.location = Some(first);
    }

    /// Whether a location has been recorded and not taken yet.
    pub fn has_location(&self) -> (r: bool)
        ensures
            r == self@ is Some,
    {
        self.location.is_some()
    }

    /// Takes the recorded location out of the slot.
    pub fn take(&mut self) -> (r: Option<Lla>)
        ensures
            (r, final(self)@) == take_result(old(self)@),
    {
        let r = self.location;
        self.location = None;
        r
    }

    /// Ends a run of the location manager's run loop in a read of the position: the location
    /// that the delegate recorded, taken out of the slot, or `RunAgain` when the run loop
    /// stopped without an update, so that the read keeps waiting for one.
    pub fn finish_get(&mut self) -> (r: ReadStep)
        ensures
            (r, final(self)@) == read_result(old(self)@),
    {
        match self.take() {
            Some(lla) => ReadStep::Fix(lla),
            None => ReadStep::RunAgain,
        }
    }
}

/// The outcome of a permission request on macOS, where getting the permission is the same
/// as reading a position: the read's error, or success.
pub fn permission_outcome(read: Result<Lla, Error>) -> (r: Result<(), Error>)
    ensures
        read is Ok ==> r == Ok::<(), Error>(()),
        read matches Err(e) ==> r == Err::<(), Error>(e),
{
    read?;
    Ok(())
}

/// A read after an update gives back the first location of that update, and leaves the
/// slot empty.
pub proof fn lemma_take_after_update(held: Option<Lla>, first: Lla)
    ensures
        take_result(after_update(held, first)) == (Some(first), None::<Lla>),
{
}

/// Each recorded position is read at most once: a read after an update gives that update's
/// first location, and a further read with no update in between runs the loop again.
pub proof fn lemma_fix_read_once(held: Option<Lla>, first: Lla)
    ensures
        read_result(after_update(held, first)) == (ReadStep::Fix(first), None::<Lla>),
        read_result(read_result(after_update(held, first)).1).0 == ReadStep::RunAgain,
{
}

/// A read that finds the slot empty leaves it empty, so it keeps waiting until an update
/// arrives; the first update after it is the one read.
pub proof fn lemma_read_waits_for_update(first: Lla)
    ensures
        read_result(None) == (ReadStep::RunAgain, None::<Lla>),
        read_result(after_update(read_result(None).1, first)).0 == ReadStep::Fix(first),
{
}

} // verus!
