//! Device discovery: which of the capture devices a host reports can be
//! offered to the operator.

use crate::moves::pour_reversed;
use crate::negotiate::NegotiationError;
use vstd::prelude::*;

verus! {

/// A capture device as the host reports it.
#[derive(Debug, PartialEq, Eq)]
pub struct DeviceHandle {
    /// The number the host knows the device by.
    pub index: usize,
    /// A name fit to show.
    pub name: String,
    /// Where the device node lies.
    pub path: String,
}

/// A device together with what a trial negotiation on it came to.
#[derive(Debug, PartialEq, Eq)]
pub struct Probed {
    pub handle: DeviceHandle,
    pub outcome: Result<(), NegotiationError>,
}

/// Why the application cannot start.
#[derive(Clone, Copy, Debug, PartialEq, Eq, Structural)]
pub enum StartupError {
    /// No device on this host delivers the encoding.
    NoUsableDevice,
}

/// The handles of the devices whose trial negotiation reached a stream, in
/// the order the host reported them.
pub open spec fn usable(probed: Seq<Probed>) -> Seq<DeviceHandle>
    decreases probed.len(),
{
    if probed.len() == 0 {
        Seq::empty()
    } else if probed.last().outcome is Ok {
        usable(probed.drop_last()).push(probed.last().handle)
    } else {
        usable(probed.drop_last())
    }
}

/// Whether a device can be offered: its trial negotiation opened the device,
/// committed the encoding and set up a stream.
pub fn check_device(outcome: &Result<(), NegotiationError>) -> (ok: bool)
    ensures
        ok == (outcome is Ok),
{
    match outcome {
        Ok(_) => true,
        Err(_) => false,
    }
}

/// The devices to offer: those of `probed` that passed their trial
/// negotiation, in the order they were reported.
pub fn selectable_devices(probed: Vec<Probed>) -> (devices: Vec<DeviceHandle>)
    ensures
        devices@ == usable(probed@),
{
    let ghost all = probed@;
    let mut probed = probed;
    let mut pending: Vec<Probed> = Vec::new();
    pour_reversed(&mut probed, &mut pending);
    let mut devices: Vec<DeviceHandle> = Vec::new();
    let ghost mut done: int = 0;
    assert(all.take(0).len() == 0);
    while pending.len() > 0
        invariant
            0 <= done <= all.len(),
            pending@.len() == all.len() - done,
            pending@ == all.reverse().take(all.len() - done),
            devices@ == usable(all.take(done)),
        decreases pending@.len(),
    {
        let p = pending.pop().unwrap();
        proof {
            assert(p == all[done]);
            let next = all.take(done + 1);
            assert(next.drop_last() == all.take(done));
            assert(next.last() == p);
        }
        if check_device(&p.outcome) {
            devices.push(p.handle);
        }
        proof {
            done = done + 1;
        }
    }
    assert(all.take(done) == all);
    devices
}

/// Decides whether the application can start on what discovery found: it
/// needs at least one device to offer, and begins with the first.
pub fn initial_selection(devices: &Vec<DeviceHandle>) -> (r: Result<usize, StartupError>)
    ensures
        devices@.len() == 0 <==> r == Err::<usize, StartupError>(StartupError::NoUsableDevice),
        devices@.len() > 0 <==> r == Ok::<usize, StartupError>(0),
{
    if devices.len() == 0 {
        Err(StartupError::NoUsableDevice)
    } else {
        Ok(0)
    }
}

/// Every device that is offered passed its trial negotiation: one that did
/// not open, or opened and then failed to commit the encoding or to set up
/// its buffers, is not offered on that account.
pub proof fn lemma_offered_devices_passed(probed: Seq<Probed>, k: int)
    requires
        0 <= k < usable(probed).len(),
    ensures
        exists|i: int|
            0 <= i < probed.len() && #[trigger] probed[i].outcome is Ok && probed[i].handle
                == usable(probed)[k],
    decreases probed.len(),
{
    let earlier = probed.drop_last();
    let last = probed.len() - 1;
    if probed[last].outcome is Ok && k == usable(earlier).len() {
        assert(probed[last].handle == usable(probed)[k]);
    } else {
        lemma_offered_devices_passed(earlier, k);
        let i = choose|i: int|
            0 <= i < earlier.len() && #[trigger] earlier[i].outcome is Ok && earlier[i].handle
                == usable(earlier)[k];
        assert(probed[i] == earlier[i]);
    }
}

/// Where every trial negotiation failed, nothing is offered.
pub proof fn lemma_nothing_offered_when_all_fail(probed: Seq<Probed>)
    requires
        forall|i: int| 0 <= i < probed.len() ==> probed[i].outcome is Err,
    ensures
        usable(probed).len() == 0,
    decreases probed.len(),
{
    if probed.len() > 0 {
        let earlier = probed.drop_last();
        assert forall|i: int| 0 <= i < earlier.len() implies earlier[i].outcome is Err by {
            assert(earlier[i] == probed[i]);
        }
        lemma_nothing_offered_when_all_fail(earlier);
    }
}

} // verus!
