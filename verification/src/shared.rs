//! The hand state shared between one frame producer and any number of
//! readers.
//!
//! The transport task applies frames while presentation code polls snapshots
//! on its own schedule, so the hand state is the one shared mutable resource
//! of the driver. It lives behind a single reader-writer lock whose
//! invariant admits only well-formed states ([`Hand::wf`]): a writer replaces
//! the pose and the derived summary together before the lock opens again, so
//! no reader can ever observe a pose paired with a summary that came from a
//! different update, however calls interleave.

use vstd::prelude::*;
use vstd::rwlock::RwLock;
use vstd::rwlock::RwLockPredicate;

use crate::hand::spec_bent_fingers;
use crate::hand::spec_thumb_contact;
use crate::hand::Hand;
use crate::hand::HandGestures;
use crate::hand::HandModel;

verus! {

/// The lock invariant: only well-formed hand states — summary derived from
/// the stored pose — may be stored.
pub struct WfHand {}

impl RwLockPredicate<Hand> for WfHand {
    open spec fn inv(self, h: Hand) -> bool {
        h.wf()
    }
}

/// The shared hand state: a single current-value cell behind one exclusive
/// guard, overwritten wholesale on each applied frame.
pub struct SharedHand {
    lock: RwLock<Hand, WfHand>,
}

impl SharedHand {
    /// Creates the shared state holding the startup hand: all-zero pose,
    /// nothing bent, no contact.
    pub fn new() -> SharedHand {
        SharedHand { lock: RwLock::new(Hand::default(), Ghost(WfHand {})) }
    }

    /// Applies one decoded frame: under the writer lock, replaces the stored
    /// pose and recomputes the gesture summary from it, so both halves of
    /// the state change together. Total — never fails on any pose record —
    /// and serialized against every other apply and snapshot.
    pub fn apply(&self, new_model: HandModel) {
        let (mut h, write_handle) = self.lock.acquire_write();
        h.update_model(new_model);
        write_handle.release_write(h);
    }

    /// One consistent read of the whole state: whatever applies ran before
    /// or run concurrently, the summary half of the returned pair is exactly
    /// the one derived from the pose half.
    pub fn snapshot(&self) -> (r: (HandModel, HandGestures))
        ensures
            r.1.bent_fingers@ == spec_bent_fingers(r.0),
            r.1.finger_touching_thumb == spec_thumb_contact(r.0),
    {
        let read_handle = self.lock.acquire_read();
        let r = read_handle.borrow().snapshot();
        read_handle.release_read();
        r
    }
}

} // verus!
