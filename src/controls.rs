use vstd::prelude::*;
use crate::finger::{Finger, finger_id};
use crate::registry::{is_enrolled, views};

verus! {

/// Which commands the user can give.
#[derive(Clone, Copy, Debug, PartialEq, Eq, Structural)]
pub struct Controls {
    pub register: bool,
    pub delete: bool,
    pub clear: bool,
    pub cancel: bool,
}

/// Which commands are open: none while an operation runs, no device is
/// found or an enrollment is under way, but for cancelling that enrollment;
/// registering needs a finger slot, deleting needs prints on the page.
pub fn controls(busy: bool, has_device: bool, enrolling: bool, page: Finger, enrolled: &Vec<
    String,
>) -> (r: Controls)
    ensures
        r.register == (!busy && has_device && !enrolling && finger_id(page) is Some),
        r.delete == (!busy && has_device && !enrolling && match finger_id(page) {
            Some(id) => views(enrolled@).contains(id),
            None => enrolled@.len() > 0,
        }),
        r.clear == (!busy && has_device && !enrolling),
        r.cancel == enrolling,
{
    let open = !busy && has_device && !enrolling;
    let has_prints = is_enrolled(enrolled, page);
    Controls {
        register: open && page.as_finger_id().is_some(),
        delete: open && has_prints,
        clear: open,
        cancel: enrolling,
    }
}

} // verus!
