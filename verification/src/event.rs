//! Events decoded from the touch controller.

use vstd::prelude::*;

verus! {

/// One contact on the panel.
#[derive(Clone, Copy, Debug, PartialEq, Eq, Structural)]
pub struct TouchPoint {
    pub x: u16,
    pub y: u16,
    pub pressure: u8,
}

/// What the controller reports on one interrupt.
///
/// A touch report carries up to two contacts. A missing contact is `None`,
/// which differs from a contact at the origin.
#[derive(Clone, Copy, Debug, PartialEq, Eq, Structural)]
pub enum TouchEvent {
    MultiTouchReport { report_id: u8, point1: Option<TouchPoint>, point2: Option<TouchPoint> },
    ButtonReport { report_id: u8 },
}

impl TouchEvent {
    /// How many contacts the report holds: none for a button report.
    pub open spec fn point_count(self) -> nat {
        match self {
            TouchEvent::MultiTouchReport { point1, point2, .. } => {
                (if point1 is Some { 1nat } else { 0nat }) + (if point2 is Some { 1nat } else { 0nat })
            },
            TouchEvent::ButtonReport { .. } => 0,
        }
    }
}

} // verus!
