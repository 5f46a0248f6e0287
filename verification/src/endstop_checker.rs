//! Replicated endstop state.
//!
//! The GPIO poller that watches the limit-switch lines lives outside the
//! library; it turns each edge into an [`EndstopHitMsg`].  Every consumer
//! keeps its own [`EndstopStatusClient`] replica, updated from that event
//! stream.  An endstop that has never reported is `None`.

use vstd::prelude::*;

use crate::common::{Axis, AxisEnd, EndstopIdentifier};
use crate::messages::EndstopHitMsg;

verus! {

/// Last known level of every endstop: `Some(true)` while pressed, `None`
/// before the first report.
#[derive(Copy, Clone, Debug, PartialEq, Eq, Structural)]
pub struct EndstopStatusClient {
    pub x_min: Option<bool>,
    pub x_max: Option<bool>,
    pub y_min: Option<bool>,
    pub y_max: Option<bool>,
    pub z_min: Option<bool>,
    pub z_max: Option<bool>,
}

impl EndstopStatusClient {
    /// The stored status of one endstop.
    pub open spec fn status(self, id: EndstopIdentifier) -> Option<bool> {
        match (id.axis, id.position) {
            (Axis::X, AxisEnd::Min) => self.x_min,
            (Axis::X, AxisEnd::Max) => self.x_max,
            (Axis::Y, AxisEnd::Min) => self.y_min,
            (Axis::Y, AxisEnd::Max) => self.y_max,
            (Axis::Z, AxisEnd::Min) => self.z_min,
            (Axis::Z, AxisEnd::Max) => self.z_max,
        }
    }

    /// True only when the endstop has reported and its last level was
    /// pressed.
    pub open spec fn pressed(self, id: EndstopIdentifier) -> bool {
        self.status(id) == Some(true)
    }

    pub fn new() -> (c: Self)
        ensures
            forall|id: EndstopIdentifier| c.status(id) is None,
    {
        EndstopStatusClient {
            x_min: None,
            x_max: None,
            y_min: None,
            y_max: None,
            z_min: None,
            z_max: None,
        }
    }

    pub fn is_endstop_hit(&self, endstop_id: EndstopIdentifier) -> (r: Option<bool>)
        ensures
            r == self.status(endstop_id),
    {
        match (endstop_id.axis, endstop_id.position) {
            (Axis::X, AxisEnd::Min) => self.x_min,
            (Axis::X, AxisEnd::Max) => self.x_max,
            (Axis::Y, AxisEnd::Min) => self.y_min,
            (Axis::Y, AxisEnd::Max) => self.y_max,
            (Axis::Z, AxisEnd::Min) => self.z_min,
            (Axis::Z, AxisEnd::Max) => self.z_max,
        }
    }

    /// Record one endstop report, leaving every other endstop unchanged.
    pub fn process_message(&mut self, msg: EndstopHitMsg)
        ensures
            final(self).status(msg.endstop) == Some(msg.value),
            forall|id: EndstopIdentifier|
                id != msg.endstop ==> final(self).status(id) == old(self).status(id),
    {
        match (msg.endstop.axis, msg.endstop.position) {
            (Axis::X, AxisEnd::Min) => self.x_min = Some(msg.value),
            (Axis::X, AxisEnd::Max) => self.x_max = Some(msg.value),
            (Axis::Y, AxisEnd::Min) => self.y_min = Some(msg.value),
            (Axis::Y, AxisEnd::Max) => self.y_max = Some(msg.value),
            (Axis::Z, AxisEnd::Min) => self.z_min = Some(msg.value),
            (Axis::Z, AxisEnd::Max) => self.z_max = Some(msg.value),
        }
    }
}

} // verus!
