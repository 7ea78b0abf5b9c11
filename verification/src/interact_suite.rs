//! The interact suite: overlays are not provided.

use vstd::prelude::*;

use crate::ofx_constants::{kOfxStatErrUnsupported, kOfxStatFailed};

verus! {

/// The operations of the interact suite.
pub struct InteractSuite;

/// The interact suite that the host hands to plug-ins.
pub fn interact_suite() -> (r: InteractSuite) {
    InteractSuite
}

impl InteractSuite {
    /// Swapping buffers is not provided.
    pub fn interact_swap_buffers(&self) -> (status: i32)
        ensures
            status == kOfxStatErrUnsupported,
    {
        kOfxStatErrUnsupported
    }

    /// Redrawing is not provided.
    pub fn interact_redraw(&self) -> (status: i32)
        ensures
            status == kOfxStatErrUnsupported,
    {
        kOfxStatErrUnsupported
    }

    /// Interacts have no property set: a missing output handle fails, else
    /// the request is unsupported.
    pub fn interact_get_property_set(&self, output_present: bool) -> (status: i32)
        ensures
            status == (if output_present {
                kOfxStatErrUnsupported
            } else {
                kOfxStatFailed
            }),
    {
        if !output_present {
            return kOfxStatFailed;
        }
        kOfxStatErrUnsupported
    }
}

} // verus!
