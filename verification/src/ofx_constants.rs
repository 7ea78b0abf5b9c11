//! Status codes shared by every suite of the host.
#![allow(non_upper_case_globals)]

use vstd::prelude::*;

verus! {

/// Status code indicating all was fine.
pub const kOfxStatOK: i32 = 0;

/// Status error code for a failed operation.
pub const kOfxStatFailed: i32 = 1;

/// Status error code for a fatal error.
///
/// Only returned in the case where the plug-in or host cannot continue to
/// function and needs to be restarted.
pub const kOfxStatErrFatal: i32 = 2;

/// Status error code for an operation on or request for an unknown object.
pub const kOfxStatErrUnknown: i32 = 3;

/// Status error code returned by plug-ins when they are missing host functionality,
/// either an API or some optional functionality.
pub const kOfxStatErrMissingHostFeature: i32 = 4;

/// Status error code for an unsupported feature/operation.
pub const kOfxStatErrUnsupported: i32 = 5;

/// Status error code for an operation attempting to create something that exists.
pub const kOfxStatErrExists: i32 = 6;

/// Status error code for an incorrect format.
pub const kOfxStatErrFormat: i32 = 7;

/// Status error code indicating that something failed due to memory shortage.
pub const kOfxStatErrMemory: i32 = 8;

/// Status error code for an operation on a bad handle.
pub const kOfxStatErrBadHandle: i32 = 9;

/// Status error code indicating that a given index was invalid or unavailable.
pub const kOfxStatErrBadIndex: i32 = 10;

/// Status error code indicating that something failed due an illegal value.
pub const kOfxStatErrValue: i32 = 11;

/// Status returned indicating a 'yes'.
pub const kOfxStatReplyYes: i32 = 12;

/// Status returned indicating a 'no'.
pub const kOfxStatReplyNo: i32 = 13;

/// Status returned indicating that a default action should be performed.
pub const kOfxStatReplyDefault: i32 = 14;

/// Width of the project the host renders, in pixels.
pub const kProjectWidth: i32 = 720;

/// Height of the project the host renders, in pixels.
pub const kProjectHeight: i32 = 480;

} // verus!
