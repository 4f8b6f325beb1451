//! Daily astronomy-image wallpaper library.
//!
//! The library decides everything the wallpaper workflows need to decide:
//! which calendar dates to acquire, whether a date is already cached in a
//! folder, how a remote metadata response is interpreted, which file name a
//! downloaded asset gets, and which desktop tool commands set or query the
//! wallpaper. All I/O (HTTP, file system, subprocesses) is performed by the
//! surrounding application, which feeds plain values in and carries the
//! planned actions out.

use vstd::prelude::*;

pub mod acquire;
pub mod backend;
pub mod cache;
pub mod config;
pub mod chars;
pub mod date;
pub mod datestr;
pub mod fetch;
pub mod hyprland;
pub mod jsonval;
pub mod plasma;

verus! {

/// The failures the library distinguishes.
///
/// `NotFound` is soft: no image is published for the requested date
/// (for example a video day); range workflows treat it as a skip.
#[derive(Clone, Copy, Debug, PartialEq, Eq, Structural)]
pub enum Error {
    /// The remote endpoint answered 403: rate limit hit or bad key.
    RateLimited,
    /// The remote endpoint answered with another non-success status.
    RemoteError(u16),
    /// No image is available for the requested date.
    NotFound,
    /// The asset's file extension is outside the allow-list.
    UnsupportedFormat,
    /// A date string is not a valid `YYYY-MM-DD` calendar date.
    InvalidDate,
    /// A date span's start lies after its end.
    InvalidRange,
    /// Every available desktop tool failed.
    BackendFailure,
    /// No supported desktop environment could be selected.
    NoSupportedDesktop,
    /// Reading or writing local data failed.
    IoFailure,
}

} // verus!
