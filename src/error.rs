//! Failures met while looking for a bundled icon. Each is recovered from by
//! drawing the placeholder icon instead.
use vstd::prelude::*;

verus! {

#[derive(Clone, Copy, Debug, PartialEq, Eq, Structural)]
pub enum IconError {
    /// No candidate location holds the asset.
    NotFound,
    /// The file is there but is not a decodable image.
    DecodeError,
    /// The directory of the running executable could not be resolved.
    NoExecutableRoot,
}

} // verus!
