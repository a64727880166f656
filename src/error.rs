use vstd::prelude::*;

verus! {

/// Errors raised by the metadata model.
#[derive(Debug, Clone)]
pub enum Error {
    /// A Java profile name that the model does not know.
    InvalidMinecraftJavaProfile(String),
    /// A package coordinate that is not `group:artifact:version[:classifier][@extension]`.
    InvalidGradleSpecifier(String),
}

} // verus!
