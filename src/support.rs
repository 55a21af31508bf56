//! The sentinel handle and the outcome of an operation this backend cannot emulate.
use vstd::prelude::*;

verus! {

/// The diagnostic a caller reports when it reaches an operation that needs a
/// native graphics backend.
pub const UNSUPPORTED_MESSAGE: &'static str =
    "You need to enable a native API feature (vulkan/metal/dx11/dx12/gl/wgl) in order to use gfx-rs";

/// The stateless placeholder that stands for every resource this backend hands
/// out: buffers, images, memory, shader modules, pipelines, fences and so on.
#[derive(Clone, Copy, Debug, PartialEq, Eq, Structural)]
pub struct Handle;

/// The outcome of an operation that this backend structurally cannot emulate.
#[derive(Clone, Copy, Debug, PartialEq, Eq, Structural)]
pub struct Unsupported;

impl Unsupported {
    /// The fixed diagnostic that goes with this outcome.
    pub fn message(&self) -> (r: &'static str)
        ensures
            r == UNSUPPORTED_MESSAGE,
    {
        UNSUPPORTED_MESSAGE
    }
}

} // verus!
