//! Image byte buffers as the pipeline stages hand them around.

use vstd::prelude::*;

verus! {

/// Format tag of an image byte buffer.
#[derive(Debug, Clone, Copy, PartialEq, Eq, Structural)]
pub enum AssetFormat {
    /// A produced PNG encoding.
    Png,
    /// A produced GIF encoding.
    Gif,
    /// An animated WebP source stream.
    AnimatedWebpSource,
    /// A static WebP source stream.
    StaticWebpSource,
}

/// An immutable image byte buffer with its format tag and delivery filename.
/// Every pipeline stage produces a fresh asset; none mutates one in place.
/// An empty filename means the asset is delivered by reference to its source
/// URL rather than as an uploaded file.
pub struct ImageAsset {
    pub bytes: Vec<u8>,
    pub format: AssetFormat,
    pub filename: String,
}

impl ImageAsset {
    /// Number of bytes in the buffer.
    pub fn byte_len(&self) -> (r: usize)
        ensures
            r == self.bytes@.len(),
    {
        self.bytes.len()
    }
}

} // verus!
