//! A verified parser for the uncompressed portion of VP9 bitstreams and
//! for the superframe packaging that carries one or more frames per
//! packet.
//!
//! The parser produces, for every frame found in an input packet, a
//! structured description of the frame's uncompressed header fields plus
//! byte-exact offsets locating the compressed header and the tile
//! payload inside the packet bytes.  The compressed header and the tile
//! body are only located, never decoded.
//!
//! The bit-level meaning of the header lives in the `header` module as a
//! specification-level parser; `Vp9Parser::parse_vp9_packet` is proved
//! to return exactly what that specification describes, frame by frame.

pub mod bits;
pub mod error;
pub mod frame;
pub mod header;
pub mod ivf;
pub mod metadata;
pub mod parser;
pub mod superframe;
pub mod types;

pub use bits::BitReader;
pub use error::ParserError;
pub use frame::Frame;
pub use metadata::Metadata;
pub use parser::Vp9Parser;
pub use types::ColorDepth;
pub use types::ColorRange;
pub use types::ColorSpace;
pub use types::FrameType;
pub use types::InterpolationFilter;
pub use types::Level;
pub use types::MetadataSubsampling;
pub use types::Profile;
pub use types::RefSize;
pub use types::ResetFrameContext;
pub use types::Subsampling;
