//! Decoder for the structural metadata of the TIFF raster-image container:
//! the fixed 8-byte file header and the chain of Image File Directories
//! (IFDs) that follows it. Pixel data, compression and tag semantics are out
//! of scope; the decoder only establishes structural well-formedness and
//! hands back typed values.

pub mod decode;
pub mod model;

pub use decode::parse_directory_entry;
pub use decode::parse_header;
pub use decode::parse_ifd;
pub use decode::parse_tiff;
pub use model::FileView;
pub use model::IfdView;
pub use model::TiffByteOrder;
pub use model::TiffDataType;
pub use model::TiffError;
pub use model::TiffFile;
pub use model::TiffHeader;
pub use model::TiffIfd;
pub use model::TiffIfdEntry;
pub use model::TiffTag;
