//! Data model for TIFF structural metadata: the byte-order marker, the field
//! data types and tag identifiers carried by directory entries, the header,
//! directory and file structures, and the decode error taxonomy.
//!
//! The integer and string codec pairs on the enumerations are total functions
//! into `Result`; every conversion is pinned to a spec-level table, and the
//! round-trip and rejection laws over those tables are proved below.

use vstd::prelude::*;
use vstd::string::StrSliceExecFns;

verus! {

/// The ways a structural decode of a TIFF buffer can fail.
#[derive(Clone, Copy, Debug, PartialEq, Eq, Structural)]
pub enum TiffError {
    /// Fewer bytes remain than a fixed-width field or a declared-length
    /// region requires.
    TruncatedInput,
    /// The two marker bytes are neither `"II"` (0x4949) nor `"MM"` (0x4D4D).
    InvalidByteOrderMarker,
    /// The header's version field is not 42, the classic-TIFF version code.
    InvalidVersion,
    /// A directory entry's field-type code lies outside 1..=12.
    UnknownDataType,
    /// A directory entry's tag code is not in the registered tag set.
    UnknownTag,
    /// A next-IFD offset points back at an already visited directory.
    IfdCycleDetected,
}

/// Endianness marker found in the first two bytes of a TIFF file.
#[derive(Clone, Copy, Debug, PartialEq, Eq, Structural)]
pub enum TiffByteOrder {
    LittleEndian,
    BigEndian,
}

/// What `TiffByteOrder::from_u16` returns for each 16-bit marker value.
pub open spec fn spec_byte_order_from_u16(value: u16) -> Result<TiffByteOrder, TiffError> {
    if value == 0x4949 {
        Ok(TiffByteOrder::LittleEndian)
    } else if value == 0x4D4D {
        Ok(TiffByteOrder::BigEndian)
    } else {
        Err(TiffError::InvalidByteOrderMarker)
    }
}

/// What `TiffByteOrder::from_str` returns for each character sequence.
pub open spec fn spec_byte_order_from_str(value: Seq<char>) -> Result<TiffByteOrder, TiffError> {
    if value == "II"@ {
        Ok(TiffByteOrder::LittleEndian)
    } else if value == "MM"@ {
        Ok(TiffByteOrder::BigEndian)
    } else {
        Err(TiffError::InvalidByteOrderMarker)
    }
}

/// The 16-bit marker value of a byte order.
pub open spec fn spec_byte_order_to_u16(order: TiffByteOrder) -> u16 {
    match order {
        TiffByteOrder::LittleEndian => 0x4949,
        TiffByteOrder::BigEndian => 0x4D4D,
    }
}

/// The two-character ASCII marker of a byte order.
pub open spec fn spec_byte_order_to_str(order: TiffByteOrder) -> Seq<char> {
    match order {
        TiffByteOrder::LittleEndian => "II"@,
        TiffByteOrder::BigEndian => "MM"@,
    }
}

impl TiffByteOrder {
    /// Decodes the 16-bit byte-order marker; any value other than the two
    /// TIFF magic values is rejected.
    pub fn from_u16(value: u16) -> (r: Result<TiffByteOrder, TiffError>)
        ensures
            r == spec_byte_order_from_u16(value),
    {
        match value {
            0x4949 => Ok(TiffByteOrder::LittleEndian),
            0x4D4D => Ok(TiffByteOrder::BigEndian),
            _ => Err(TiffError::InvalidByteOrderMarker),
        }
    }

    /// Decodes the two-character byte-order marker; any string other than
    /// `"II"` or `"MM"` is rejected.
    pub fn from_str(value: &str) -> (r: Result<TiffByteOrder, TiffError>)
        ensures
            r == spec_byte_order_from_str(value@),
    {
        proof {
            reveal_strlit("II");
            reveal_strlit("MM");
        }
        let len = value.unicode_len();
        if len == 2 {
            let c0 = value.get_char(0);
            let c1 = value.get_char(1);
            if c0 == 'I' && c1 == 'I' {
                proof {
                    assert(value@ =~= "II"@);
                }
                return Ok(TiffByteOrder::LittleEndian);
            }
            if c0 == 'M' && c1 == 'M' {
                proof {
                    assert(value@ =~= "MM"@);
                }
                return Ok(TiffByteOrder::BigEndian);
            }
        }
        Err(TiffError::InvalidByteOrderMarker)
    }

    /// The 16-bit magic value of this byte order.
    pub fn to_u16(&self) -> (r: u16)
        ensures
            r == spec_byte_order_to_u16(*self),
    {
        match self {
            TiffByteOrder::LittleEndian => 0x4949,
            TiffByteOrder::BigEndian => 0x4D4D,
        }
    }

    /// The two-character ASCII marker of this byte order.
    pub fn to_str(&self) -> (r: &str)
        ensures
            r@ == spec_byte_order_to_str(*self),
    {
        match self {
            TiffByteOrder::LittleEndian => "II",
            TiffByteOrder::BigEndian => "MM",
        }
    }
}

/// Every byte order round-trips through its 16-bit marker value.
pub proof fn lemma_byte_order_u16_round_trip(order: TiffByteOrder)
    ensures
        spec_byte_order_from_u16(spec_byte_order_to_u16(order)) == Ok::<TiffByteOrder, TiffError>(
            order,
        ),
{
}

/// Every byte order round-trips through its two-character marker.
pub proof fn lemma_byte_order_str_round_trip(order: TiffByteOrder)
    ensures
        spec_byte_order_from_str(spec_byte_order_to_str(order)) == Ok::<TiffByteOrder, TiffError>(
            order,
        ),
{
    reveal_strlit("II");
    reveal_strlit("MM");
    assert("II"@[0] == 'I' && "MM"@[0] == 'M');
}

/// A 16-bit marker value decodes exactly when it is one of the two magic
/// values; everything else is rejected with `InvalidByteOrderMarker`.
pub proof fn lemma_byte_order_u16_rejection(value: u16)
    requires
        value != 0x4949,
        value != 0x4D4D,
    ensures
        spec_byte_order_from_u16(value) == Err::<TiffByteOrder, TiffError>(
            TiffError::InvalidByteOrderMarker,
        ),
{
}

/// A character sequence decodes exactly when it is one of the two markers;
/// everything else is rejected with `InvalidByteOrderMarker`.
pub proof fn lemma_byte_order_str_rejection(value: Seq<char>)
    requires
        value != "II"@,
        value != "MM"@,
    ensures
        spec_byte_order_from_str(value) == Err::<TiffByteOrder, TiffError>(
            TiffError::InvalidByteOrderMarker,
        ),
{
}

/// Data type of the values carried by one directory entry, TIFF codes
/// 1 through 12.
#[derive(Clone, Copy, Debug, PartialEq, Eq, Structural)]
pub enum TiffDataType {
    Byte,
    Ascii,
    Short,
    Long,
    Rational,
    SByte,
    Undefined,
    SShort,
    SLong,
    SRational,
    Float,
    Double,
}

/// What `TiffDataType::from_u16` returns for each 16-bit type code.
pub open spec fn spec_data_type_from_u16(value: u16) -> Result<TiffDataType, TiffError> {
    if value == 1 {
        Ok(TiffDataType::Byte)
    } else if value == 2 {
        Ok(TiffDataType::Ascii)
    } else if value == 3 {
        Ok(TiffDataType::Short)
    } else if value == 4 {
        Ok(TiffDataType::Long)
    } else if value == 5 {
        Ok(TiffDataType::Rational)
    } else if value == 6 {
        Ok(TiffDataType::SByte)
    } else if value == 7 {
        Ok(TiffDataType::Undefined)
    } else if value == 8 {
        Ok(TiffDataType::SShort)
    } else if value == 9 {
        Ok(TiffDataType::SLong)
    } else if value == 10 {
        Ok(TiffDataType::SRational)
    } else if value == 11 {
        Ok(TiffDataType::Float)
    } else if value == 12 {
        Ok(TiffDataType::Double)
    } else {
        Err(TiffError::UnknownDataType)
    }
}

/// The 16-bit code of a data type.
pub open spec fn spec_data_type_to_u16(data_type: TiffDataType) -> u16 {
    match data_type {
        TiffDataType::Byte => 1,
        TiffDataType::Ascii => 2,
        TiffDataType::Short => 3,
        TiffDataType::Long => 4,
        TiffDataType::Rational => 5,
        TiffDataType::SByte => 6,
        TiffDataType::Undefined => 7,
        TiffDataType::SShort => 8,
        TiffDataType::SLong => 9,
        TiffDataType::SRational => 10,
        TiffDataType::Float => 11,
        TiffDataType::Double => 12,
    }
}

impl TiffDataType {
    /// Decodes a 16-bit field-type code; codes outside 1..=12 are rejected.
    pub fn from_u16(value: u16) -> (r: Result<TiffDataType, TiffError>)
        ensures
            r == spec_data_type_from_u16(value),
    {
        match value {
            1 => Ok(TiffDataType::Byte),
            2 => Ok(TiffDataType::Ascii),
            3 => Ok(TiffDataType::Short),
            4 => Ok(TiffDataType::Long),
            5 => Ok(TiffDataType::Rational),
            6 => Ok(TiffDataType::SByte),
            7 => Ok(TiffDataType::Undefined),
            8 => Ok(TiffDataType::SShort),
            9 => Ok(TiffDataType::SLong),
            10 => Ok(TiffDataType::SRational),
            11 => Ok(TiffDataType::Float),
            12 => Ok(TiffDataType::Double),
            _ => Err(TiffError::UnknownDataType),
        }
    }

    /// The 16-bit code of this data type; every data type has one.
    pub fn to_u16(&self) -> (r: u16)
        ensures
            r == spec_data_type_to_u16(*self),
    {
        match self {
            TiffDataType::Byte => 1,
            TiffDataType::Ascii => 2,
            TiffDataType::Short => 3,
            TiffDataType::Long => 4,
            TiffDataType::Rational => 5,
            TiffDataType::SByte => 6,
            TiffDataType::Undefined => 7,
            TiffDataType::SShort => 8,
            TiffDataType::SLong => 9,
            TiffDataType::SRational => 10,
            TiffDataType::Float => 11,
            TiffDataType::Double => 12,
        }
    }
}

/// Every data type round-trips through its 16-bit code.
pub proof fn lemma_data_type_round_trip(data_type: TiffDataType)
    ensures
        spec_data_type_from_u16(spec_data_type_to_u16(data_type)) == Ok::<
            TiffDataType,
            TiffError,
        >(data_type),
{
}

/// Every valid code 1..=12 round-trips through its data type, and every code
/// outside that range is rejected with `UnknownDataType`.
pub proof fn lemma_data_type_code_round_trip(value: u16)
    ensures
        1 <= value <= 12 ==> (spec_data_type_from_u16(value) matches Ok(t)
            && spec_data_type_to_u16(t) == value),
        !(1 <= value <= 12) ==> spec_data_type_from_u16(value) == Err::<TiffDataType, TiffError>(
            TiffError::UnknownDataType,
        ),
{
}

/// Known TIFF metadata field identifiers. The declared set is wider than the
/// registered numeric mapping: variants outside the registered subset carry
/// no code, cannot be produced by `from_u16` and are rejected by `to_u16`.
#[derive(Clone, Copy, Debug, PartialEq, Eq, Structural)]
pub enum TiffTag {
    ImageWidth,
    ImageLength,
    BitsPerSample,
    Compression,
    PhotometricInterpretation,
    StripOffsets,
    RowsPerStrip,
    StripByteCounts,
    XResolution,
    YResolution,
    ResolutionUnit,
    ColorMap,
    ExtraSamples,
    SampleFormat,
    TransferFunction,
    Software,
    DateTime,
    Artist,
    HostComputer,
    Predictor,
    WhitePoint,
    PrimaryChromaticities,
    ColorMapBitDepth,
    TileWidth,
    TileLength,
    TileOffsets,
    TileByteCounts,
    SubIFDs,
    InkSet,
    InkNames,
    NumberOfInks,
    DotRange,
    TargetPrinter,
    ExtraSamples2,
    SampleFormat2,
    TransferFunction2,
    JPEGTables,
    OFBData,
    NewSubFileType,
    SubIFDOffset,
    ImageLayer,
    End,
}

/// Whether a 16-bit tag code belongs to the registered tag set.
pub open spec fn spec_tag_code_registered(value: u16) -> bool {
    ||| value == 256
    ||| value == 257
    ||| value == 258
    ||| value == 259
    ||| value == 262
    ||| value == 273
    ||| value == 278
    ||| value == 279
    ||| value == 282
    ||| value == 283
    ||| value == 296
    ||| value == 301
    ||| value == 305
    ||| value == 306
    ||| value == 315
    ||| value == 316
    ||| value == 317
    ||| value == 318
    ||| value == 319
    ||| value == 320
    ||| value == 338
    ||| value == 339
}

/// What `TiffTag::from_u16` returns for each 16-bit tag code.
pub open spec fn spec_tag_from_u16(value: u16) -> Result<TiffTag, TiffError> {
    if value == 256 {
        Ok(TiffTag::ImageWidth)
    } else if value == 257 {
        Ok(TiffTag::ImageLength)
    } else if value == 258 {
        Ok(TiffTag::BitsPerSample)
    } else if value == 259 {
        Ok(TiffTag::Compression)
    } else if value == 262 {
        Ok(TiffTag::PhotometricInterpretation)
    } else if value == 273 {
        Ok(TiffTag::StripOffsets)
    } else if value == 278 {
        Ok(TiffTag::RowsPerStrip)
    } else if value == 279 {
        Ok(TiffTag::StripByteCounts)
    } else if value == 282 {
        Ok(TiffTag::XResolution)
    } else if value == 283 {
        Ok(TiffTag::YResolution)
    } else if value == 296 {
        Ok(TiffTag::ResolutionUnit)
    } else if value == 301 {
        Ok(TiffTag::TransferFunction)
    } else if value == 305 {
        Ok(TiffTag::Software)
    } else if value == 306 {
        Ok(TiffTag::DateTime)
    } else if value == 315 {
        Ok(TiffTag::Artist)
    } else if value == 316 {
        Ok(TiffTag::HostComputer)
    } else if value == 317 {
        Ok(TiffTag::Predictor)
    } else if value == 318 {
        Ok(TiffTag::WhitePoint)
    } else if value == 319 {
        Ok(TiffTag::PrimaryChromaticities)
    } else if value == 320 {
        Ok(TiffTag::ColorMap)
    } else if value == 338 {
        Ok(TiffTag::ExtraSamples)
    } else if value == 339 {
        Ok(TiffTag::SampleFormat)
    } else {
        Err(TiffError::UnknownTag)
    }
}

/// What `TiffTag::to_u16` returns for each tag: the registered code, or
/// `UnknownTag` for a variant outside the registered subset.
pub open spec fn spec_tag_to_u16(tag: TiffTag) -> Result<u16, TiffError> {
    match tag {
        TiffTag::ImageWidth => Ok(256),
        TiffTag::ImageLength => Ok(257),
        TiffTag::BitsPerSample => Ok(258),
        TiffTag::Compression => Ok(259),
        TiffTag::PhotometricInterpretation => Ok(262),
        TiffTag::StripOffsets => Ok(273),
        TiffTag::RowsPerStrip => Ok(278),
        TiffTag::StripByteCounts => Ok(279),
        TiffTag::XResolution => Ok(282),
        TiffTag::YResolution => Ok(283),
        TiffTag::ResolutionUnit => Ok(296),
        TiffTag::TransferFunction => Ok(301),
        TiffTag::Software => Ok(305),
        TiffTag::DateTime => Ok(306),
        TiffTag::Artist => Ok(315),
        TiffTag::HostComputer => Ok(316),
        TiffTag::Predictor => Ok(317),
        TiffTag::WhitePoint => Ok(318),
        TiffTag::PrimaryChromaticities => Ok(319),
        TiffTag::ColorMap => Ok(320),
        TiffTag::ExtraSamples => Ok(338),
        TiffTag::SampleFormat => Ok(339),
        _ => Err(TiffError::UnknownTag),
    }
}

impl TiffTag {
    /// Decodes a 16-bit tag code; every code outside the registered set is
    /// rejected.
    pub fn from_u16(value: u16) -> (r: Result<TiffTag, TiffError>)
        ensures
            r == spec_tag_from_u16(value),
    {
        match value {
            256 => Ok(TiffTag::ImageWidth),
            257 => Ok(TiffTag::ImageLength),
            258 => Ok(TiffTag::BitsPerSample),
            259 => Ok(TiffTag::Compression),
            262 => Ok(TiffTag::PhotometricInterpretation),
            273 => Ok(TiffTag::StripOffsets),
            278 => Ok(TiffTag::RowsPerStrip),
            279 => Ok(TiffTag::StripByteCounts),
            282 => Ok(TiffTag::XResolution),
            283 => Ok(TiffTag::YResolution),
            296 => Ok(TiffTag::ResolutionUnit),
            301 => Ok(TiffTag::TransferFunction),
            305 => Ok(TiffTag::Software),
            306 => Ok(TiffTag::DateTime),
            315 => Ok(TiffTag::Artist),
            316 => Ok(TiffTag::HostComputer),
            317 => Ok(TiffTag::Predictor),
            318 => Ok(TiffTag::WhitePoint),
            319 => Ok(TiffTag::PrimaryChromaticities),
            320 => Ok(TiffTag::ColorMap),
            338 => Ok(TiffTag::ExtraSamples),
            339 => Ok(TiffTag::SampleFormat),
            _ => Err(TiffError::UnknownTag),
        }
    }

    /// The registered 16-bit code of this tag; a variant without one is
    /// rejected.
    pub fn to_u16(&self) -> (r: Result<u16, TiffError>)
        ensures
            r == spec_tag_to_u16(*self),
    {
        match self {
            TiffTag::ImageWidth => Ok(256),
            TiffTag::ImageLength => Ok(257),
            TiffTag::BitsPerSample => Ok(258),
            TiffTag::Compression => Ok(259),
            TiffTag::PhotometricInterpretation => Ok(262),
            TiffTag::StripOffsets => Ok(273),
            TiffTag::RowsPerStrip => Ok(278),
            TiffTag::StripByteCounts => Ok(279),
            TiffTag::XResolution => Ok(282),
            TiffTag::YResolution => Ok(283),
            TiffTag::ResolutionUnit => Ok(296),
            TiffTag::TransferFunction => Ok(301),
            TiffTag::Software => Ok(305),
            TiffTag::DateTime => Ok(306),
            TiffTag::Artist => Ok(315),
            TiffTag::HostComputer => Ok(316),
            TiffTag::Predictor => Ok(317),
            TiffTag::WhitePoint => Ok(318),
            TiffTag::PrimaryChromaticities => Ok(319),
            TiffTag::ColorMap => Ok(320),
            TiffTag::ExtraSamples => Ok(338),
            TiffTag::SampleFormat => Ok(339),
            _ => Err(TiffError::UnknownTag),
        }
    }
}

/// Every tag with a registered code round-trips through that code.
pub proof fn lemma_tag_round_trip(tag: TiffTag)
    requires
        spec_tag_to_u16(tag) is Ok,
    ensures
        spec_tag_from_u16(spec_tag_to_u16(tag).unwrap()) == Ok::<TiffTag, TiffError>(tag),
{
}

/// Every registered tag code round-trips through its tag, and every code
/// outside the registered set is rejected with `UnknownTag`.
pub proof fn lemma_tag_code_round_trip(value: u16)
    ensures
        spec_tag_code_registered(value) ==> (spec_tag_from_u16(value) matches Ok(t)
            && spec_tag_to_u16(t) == Ok::<u16, TiffError>(value)),
        !spec_tag_code_registered(value) ==> spec_tag_from_u16(value) == Err::<TiffTag, TiffError>(
            TiffError::UnknownTag,
        ),
{
}

/// The TIFF classic version code carried by every conforming header.
pub const TIFF_VERSION: u16 = 42;

/// The 8-byte file prologue: byte-order marker, version (always 42 for
/// classic TIFF) and the absolute offset of the first IFD.
#[derive(Clone, Copy, Debug, PartialEq, Eq, Structural)]
pub struct TiffHeader {
    pub byte_order: TiffByteOrder,
    pub version: u16,
    pub first_ifd_offset: u32,
}

impl TiffHeader {
    /// Builds a header with the classic version code 42; any offset value is
    /// accepted.
    pub fn new(byte_order: TiffByteOrder, first_ifd_offset: u32) -> (h: TiffHeader)
        ensures
            h == (TiffHeader { byte_order, version: TIFF_VERSION, first_ifd_offset }),
    {
        TiffHeader { byte_order, version: TIFF_VERSION, first_ifd_offset }
    }
}

/// One 12-byte directory record: tag, field data type, value count, and the
/// undifferentiated value-or-offset word. Whether `value_offset` holds the
/// value inline or points at it depends on the byte size of
/// `field_type` times `count`, which this layer does not resolve.
#[derive(Clone, Copy, Debug, PartialEq, Eq, Structural)]
pub struct TiffIfdEntry {
    pub tag: TiffTag,
    pub field_type: TiffDataType,
    pub count: u32,
    pub value_offset: u32,
}

/// One Image File Directory: the declared entry count, the entries in
/// on-disk order, and the offset of the next IFD (0 marks the end of the
/// chain).
#[derive(Debug, PartialEq, Eq)]
pub struct TiffIfd {
    pub num_entries: u16,
    pub directory_entries: Vec<TiffIfdEntry>,
    pub next_ifd_offset: u32,
}

/// Mathematical image of a `TiffIfd`: the entries as a sequence.
#[verifier::ext_equal]
pub ghost struct IfdView {
    pub num_entries: u16,
    pub directory_entries: Seq<TiffIfdEntry>,
    pub next_ifd_offset: u32,
}

impl View for TiffIfd {
    type V = IfdView;

    open spec fn view(&self) -> IfdView {
        IfdView {
            num_entries: self.num_entries,
            directory_entries: self.directory_entries@,
            next_ifd_offset: self.next_ifd_offset,
        }
    }
}

impl TiffIfd {
    /// A directory is well formed when it holds exactly as many entries as
    /// its declared count.
    pub open spec fn well_formed(&self) -> bool {
        self.directory_entries@.len() == self.num_entries
    }
}

/// Top-level parsed artifact: the header and the decoded IFD chain in file
/// order.
#[derive(Debug, PartialEq, Eq)]
pub struct TiffFile {
    pub header: TiffHeader,
    pub ifds: Vec<TiffIfd>,
}

/// The sequence of directory views of a sequence of directories.
pub open spec fn spec_ifd_views(ifds: Seq<TiffIfd>) -> Seq<IfdView> {
    ifds.map_values(|ifd: TiffIfd| ifd@)
}

/// Mathematical image of a `TiffFile`: the header and the views of its IFDs.
#[verifier::ext_equal]
pub ghost struct FileView {
    pub header: TiffHeader,
    pub ifds: Seq<IfdView>,
}

impl View for TiffFile {
    type V = FileView;

    open spec fn view(&self) -> FileView {
        FileView { header: self.header, ifds: spec_ifd_views(self.ifds@) }
    }
}

impl TiffFile {
    /// Builds a file around a fresh header, with no IFDs decoded yet.
    pub fn new(byte_order: TiffByteOrder, first_ifd_offset: u32) -> (f: TiffFile)
        ensures
            f.header == (TiffHeader { byte_order, version: TIFF_VERSION, first_ifd_offset }),
            f.ifds@ == Seq::<TiffIfd>::empty(),
    {
        let f = TiffFile { header: TiffHeader::new(byte_order, first_ifd_offset), ifds: Vec::new() };
        proof {
            assert(f.ifds@ =~= Seq::<TiffIfd>::empty());
        }
        f
    }
}

} // verus!
