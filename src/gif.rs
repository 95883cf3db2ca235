use vstd::prelude::*;
use vstd::utf8::{decode_utf8, valid_utf8};

use crate::color::Color;

verus! {

/// The two versions of the format that the decoder accepts.
#[derive(Clone, Copy, Debug, PartialEq, Eq, Structural)]
pub enum GifVersion {
    V87a,
    V89a,
}

/// Why a header could not be decoded.
#[derive(Debug, PartialEq, Eq)]
pub enum GifError {
    /// The input ended before the header did.
    Io,
    /// The signature is not `GIF`, the version is not text, or the color
    /// table is not made of whole triples.
    InvalidFormat,
    /// The signature is right but the version is neither `87a` nor `89a`;
    /// carries the version text.
    UnsupportedVersion(String),
}

/// What a `GifError` says, with the version text as characters.
pub enum GifErrorModel {
    Io,
    InvalidFormat,
    UnsupportedVersion(Seq<char>),
}

impl View for GifError {
    type V = GifErrorModel;

    open spec fn view(&self) -> GifErrorModel {
        match self {
            GifError::Io => GifErrorModel::Io,
            GifError::InvalidFormat => GifErrorModel::InvalidFormat,
            GifError::UnsupportedVersion(s) => GifErrorModel::UnsupportedVersion(s@),
        }
    }
}

/// A result whose error is replaced by its model.
pub open spec fn result_model<T>(r: Result<T, GifError>) -> Result<T, GifErrorModel> {
    match r {
        Ok(v) => Ok(v),
        Err(e) => Err(e@),
    }
}

/// Whether `b[i..i + 3]` spells the three given bytes.
pub open spec fn spells(b: Seq<u8>, i: int, x: u8, y: u8, z: u8) -> bool {
    b[i] == x && b[i + 1] == y && b[i + 2] == z
}

/// The first three bytes are `GIF`.
pub open spec fn has_signature(b: Seq<u8>) -> bool {
    spells(b, 0, 0x47, 0x49, 0x46)
}

/// The three bytes after the signature.
pub open spec fn version_bytes(b: Seq<u8>) -> Seq<u8> {
    b.subrange(3, 6)
}

/// What decoding the six bytes of the signature and version block yields.
pub open spec fn spec_parse_version(b: Seq<u8>) -> Result<GifVersion, GifErrorModel> {
    if !has_signature(b) {
        Err(GifErrorModel::InvalidFormat)
    } else if spells(b, 3, 0x38, 0x37, 0x61) {
        Ok(GifVersion::V87a)
    } else if spells(b, 3, 0x38, 0x39, 0x61) {
        Ok(GifVersion::V89a)
    } else if valid_utf8(version_bytes(b)) {
        Err(GifErrorModel::UnsupportedVersion(decode_utf8(version_bytes(b))))
    } else {
        Err(GifErrorModel::InvalidFormat)
    }
}

/// Relies on std::str::from_utf8: it accepts exactly the well-formed UTF-8
/// byte runs, and the text it returns holds the characters they encode.
#[verifier::external_body]
fn utf8_text(b: &[u8]) -> (r: Option<String>)
    ensures
        r is Some <==> valid_utf8(b@),
        r matches Some(s) ==> s@ == decode_utf8(b@),
{
    std::str::from_utf8(b).ok().map(|s| s.to_owned())
}

/// The fixed block of seven bytes after the signature: canvas size and the
/// packed flags that describe the global color table.
#[derive(Clone, Copy, Debug, PartialEq, Eq)]
pub struct LogicalScreenDescriptor {
    pub width: u16,
    pub height: u16,
    pub has_global_color_table: bool,
    /// Bits 4 to 6 of the packed byte, plus one: 1 to 8.
    pub color_resolution: u8,
    pub is_global_color_table_sorted: bool,
    /// Present exactly when there is a global color table.
    pub background_color_index: Option<u8>,
    /// Length in bytes of the global color table.
    pub global_color_table_size: u8,
    pub pixel_aspect_ratio: u8,
}

/// The size field of a packed byte: its bits 0 to 2.
pub open spec fn size_field(packed: u8) -> nat {
    packed as nat % 8
}

/// Bytes in a global color table whose size field is `k`: `3 * (k + 1)^2`.
pub open spec fn table_size_for(k: nat) -> nat {
    3 * ((k + 1) * (k + 1))
}

/// What decoding the seven bytes of a logical screen descriptor yields.
pub open spec fn spec_parse_lsd(b: Seq<u8>) -> LogicalScreenDescriptor {
    let packed = b[4];
    let has_table = packed >= 0x80;
    LogicalScreenDescriptor {
        width: (b[0] as nat + 0x100 * b[1] as nat) as u16,
        height: (b[2] as nat + 0x100 * b[3] as nat) as u16,
        has_global_color_table: has_table,
        color_resolution: ((packed as nat / 16) % 8 + 1) as u8,
        is_global_color_table_sorted: (packed as nat / 8) % 2 == 1,
        background_color_index: if has_table {
            Some(b[5])
        } else {
            None
        },
        global_color_table_size: table_size_for(size_field(packed)) as u8,
        pixel_aspect_ratio: b[6],
    }
}

/// The `i`-th triple of `b` as a color.
pub open spec fn color_at(b: Seq<u8>, i: int) -> Color {
    Color { red: b[3 * i], green: b[3 * i + 1], blue: b[3 * i + 2] }
}

/// The consecutive triples of `b`, in order.
pub open spec fn colors_of(b: Seq<u8>) -> Seq<Color> {
    Seq::new(b.len() / 3, |i: int| color_at(b, i))
}

/// What decoding `b` as a color table yields.
pub open spec fn spec_parse_color_table(b: Seq<u8>) -> Result<Seq<Color>, GifErrorModel> {
    if b.len() % 3 != 0 {
        Err(GifErrorModel::InvalidFormat)
    } else {
        Ok(colors_of(b))
    }
}

/// A decoded color table with its error replaced by its model.
pub open spec fn table_result_model(r: Result<Vec<Color>, GifError>) -> Result<
    Seq<Color>,
    GifErrorModel,
> {
    match r {
        Ok(v) => Ok(v@),
        Err(e) => Err(e@),
    }
}

/// A decoded header.
#[derive(Debug, PartialEq, Eq)]
pub struct Gif {
    pub version: GifVersion,
    pub lsd: LogicalScreenDescriptor,
    pub global_color_table: Option<Vec<Color>>,
}

/// A decoded header with its color table as a sequence.
pub struct GifModel {
    pub version: GifVersion,
    pub lsd: LogicalScreenDescriptor,
    pub global_color_table: Option<Seq<Color>>,
}

impl View for Gif {
    type V = GifModel;

    open spec fn view(&self) -> GifModel {
        GifModel {
            version: self.version,
            lsd: self.lsd,
            global_color_table: match self.global_color_table {
                Some(t) => Some(t@),
                None => None,
            },
        }
    }
}

/// Bytes of the header that `lsd` describes: signature, descriptor and table.
pub open spec fn header_len_of(lsd: LogicalScreenDescriptor) -> nat {
    13 + if lsd.has_global_color_table {
        lsd.global_color_table_size as nat
    } else {
        0
    }
}

/// What decoding the header at the start of `b` yields.
pub open spec fn spec_parse(b: Seq<u8>) -> Result<GifModel, GifErrorModel> {
    if b.len() < 6 {
        Err(GifErrorModel::Io)
    } else {
        match spec_parse_version(b.subrange(0, 6)) {
            Err(e) => Err(e),
            Ok(version) => if b.len() < 13 {
                Err(GifErrorModel::Io)
            } else {
                let lsd = spec_parse_lsd(b.subrange(6, 13));
                if !lsd.has_global_color_table {
                    Ok(GifModel { version, lsd, global_color_table: None })
                } else if b.len() < header_len_of(lsd) {
                    Err(GifErrorModel::Io)
                } else {
                    match spec_parse_color_table(b.subrange(13, header_len_of(lsd) as int)) {
                        Err(e) => Err(e),
                        Ok(t) => Ok(GifModel { version, lsd, global_color_table: Some(t) }),
                    }
                }
            },
        }
    }
}

/// A decoded header with its error replaced by its model.
pub open spec fn gif_result_model(r: Result<Gif, GifError>) -> Result<GifModel, GifErrorModel> {
    match r {
        Ok(g) => Ok(g@),
        Err(e) => Err(e@),
    }
}

impl Gif {
    /// The color table is present exactly when the descriptor announces
    /// one, and then holds the announced number of bytes; the background
    /// color index is present exactly when the table is.
    pub open spec fn wf(&self) -> bool {
        &&& (self.global_color_table is Some) == self.lsd.has_global_color_table
        &&& (self.lsd.background_color_index is Some) == self.lsd.has_global_color_table
        &&& self.global_color_table matches Some(t) ==> 3 * t@.len()
            == self.lsd.global_color_table_size
    }

    /// Bytes that the header occupies in its source: 6 for the version
    /// block, 7 for the descriptor, and the table's bytes if it is present.
    pub fn header_len(&self) -> (r: usize)
        ensures
            r == header_len_of(self.lsd),
    {
        if self.lsd.has_global_color_table {
            13 + self.lsd.global_color_table_size as usize
        } else {
            13
        }
    }

    /// Decodes the signature and version block.
    pub fn parse_version(bytes: &[u8; 6]) -> (r: Result<GifVersion, GifError>)
        ensures
            result_model(r) == spec_parse_version(bytes@),
    {
        if !(bytes[0] == 0x47 && bytes[1] == 0x49 && bytes[2] == 0x46) {
            return Err(GifError::InvalidFormat);
        }
        if bytes[3] == 0x38 && bytes[4] == 0x37 && bytes[5] == 0x61 {
            return Ok(GifVersion::V87a);
        }
        if bytes[3] == 0x38 && bytes[4] == 0x39 && bytes[5] == 0x61 {
            return Ok(GifVersion::V89a);
        }
        let tail: [u8; 3] = [bytes[3], bytes[4], bytes[5]];
        assert(tail@ =~= version_bytes(bytes@));
        match utf8_text(tail.as_slice()) {
            Some(text) => Err(GifError::UnsupportedVersion(text)),
            None => Err(GifError::InvalidFormat),
        }
    }

    /// Decodes the logical screen descriptor; every bit pattern is valid.
    pub fn parse_logical_screen_descriptor(bytes: &[u8; 7]) -> (r: Result<
        LogicalScreenDescriptor,
        GifError,
    >)
        ensures
            r == Ok::<LogicalScreenDescriptor, GifError>(spec_parse_lsd(bytes@)),
    {
        let (b0, b1, b2, b3) = (bytes[0], bytes[1], bytes[2], bytes[3]);
        let width = (b0 as u16) | ((b1 as u16) << 8u16);
        let height = (b2 as u16) | ((b3 as u16) << 8u16);
        assert(width == b0 as nat + 0x100 * b1 as nat) by (bit_vector)
            requires
                width == (b0 as u16) | ((b1 as u16) << 8u16),
        ;
        assert(height == b2 as nat + 0x100 * b3 as nat) by (bit_vector)
            requires
                height == (b2 as u16) | ((b3 as u16) << 8u16),
        ;

        let packed = bytes[4];
        let has_global_color_table = (packed & 0x80u8) == 0x80u8;
        let is_global_color_table_sorted = (packed & 0x08u8) == 0x08u8;
        let resolution_bits = (packed & 0x70u8) >> 4u8;
        let k = packed & 0x07u8;
        assert(has_global_color_table == (packed >= 0x80)
            && is_global_color_table_sorted == ((packed / 8) % 2 == 1)
            && resolution_bits == (packed / 16) % 8
            && k == packed % 8) by (bit_vector)
            requires
                resolution_bits == (packed & 0x70u8) >> 4u8,
                has_global_color_table == ((packed & 0x80u8) == 0x80u8),
                is_global_color_table_sorted == ((packed & 0x08u8) == 0x08u8),
                k == packed & 0x07u8,
        ;
        assert((k + 1) * (k + 1) <= 64) by (nonlinear_arith)
            requires
                k < 8,
        ;
        let global_color_table_size = 3 * ((k + 1) * (k + 1));
        let color_resolution = resolution_bits + 1;

        let background_color_index = if has_global_color_table {
            Some(bytes[5])
        } else {
            None
        };

        Ok(
            LogicalScreenDescriptor {
                width,
                height,
                has_global_color_table,
                color_resolution,
                is_global_color_table_sorted,
                background_color_index,
                global_color_table_size,
                pixel_aspect_ratio: bytes[6],
            },
        )
    }

    /// Splits `table` into consecutive triples, each one color in input
    /// order; a length that is not a multiple of three is rejected.
    pub fn parse_global_color_table(table: &Vec<u8>) -> (r: Result<Vec<Color>, GifError>)
        ensures
            table_result_model(r) == spec_parse_color_table(table@),
    {
        if table.len() % 3 != 0 {
            return Err(GifError::InvalidFormat);
        }
        let n = table.len() / 3;
        assert(3 * n == table@.len());
        let mut colors: Vec<Color> = Vec::with_capacity(n);
        let mut k: usize = 0;
        while k < n
            invariant
                n == table@.len() / 3,
                3 * n == table@.len(),
                table@.len() <= usize::MAX,
                k <= n,
                colors@.len() == k,
                forall|j: int| 0 <= j < k ==> colors@[j] == color_at(table@, j),
            decreases n - k,
        {
            let i = 3 * k;
            colors.push(Color { red: table[i], green: table[i + 1], blue: table[i + 2] });
            k = k + 1;
        }
        assert(colors@ =~= colors_of(table@));
        Ok(colors)
    }

    /// Decodes the header at the start of `bytes`: the version block, the
    /// logical screen descriptor, and the global color table when the
    /// descriptor announces one. Bytes after the header are not read.
    pub fn from_bytes(bytes: &[u8]) -> (r: Result<Gif, GifError>)
        ensures
            gif_result_model(r) == spec_parse(bytes@),
            r matches Ok(g) ==> g.wf() && header_len_of(g.lsd) <= bytes@.len(),
    {
        if bytes.len() < 6 {
            return Err(GifError::Io);
        }
        let head: [u8; 6] = [bytes[0], bytes[1], bytes[2], bytes[3], bytes[4], bytes[5]];
        assert(head@ =~= bytes@.subrange(0, 6));
        let version = match Gif::parse_version(&head) {
            Ok(v) => v,
            Err(e) => return Err(e),
        };
        if bytes.len() < 13 {
            return Err(GifError::Io);
        }
        let block: [u8; 7] = [
            bytes[6],
            bytes[7],
            bytes[8],
            bytes[9],
            bytes[10],
            bytes[11],
            bytes[12],
        ];
        assert(block@ =~= bytes@.subrange(6, 13));
        let lsd = match Gif::parse_logical_screen_descriptor(&block) {
            Ok(d) => d,
            Err(e) => return Err(e),
        };
        if !lsd.has_global_color_table {
            return Ok(Gif { version, lsd, global_color_table: None });
        }
        let size = lsd.global_color_table_size as usize;
        if bytes.len() - 13 < size {
            return Err(GifError::Io);
        }
        let mut table: Vec<u8> = Vec::with_capacity(size);
        let mut i: usize = 0;
        while i < size
            invariant
                13 + size <= bytes@.len(),
                bytes@.len() <= usize::MAX,
                i <= size,
                table@ =~= bytes@.subrange(13, 13 + i),
            decreases size - i,
        {
            table.push(bytes[13 + i]);
            i = i + 1;
        }
        match Gif::parse_global_color_table(&table) {
            Ok(colors) => Ok(Gif { version, lsd, global_color_table: Some(colors) }),
            Err(e) => Err(e),
        }
    }
}

} // verus!
