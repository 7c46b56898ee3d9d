//! Lossless tile compression.

use crate::bytes;
use vstd::prelude::*;

verus! {

/// The error of an input or output operation, which `zstd` reports.
#[verifier::external_type_specification]
#[verifier::external_body]
pub struct ExIoError(std::io::Error);

/// How the bytes of an encoded tile are to be read.
#[derive(Debug, Clone, Copy, PartialEq, Eq, Structural)]
pub enum TileEncoding {
    /// The pixels as they are.
    Raw,
    /// A zstd frame that holds the pixels.
    Zstd,
}

/// A part of the screen that changed, with its pixels.
#[derive(Debug, Clone, PartialEq, Eq)]
pub struct DirtyTile {
    pub tile_x: u32,
    pub tile_y: u32,
    pub pixel_width: u32,
    pub pixel_height: u32,
    pub data: Vec<u8>,
}

/// A changed part of the screen, ready to be sent.
#[derive(Debug, Clone, PartialEq, Eq)]
pub struct EncodedTile {
    pub tile_x: u32,
    pub tile_y: u32,
    pub pixel_width: u32,
    pub pixel_height: u32,
    pub encoding: TileEncoding,
    pub data: Vec<u8>,
}

/// Why tiles could not be encoded or decoded.
#[derive(Debug)]
pub enum TileError {
    /// The compressor failed.
    Compress(std::io::Error),
    /// The decompressor failed.
    Decompress(std::io::Error),
}

/// The zstd frame that `zstd::encode_all` makes of `data` at `level`.
pub uninterp spec fn zstd_frame(data: Seq<u8>, level: i32) -> Seq<u8>;

/// The bytes that `zstd::decode_all` makes of a frame that it can decode.
pub uninterp spec fn zstd_content(frame: Seq<u8>) -> Seq<u8>;

/// `tile` encoded, where `compressed` are its compressed pixels: they are sent
/// only if they are shorter than the pixels.
pub open spec fn is_encoding_of(out: EncodedTile, tile: DirtyTile, compressed: Seq<u8>) -> bool {
    &&& out.tile_x == tile.tile_x
    &&& out.tile_y == tile.tile_y
    &&& out.pixel_width == tile.pixel_width
    &&& out.pixel_height == tile.pixel_height
    &&& if compressed.len() < tile.data@.len() {
        out.encoding == TileEncoding::Zstd && out.data@ == compressed
    } else {
        out.encoding == TileEncoding::Raw && out.data@ == tile.data@
    }
}

/// Calls `zstd::encode_all`. What it returns on success depends on the bytes
/// and the level alone, and is called `zstd_frame`. It fails when the
/// compressor cannot be set up, which the arguments do not decide. The compression
/// loses nothing: decompressed, the frame gives the bytes again.
#[verifier::external_body]
fn compress(data: &[u8], level: i32) -> (out: Result<Vec<u8>, std::io::Error>)
    ensures
        out is Ok ==> out->Ok_0@ == zstd_frame(data@, level),
        out is Ok ==> zstd_content(out->Ok_0@) == data@,
{
    ::zstd::encode_all(data, level)
}

/// Calls `zstd::decode_all`. What it returns on success depends on the bytes alone, and
/// is called `zstd_content`. Which frames it decodes is not said.
#[verifier::external_body]
fn decompress(frame: &[u8]) -> (out: Result<Vec<u8>, std::io::Error>)
    ensures
        out is Ok ==> out->Ok_0@ == zstd_content(frame@),
{
    ::zstd::decode_all(frame)
}

/// The pixels that an encoded tile stands for.
pub open spec fn tile_pixels(tile: EncodedTile) -> Seq<u8> {
    if tile.encoding == TileEncoding::Zstd {
        zstd_content(tile.data@)
    } else {
        tile.data@
    }
}

/// The pixels of an encoded tile.
pub fn decode_tile(tile: &EncodedTile) -> (out: Result<Vec<u8>, TileError>)
    ensures
        out is Ok ==> out->Ok_0@ == tile_pixels(*tile),
        tile.encoding == TileEncoding::Raw ==> out is Ok,
{
    match tile.encoding {
        TileEncoding::Raw => Ok(bytes::copy_all(tile.data.as_slice())),
        TileEncoding::Zstd => match decompress(tile.data.as_slice()) {
            Ok(pixels) => Ok(pixels),
            Err(e) => Err(TileError::Decompress(e)),
        },
    }
}

/// Choose between the compressed pixels of `tile` and the pixels themselves.
pub fn encode_tile(tile: &DirtyTile, compressed: Vec<u8>) -> (out: EncodedTile)
    ensures
        is_encoding_of(out, *tile, compressed@),
{
    let (data, encoding) = if compressed.len() < tile.data.len() {
        (compressed, TileEncoding::Zstd)
    } else {
        (bytes::copy_all(tile.data.as_slice()), TileEncoding::Raw)
    };
    EncodedTile {
        tile_x: tile.tile_x,
        tile_y: tile.tile_y,
        pixel_width: tile.pixel_width,
        pixel_height: tile.pixel_height,
        encoding,
        data,
    }
}

/// The tiles are encoded one for one, and none loses a pixel.
pub open spec fn are_encodings_of(
    out: Seq<EncodedTile>,
    tiles: Seq<DirtyTile>,
    level: i32,
) -> bool {
    &&& out.len() == tiles.len()
    &&& forall|i: int|
        0 <= i < tiles.len() ==> is_encoding_of(
            #[trigger] out[i],
            tiles[i],
            zstd_frame(tiles[i].data@, level),
        ) && tile_pixels(out[i]) == tiles[i].data@
}

/// Lossless encoder on the processor. Typical screen content shrinks to a
/// third or less.
#[derive(Debug)]
pub struct ZstdEncoder {
    /// Compression level, 1 to 22; 3 is usual.
    level: i32,
}

impl ZstdEncoder {
    /// The compression level.
    pub closed spec fn level(&self) -> i32 {
        self.level
    }

    /// An encoder that compresses at `level`.
    pub fn new(level: i32) -> (encoder: Self)
        ensures
            encoder.level() == level,
    {
        Self { level }
    }

    /// Encode each tile in turn. The first tile that cannot be compressed ends
    /// the work with its error.
    pub fn encode_tiles(&mut self, tiles: &[DirtyTile]) -> (out: Result<Vec<EncodedTile>, TileError>)
        ensures
            final(self).level() == old(self).level(),
            tiles@.len() == 0 ==> out is Ok,
            out is Ok ==> out->Ok_0@.len() == tiles@.len(),
            out is Ok ==> forall|i: int|
                #![trigger out->Ok_0@[i]]
                0 <= i < tiles@.len() ==> is_encoding_of(
                    out->Ok_0@[i],
                    tiles@[i],
                    zstd_frame(tiles@[i].data@, old(self).level()),
                ) && tile_pixels(out->Ok_0@[i]) == tiles@[i].data@,
            out is Ok ==> are_encodings_of(out->Ok_0@, tiles@, old(self).level()),
    {
        let mut encoded: Vec<EncodedTile> = Vec::with_capacity(tiles.len());
        let mut i: usize = 0;
        while i < tiles.len()
            invariant
                i <= tiles@.len(),
                encoded@.len() == i,
                self.level == old(self).level,
                forall|j: int|
                    #![trigger encoded@[j]]
                    0 <= j < i ==> is_encoding_of(
                        encoded@[j],
                        tiles@[j],
                        zstd_frame(tiles@[j].data@, self.level),
                    ) && tile_pixels(encoded@[j]) == tiles@[j].data@,
            decreases tiles@.len() - i,
        {
            let tile = &tiles[i];
            match compress(tile.data.as_slice(), self.level) {
                Ok(compressed) => encoded.push(encode_tile(tile, compressed)),
                Err(e) => return Err(TileError::Compress(e)),
            }
            i += 1;
        }
        Ok(encoded)
    }
}

/// An encoded tile is never longer than the pixels of the tile, and keeps its
/// place on the screen.
pub proof fn law_encoded_tile_never_grows(out: EncodedTile, tile: DirtyTile, compressed: Seq<u8>)
    requires
        is_encoding_of(out, tile, compressed),
    ensures
        out.data@.len() <= tile.data@.len(),
        out.tile_x == tile.tile_x && out.tile_y == tile.tile_y,
{
}

/// Encoding loses nothing: what decodes again are the pixels of the tile.
pub proof fn law_tiles_are_lossless(out: EncodedTile, tile: DirtyTile, compressed: Seq<u8>)
    requires
        is_encoding_of(out, tile, compressed),
        zstd_content(compressed) == tile.data@,
    ensures
        tile_pixels(out) == tile.data@,
{
}

/// A tile goes out compressed exactly if that is shorter, with the size and place that it
/// had.
pub proof fn law_shorter_form_is_sent(tile: DirtyTile, compressed: Vec<u8>, out: EncodedTile)
    requires
        call_ensures(encode_tile, (&tile, compressed), out),
    ensures
        out.encoding is Zstd <==> compressed@.len() < tile.data@.len(),
        out.encoding is Zstd ==> out.data@ == compressed@,
        out.encoding is Raw ==> out.data@ == tile.data@,
        out.data@.len() <= compressed@.len() && out.data@.len() <= tile.data@.len(),
        out.tile_x == tile.tile_x && out.tile_y == tile.tile_y,
        out.pixel_width == tile.pixel_width && out.pixel_height == tile.pixel_height,
{
}

/// A tile that was encoded by an encoder, whatever its level, decodes to its pixels, and
/// one that is sent as it is always decodes.
pub proof fn law_tiles_decode_to_their_pixels(
    tiles: &[DirtyTile],
    level: i32,
    encoder: ZstdEncoder,
    tile: EncodedTile,
    decoded: Result<Vec<u8>, TileError>,
)
    requires
        call_ensures(ZstdEncoder::new, (level,), encoder),
        call_ensures(decode_tile, (&tile,), decoded),
    ensures
        encoder.level() == level,
        tile.encoding is Raw ==> decoded is Ok && decoded->Ok_0@ == tile.data@,
        decoded is Ok && tile.encoding is Zstd ==> decoded->Ok_0@ == zstd_content(tile.data@),
        forall|e: &mut ZstdEncoder, out: Result<Vec<EncodedTile>, TileError>| #[trigger]
            call_ensures(ZstdEncoder::encode_tiles, (e, tiles), out) ==> {
                &&& (*final(e)).level() == (*e).level()
                &&& out is Ok ==> out->Ok_0@.len() == tiles@.len()
                &&& tiles@.len() == 0 ==> out is Ok
                &&& out is Ok ==> forall|i: int|
                    0 <= i < tiles@.len() ==> {
                        let (made, tile) = (#[trigger] out->Ok_0@[i], tiles@[i]);
                        &&& made.tile_x == tile.tile_x && made.tile_y == tile.tile_y
                        &&& made.pixel_width == tile.pixel_width && made.pixel_height
                            == tile.pixel_height
                        &&& made.data@.len() <= tile.data@.len()
                        &&& made.encoding is Raw ==> made.data@ == tile.data@
                        &&& made.encoding is Zstd ==> zstd_content(made.data@) == tile.data@
                    }
            },
{
}

} // verus!
