//! Turning arbitrary uploaded bytes into RGBA pixels, and back into PNG.
//!
//! PNG, JPEG, GIF, BMP, TIFF and WebP are decoded in-process. Everything else, the HEIC
//! of an iPhone camera above all, is left to the system's own transcoder: [`decode`] says
//! when it is needed, [`sips_exited`] and [`decode_transcoded`] read what it left behind,
//! and [`finish_decode`] puts the two attempts together.
use vstd::prelude::*;
use vstd::string::*;
use vstd::utf8::{decode_utf8, valid_utf8};
use crate::clipboard::{Image, Pixels};
use crate::text::{
    decimal, decimal_is_digits, decimal_tells_apart, decimal_text, from_utf8_lossy, position_behind,
    trim, trimmed, utf8_lossy,
};

verus! {

/// Why an image could not be read or written.
#[derive(Debug)]
pub struct ImageError(pub String);

impl View for ImageError {
    type V = Seq<char>;

    open spec fn view(&self) -> Seq<char> {
        self.0@
    }
}

impl ImageError {
    /// The message, as it is shown to a reader.
    pub fn to_string(&self) -> (res: String)
        ensures
            res@ == self@,
    {
        self.0.clone()
    }
}

/// The image error that stands for a failed file or process operation, whose text, as it
/// is shown to a reader, is `err`.
pub fn io_err(err: String) -> (res: ImageError)
    ensures
        res@ == err@,
{
    ImageError(err)
}

/// What a read gives, with its image and its error taken by their views.
pub open spec fn read_view(res: Result<Image, ImageError>) -> Result<Pixels, Seq<char>> {
    match res {
        Ok(image) => Ok(image@),
        Err(err) => Err(err@),
    }
}

/// The ASCII characters of `tag` stand in `bytes` from `offset` on.
pub open spec fn tagged(bytes: Seq<u8>, offset: int, tag: Seq<char>) -> bool {
    &&& offset + tag.len() <= bytes.len()
    &&& forall|i: int| 0 <= i < tag.len() ==> bytes[offset + i] == #[trigger] tag[i] as u8
}

/// The first bytes of every PNG file.
pub open spec fn png_signature() -> Seq<u8> {
    seq![0x89, 0x50, 0x4e, 0x47, 0x0d, 0x0a, 0x1a, 0x0a]
}

/// `bytes` begins as a file of one of the formats that are decoded in-process does.
pub open spec fn has_decodable_signature(bytes: Seq<u8>) -> bool {
    ||| png_signature().is_prefix_of(bytes)
    ||| seq![0xffu8, 0xd8, 0xff].is_prefix_of(bytes)
    ||| tagged(bytes, 0, "GIF89a"@)
    ||| tagged(bytes, 0, "GIF87a"@)
    ||| tagged(bytes, 0, "RIFF"@) && tagged(bytes, 8, "WEBP"@)
    ||| seq![0x4du8, 0x4d, 0x00, 0x2a].is_prefix_of(bytes)
    ||| seq![0x49u8, 0x49, 0x2a, 0x00].is_prefix_of(bytes)
    ||| tagged(bytes, 0, "BM"@)
}

/// `bytes` begins as a file of some known image format does, decoded in-process or not.
pub open spec fn has_known_signature(bytes: Seq<u8>) -> bool {
    ||| has_decodable_signature(bytes)
    ||| tagged(bytes, 0, "DDS "@)
    ||| seq![0x00u8, 0x00, 0x01, 0x00].is_prefix_of(bytes)
    ||| tagged(bytes, 0, "#?RADIANCE"@)
    ||| seq![0x00u8, 0x00].is_prefix_of(bytes) && tagged(bytes, 4, "ftypavif"@)
    ||| seq![0x76u8, 0x2f, 0x31, 0x01].is_prefix_of(bytes)
    ||| tagged(bytes, 0, "qoif"@)
    ||| bytes.len() >= 2 && bytes[0] == 'P' as u8 && '1' as u8 <= bytes[1] <= '7' as u8
    ||| tagged(bytes, 0, "farbfeld"@)
}

/// `bytes` is an ISO base media file, whose `ftyp` box names one of the brands under which
/// HEIF images go.
pub open spec fn heif(bytes: Seq<u8>) -> bool {
    &&& bytes.len() > 12
    &&& tagged(bytes, 4, "ftyp"@)
    &&& {
        ||| tagged(bytes, 8, "heic"@)
        ||| tagged(bytes, 8, "heix"@)
        ||| tagged(bytes, 8, "heim"@)
        ||| tagged(bytes, 8, "heis"@)
        ||| tagged(bytes, 8, "hevc"@)
        ||| tagged(bytes, 8, "mif1"@)
        ||| tagged(bytes, 8, "msf1"@)
        ||| tagged(bytes, 8, "avif"@)
    }
}

/// What tells a file upload with an image in it apart from a text upload.
pub open spec fn image_like(bytes: Seq<u8>) -> bool {
    has_known_signature(bytes) || heif(bytes)
}

/// Whether the ASCII characters of `tag` stand in `bytes` from `offset` on.
fn has_tag(bytes: &[u8], offset: usize, tag: &str) -> (res: bool)
    requires
        tag.is_ascii(),
    ensures
        res == tagged(bytes@, offset as int, tag@),
{
    let length: usize = tag.unicode_len();
    let total: usize = bytes.len();
    if total < length || total - length < offset {
        return false;
    }
    let mut i: usize = 0;
    while i < length
        invariant
            tag.is_ascii(),
            length == tag@.len(),
            offset + length <= total == bytes@.len(),
            i <= length,
            forall|j: int| 0 <= j < i ==> bytes@[offset + j] == #[trigger] tag@[j] as u8,
        decreases length - i,
    {
        if bytes[offset + i] != tag.get_ascii(i) {
            assert(bytes@[offset + i as int] != tag@[i as int] as u8);
            return false;
        }
        i += 1;
    }
    true
}

/// Whether an ISO base media file with one of the HEIF brands begins here. Such files tag
/// their brand at offset 4; `heic`, `mif1` and friends all start with an `ftyp` box.
pub fn is_heif(bytes: &[u8]) -> (res: bool)
    ensures
        res == heif(bytes@),
{
    proof {
        reveal_strlit("ftyp");
        reveal_strlit("heic");
        reveal_strlit("heix");
        reveal_strlit("heim");
        reveal_strlit("heis");
        reveal_strlit("hevc");
        reveal_strlit("mif1");
        reveal_strlit("msf1");
        reveal_strlit("avif");
    }
    bytes.len() > 12 && has_tag(bytes, 4, "ftyp") && (has_tag(bytes, 8, "heic") || has_tag(
        bytes,
        8,
        "heix",
    ) || has_tag(bytes, 8, "heim") || has_tag(bytes, 8, "heis") || has_tag(bytes, 8, "hevc")
        || has_tag(bytes, 8, "mif1") || has_tag(bytes, 8, "msf1") || has_tag(bytes, 8, "avif"))
}

/// `image::guess_format`: whether the first bytes are the signature of an image format
/// that the crate knows by its signature, whether or not it can decode it.
#[verifier::external_body]
fn format_is_known(bytes: &[u8]) -> (res: bool)
    ensures
        res == has_known_signature(bytes@),
{
    image::guess_format(bytes).is_ok()
}

/// Cheap sniff used to tell a file upload apart from a text upload.
pub fn looks_like_image(bytes: &[u8]) -> (res: bool)
    ensures
        res == image_like(bytes@),
{
    format_is_known(bytes) || is_heif(bytes)
}

/// What `image::load_from_memory` and a conversion to RGBA8 make of `bytes`: the pixels,
/// or the text of the error.
pub uninterp spec fn loaded(bytes: Seq<u8>) -> Result<Pixels, Seq<char>>;

/// `image::load_from_memory`, with `DynamicImage::to_rgba8` on what it gives: the format
/// is guessed from the first bytes, and the image is decoded into RGBA8. The outcome is a
/// function of the bytes, in a process that registers no decoder of its own with the
/// crate. The pixels fill the buffer exactly, and bytes with the signature of none of the
/// formats that are compiled in are refused.
#[verifier::external_body]
fn load(bytes: &[u8]) -> (res: Result<Image, String>)
    ensures
        match res {
            Ok(image) => loaded(bytes@) == Ok::<Pixels, Seq<char>>(image@)
                && image@.well_formed(),
            Err(text) => loaded(bytes@) == Err::<Pixels, Seq<char>>(text@),
        },
        !has_decodable_signature(bytes@) ==> res is Err,
{
    match image::load_from_memory(bytes) {
        Ok(decoded) => {
            let rgba = decoded.to_rgba8();
            Ok(Image {
                width: rgba.width() as usize,
                height: rgba.height() as usize,
                rgba: rgba.into_raw(),
            })
        },
        Err(err) => Err(err.to_string()),
    }
}

/// What `image::load_from_memory_with_format` for PNG and a conversion to RGBA8 make of
/// `bytes`: the pixels, or the text of the error.
pub uninterp spec fn loaded_png(bytes: Seq<u8>) -> Result<Pixels, Seq<char>>;

/// `image::load_from_memory_with_format` for PNG, with `DynamicImage::to_rgba8` on what it
/// gives. The outcome is a function of the bytes, and the pixels fill the buffer exactly.
#[verifier::external_body]
fn load_png(bytes: &[u8]) -> (res: Result<Image, String>)
    ensures
        match res {
            Ok(image) => loaded_png(bytes@) == Ok::<Pixels, Seq<char>>(image@)
                && image@.well_formed(),
            Err(text) => loaded_png(bytes@) == Err::<Pixels, Seq<char>>(text@),
        },
{
    match image::load_from_memory_with_format(bytes, image::ImageFormat::Png) {
        Ok(decoded) => {
            let rgba = decoded.to_rgba8();
            Ok(Image {
                width: rgba.width() as usize,
                height: rgba.height() as usize,
                rgba: rgba.into_raw(),
            })
        },
        Err(err) => Err(err.to_string()),
    }
}

/// How far decoding came in-process.
pub enum Decoding {
    /// The image.
    Done(Image),
    /// The bytes are to be transcoded; this is the text of the in-process failure.
    NeedsSips(String),
}

/// Decodes into RGBA8 as far as that can be done in-process. There is no HEIC/HEIF decoder
/// in-process, which is exactly what an iPhone hands to the share sheet; `sips` ships with
/// macOS and reads every format the OS knows, so it is asked to transcode to PNG.
pub fn decode(bytes: &[u8]) -> (res: Decoding)
    ensures
        match res {
            Decoding::Done(image) => loaded(bytes@) == Ok::<Pixels, Seq<char>>(image@)
                && image@.well_formed(),
            Decoding::NeedsSips(native) => loaded(bytes@) == Err::<Pixels, Seq<char>>(native@),
        },
        !has_decodable_signature(bytes@) ==> res is NeedsSips,
{
    match load(bytes) {
        Ok(image) => Decoding::Done(image),
        Err(native) => Decoding::NeedsSips(native),
    }
}

/// The pixels of the transcoder, or both failures in one message.
pub open spec fn fallback(
    native: Seq<char>,
    transcoded: Result<Pixels, Seq<char>>,
) -> Result<Pixels, Seq<char>> {
    match transcoded {
        Ok(pixels) => Ok(pixels),
        Err(sips) => Err(native + "; sips fallback also failed: "@ + sips),
    }
}

/// What decoding comes to once the transcoder was tried, where the in-process attempt had
/// failed with `native`.
pub fn finish_decode(native: String, transcoded: Result<Image, ImageError>) -> (res: Result<
    Image,
    ImageError,
>)
    ensures
        read_view(res) == fallback(native@, read_view(transcoded)),
        transcoded matches Ok(image) ==> (res matches Ok(same) && same.width == image.width
            && same.height == image.height && same.rgba@ == image.rgba@),
        transcoded matches Err(sips) ==> (res matches Err(err) && err.0@ == native@
            + "; sips fallback also failed: "@ + sips.0@),
{
    match transcoded {
        Ok(image) => Ok(image),
        Err(sips) => {
            let mut message = native;
            message.append("; sips fallback also failed: ");
            message.append(sips.0.as_str());
            Err(ImageError(message))
        },
    }
}

/// Whether the transcoder's output is to be read: it is where the transcoder succeeded.
/// Otherwise what it wrote to its standard error is the failure.
pub fn sips_exited(success: bool, stderr: &[u8]) -> (res: Result<(), ImageError>)
    ensures
        match res {
            Ok(()) => success,
            Err(err) => {
                &&& !success
                &&& err@ == trimmed(utf8_lossy(stderr@))
                &&& valid_utf8(stderr@) ==> err@ == trimmed(decode_utf8(stderr@))
            },
        },
{
    if !success {
        let text = from_utf8_lossy(stderr);
        return Err(ImageError(trim(text.as_str()).to_owned()));
    }
    Ok(())
}

/// Decodes the PNG that the transcoder wrote.
pub fn decode_transcoded(png: &[u8]) -> (res: Result<Image, ImageError>)
    ensures
        read_view(res) == loaded_png(png@),
        res matches Ok(image) ==> image@.well_formed(),
{
    match load_png(png) {
        Ok(image) => Ok(image),
        Err(text) => Err(ImageError(text)),
    }
}

/// The name of the scratch directory that the process `pid` uses at the time `nanos`.
pub open spec fn scratch_dir(pid: nat, nanos: nat) -> Seq<char> {
    "clipd-"@ + decimal(pid) + "-"@ + decimal(nanos)
}

/// The name of the scratch directory that the process `pid` uses at the time `nanos`.
pub fn scratch_name(pid: u32, nanos: u128) -> (res: String)
    ensures
        res@ == scratch_dir(pid as nat, nanos as nat),
        res@ == "clipd-"@ + decimal(pid as nat) + "-"@ + decimal(nanos as nat),
{
    let mut name = "clipd-".to_owned();
    name.append(decimal_text(pid as u128).as_str());
    name.append("-");
    name.append(decimal_text(nanos).as_str());
    name
}

/// The largest pixel buffer, in bytes, whose PNG file is sure to be decoded again.
pub const DECODE_LIMIT: u64 = 536870912;

/// The PNG file into which `image::ImageBuffer::write_to` turns `width` times `height`
/// pixels.
pub uninterp spec fn png_file(width: nat, height: nat, rgba: Seq<u8>) -> Seq<u8>;

/// The pixels of an image proper, without what a larger buffer holds behind them.
pub open spec fn proper(pixels: Pixels) -> Pixels {
    Pixels { rgba: pixels.rgba.take(pixels.size() as int), ..pixels }
}

/// The buffer holds at least the bytes that the dimensions ask for.
pub open spec fn fits(pixels: Pixels) -> bool {
    4 * pixels.width <= usize::MAX && pixels.size() <= pixels.rgba.len()
}

/// `RgbaImage::from_raw`, and `write_to` for PNG on what it gives. `from_raw` gives nothing
/// where the buffer is too small for the dimensions. `write_to` refuses an image without
/// width or height, with these texts, and writes any other into memory. What it writes
/// starts with the PNG signature, is a function of the dimensions and of the bytes of the
/// pixels, and is lossless: up to the crate's limit for decoding, `load_from_memory` and
/// `load_from_memory_with_format` for PNG give those pixels back.
#[verifier::external_body]
fn write_png(width: u32, height: u32, rgba: Vec<u8>) -> (res: Option<Result<Vec<u8>, String>>)
    ensures
        ({
            let pixels = Pixels { width: width as nat, height: height as nat, rgba: rgba@ };
            match res {
                None => !fits(pixels),
                Some(Err(text)) => fits(pixels) && (width == 0 && text@
                    == "Zero width not allowed"@ || width > 0 && height == 0 && text@
                    == "Zero height not allowed"@),
                Some(Ok(png)) => {
                    &&& fits(pixels) && width > 0 && height > 0
                    &&& png@ == png_file(width as nat, height as nat, proper(pixels).rgba)
                    &&& png_signature().is_prefix_of(png@)
                    &&& pixels.size() <= DECODE_LIMIT ==> loaded(png@) == Ok::<
                        Pixels,
                        Seq<char>,
                    >(proper(pixels)) && loaded_png(png@) == Ok::<Pixels, Seq<char>>(
                        proper(pixels),
                    )
                },
            }
        }),
{
    let buffer = image::RgbaImage::from_raw(width, height, rgba)?;
    let mut png = Vec::new();
    Some(
        match buffer.write_to(&mut std::io::Cursor::new(&mut png), image::ImageFormat::Png) {
            Ok(()) => Ok(png),
            Err(err) => Err(err.to_string()),
        },
    )
}

/// The PNG file for the pixels of a clipboard, or why there is none.
pub open spec fn png_of(pixels: Pixels) -> Result<Seq<u8>, Seq<char>> {
    if pixels.width > u32::MAX {
        Err("image too wide"@)
    } else if pixels.height > u32::MAX {
        Err("image too tall"@)
    } else if !fits(pixels) {
        Err("clipboard pixel buffer does not match its dimensions"@)
    } else if pixels.width == 0 {
        Err("Zero width not allowed"@)
    } else if pixels.height == 0 {
        Err("Zero height not allowed"@)
    } else {
        Ok(png_file(pixels.width, pixels.height, proper(pixels).rgba))
    }
}

/// What writing an image gives, with the file and the error taken by their views.
pub open spec fn written_view(res: Result<Vec<u8>, ImageError>) -> Result<Seq<u8>, Seq<char>> {
    match res {
        Ok(png) => Ok(png@),
        Err(err) => Err(err@),
    }
}

/// Encodes clipboard pixels as PNG. Up to the limit for decoding the way back gives the same
/// pixels, in-process and through the transcoder's door alike, and the file is sniffed as an
/// image.
pub fn encode_png(image: &Image) -> (res: Result<Vec<u8>, ImageError>)
    ensures
        written_view(res) == png_of(image@),
        ({
            let size = 4 * image.width * image.height;
            if image.width > u32::MAX {
                res matches Err(err) && err.0@ == "image too wide"@
            } else if image.height > u32::MAX {
                res matches Err(err) && err.0@ == "image too tall"@
            } else if 4 * image.width > usize::MAX || size > image.rgba@.len() {
                res matches Err(err) && err.0@
                    == "clipboard pixel buffer does not match its dimensions"@
            } else if image.width == 0 {
                res matches Err(err) && err.0@ == "Zero width not allowed"@
            } else if image.height == 0 {
                res matches Err(err) && err.0@ == "Zero height not allowed"@
            } else {
                res matches Ok(png) && png@ == png_file(
                    image.width as nat,
                    image.height as nat,
                    image.rgba@.take(size),
                )
            }
        }),
        0 < image.width <= u32::MAX && 0 < image.height <= u32::MAX && image.rgba@.len() == 4
            * image.width * image.height ==> res is Ok,
        res matches Ok(png) ==> png_signature().is_prefix_of(png@) && image_like(png@),
        res matches Ok(png) ==> image@.size() <= DECODE_LIMIT ==> loaded(png@) == Ok::<
            Pixels,
            Seq<char>,
        >(proper(image@)) && loaded_png(png@) == Ok::<Pixels, Seq<char>>(proper(image@)),
{
    if image.width > u32::MAX as usize {
        return Err(ImageError("image too wide".to_owned()));
    }
    if image.height > u32::MAX as usize {
        return Err(ImageError("image too tall".to_owned()));
    }
    let rgba = image.rgba.clone();
    assert(rgba@ == image.rgba@);
    proof {
        assert(image.rgba@.len() == image.rgba.len());
        if image.height > 0 {
            rows_fit(image.width as nat, image.height as nat);
        }
    }
    match write_png(image.width as u32, image.height as u32, rgba) {
        None => Err(
            ImageError("clipboard pixel buffer does not match its dimensions".to_owned()),
        ),
        Some(Ok(png)) => Ok(png),
        Some(Err(text)) => Err(ImageError(text)),
    }
}

/// Two processes, or one process at two times, use different scratch directories.
pub proof fn scratch_dirs_differ(pid: nat, nanos: nat, other_pid: nat, other_nanos: nat)
    requires
        scratch_dir(pid, nanos) == scratch_dir(other_pid, other_nanos),
    ensures
        pid == other_pid,
        nanos == other_nanos,
{
    reveal_strlit("clipd-");
    reveal_strlit("-");
    let (a, b) = (decimal(pid), decimal(nanos));
    let (c, d) = (decimal(other_pid), decimal(other_nanos));
    decimal_is_digits(pid);
    decimal_is_digits(other_pid);
    let left = scratch_dir(pid, nanos).skip(6);
    let right = scratch_dir(other_pid, other_nanos).skip(6);
    assert(left == a.push('-') + b);
    assert(right == c.push('-') + d);
    assert(!a.contains('-'));
    assert(!c.contains('-'));
    position_behind(a, '-', b);
    position_behind(c, '-', d);
    assert(a == left.take(a.len() as int));
    assert(c == right.take(c.len() as int));
    assert(b == left.skip(a.len() as int + 1));
    assert(d == right.skip(c.len() as int + 1));
    decimal_tells_apart(pid, other_pid);
    decimal_tells_apart(nanos, other_nanos);
}

/// Where both attempts at decoding fail, the message tells both failures.
pub proof fn both_failures_are_told(native: Seq<char>, sips: Seq<char>)
    ensures
        fallback(native, Err(sips)) matches Err(message) && native.is_prefix_of(message)
            && sips.is_suffix_of(message) && message.len() == native.len()
            + "; sips fallback also failed: "@.len() + sips.len(),
{
    let message = native + "; sips fallback also failed: "@ + sips;
    assert(native.is_prefix_of(message));
    assert(sips.is_suffix_of(message));
}

/// A HEIF file is sniffed as an image and is none that is decoded in-process, unless its
/// first bytes, which give the size of a box, happen to be the signature of a JPEG, TIFF or
/// BMP file.
pub proof fn heif_is_left_to_sips(bytes: Seq<u8>)
    requires
        heif(bytes),
        !seq![0xffu8, 0xd8, 0xff].is_prefix_of(bytes),
        !seq![0x4du8, 0x4d, 0x00, 0x2a].is_prefix_of(bytes),
        !seq![0x49u8, 0x49, 0x2a, 0x00].is_prefix_of(bytes),
        !tagged(bytes, 0, "BM"@),
    ensures
        image_like(bytes),
        !has_decodable_signature(bytes),
{
    reveal_strlit("ftyp");
    reveal_strlit("GIF89a");
    reveal_strlit("GIF87a");
    reveal_strlit("WEBP");
    reveal_strlit("heic");
    reveal_strlit("heix");
    reveal_strlit("heim");
    reveal_strlit("heis");
    reveal_strlit("hevc");
    reveal_strlit("mif1");
    reveal_strlit("msf1");
    reveal_strlit("avif");
    assert("ftyp"@[0] as u8 == bytes[4]);
    assert(!png_signature().is_prefix_of(bytes)) by {
        if png_signature().is_prefix_of(bytes) {
            assert(png_signature()[4] == bytes[4]);
        }
    }
    assert(!tagged(bytes, 0, "GIF89a"@)) by {
        assert("GIF89a"@[4] as u8 != bytes[4]);
    }
    assert(!tagged(bytes, 0, "GIF87a"@)) by {
        assert("GIF87a"@[4] as u8 != bytes[4]);
    }
    assert(!tagged(bytes, 8, "WEBP"@)) by {
        if tagged(bytes, 8, "WEBP"@) {
            assert("WEBP"@[0] as u8 == bytes[8]);
            assert(tagged(bytes, 8, "heic"@) ==> "heic"@[0] as u8 == bytes[8]);
            assert(tagged(bytes, 8, "heix"@) ==> "heix"@[0] as u8 == bytes[8]);
            assert(tagged(bytes, 8, "heim"@) ==> "heim"@[0] as u8 == bytes[8]);
            assert(tagged(bytes, 8, "heis"@) ==> "heis"@[0] as u8 == bytes[8]);
            assert(tagged(bytes, 8, "hevc"@) ==> "hevc"@[0] as u8 == bytes[8]);
            assert(tagged(bytes, 8, "mif1"@) ==> "mif1"@[0] as u8 == bytes[8]);
            assert(tagged(bytes, 8, "msf1"@) ==> "msf1"@[0] as u8 == bytes[8]);
            assert(tagged(bytes, 8, "avif"@) ==> "avif"@[0] as u8 == bytes[8]);
        }
    }
}

/// A tag stands in the bytes where its ASCII bytes do.
proof fn tag_by_bytes(bytes: Seq<u8>, offset: int, tag: Seq<char>, ascii: Seq<u8>)
    requires
        0 <= offset,
        tag.len() == ascii.len(),
        forall|i: int| 0 <= i < tag.len() ==> (#[trigger] tag[i]) as u8 == ascii[i],
    ensures
        tagged(bytes, offset, tag) <==> offset + ascii.len() <= bytes.len() && bytes.subrange(
            offset,
            offset + ascii.len(),
        ) == ascii,
        offset == 0 ==> (tagged(bytes, offset, tag) <==> ascii.is_prefix_of(bytes)),
{
    if tagged(bytes, offset, tag) {
        let part = bytes.subrange(offset, offset + ascii.len());
        assert forall|i: int| 0 <= i < ascii.len() implies part[i] == ascii[i] by {
            assert(bytes[offset + i] == tag[i] as u8);
        }
        assert(part == ascii);
    }
    if offset + ascii.len() <= bytes.len() && bytes.subrange(offset, offset + ascii.len())
        == ascii {
        assert forall|i: int| 0 <= i < tag.len() implies bytes[offset + i] == #[trigger] tag[i] as u8 by {
            assert(bytes.subrange(offset, offset + ascii.len())[i] == ascii[i]);
        }
    }
    if offset == 0 && ascii.is_prefix_of(bytes) {
        assert(bytes.subrange(0, ascii.len() as int) == ascii);
    }
}

/// The formats that are decoded in-process are told by these first bytes, and by no others.
pub proof fn decodable_by_bytes(bytes: Seq<u8>)
    ensures
        has_decodable_signature(bytes) <==> ({
            ||| seq![0x89u8, 0x50, 0x4e, 0x47, 0x0d, 0x0a, 0x1a, 0x0a].is_prefix_of(bytes)
            ||| seq![0xffu8, 0xd8, 0xff].is_prefix_of(bytes)
            ||| seq![0x47u8, 0x49, 0x46, 0x38, 0x39, 0x61].is_prefix_of(bytes)
            ||| seq![0x47u8, 0x49, 0x46, 0x38, 0x37, 0x61].is_prefix_of(bytes)
            ||| bytes.len() >= 12 && bytes.subrange(0, 4) == seq![0x52u8, 0x49, 0x46, 0x46] && bytes.subrange(8, 12)
                == seq![0x57u8, 0x45, 0x42, 0x50]
            ||| seq![0x4du8, 0x4d, 0x00, 0x2a].is_prefix_of(bytes)
            ||| seq![0x49u8, 0x49, 0x2a, 0x00].is_prefix_of(bytes)
            ||| seq![0x42u8, 0x4d].is_prefix_of(bytes)
        }),
{
    reveal_strlit("GIF89a");
    tag_by_bytes(bytes, 0, "GIF89a"@, seq![0x47u8, 0x49, 0x46, 0x38, 0x39, 0x61]);
    reveal_strlit("GIF87a");
    tag_by_bytes(bytes, 0, "GIF87a"@, seq![0x47u8, 0x49, 0x46, 0x38, 0x37, 0x61]);
    reveal_strlit("RIFF");
    tag_by_bytes(bytes, 0, "RIFF"@, seq![0x52u8, 0x49, 0x46, 0x46]);
    reveal_strlit("WEBP");
    tag_by_bytes(bytes, 8, "WEBP"@, seq![0x57u8, 0x45, 0x42, 0x50]);
    reveal_strlit("BM");
    tag_by_bytes(bytes, 0, "BM"@, seq![0x42u8, 0x4d]);
}

/// A file is HEIF where an `ftyp` box stands at offset 4 with one of these brands, and nowhere
/// else.
pub proof fn heif_by_bytes(bytes: Seq<u8>)
    ensures
        heif(bytes) <==> ({
            &&& bytes.len() > 12
            &&& bytes.subrange(4, 8) == seq![0x66u8, 0x74, 0x79, 0x70]
            &&& {
                ||| bytes.subrange(8, 12) == seq![0x68u8, 0x65, 0x69, 0x63]
                ||| bytes.subrange(8, 12) == seq![0x68u8, 0x65, 0x69, 0x78]
                ||| bytes.subrange(8, 12) == seq![0x68u8, 0x65, 0x69, 0x6d]
                ||| bytes.subrange(8, 12) == seq![0x68u8, 0x65, 0x69, 0x73]
                ||| bytes.subrange(8, 12) == seq![0x68u8, 0x65, 0x76, 0x63]
                ||| bytes.subrange(8, 12) == seq![0x6du8, 0x69, 0x66, 0x31]
                ||| bytes.subrange(8, 12) == seq![0x6du8, 0x73, 0x66, 0x31]
                ||| bytes.subrange(8, 12) == seq![0x61u8, 0x76, 0x69, 0x66]
            }
        }),
{
    reveal_strlit("ftyp");
    tag_by_bytes(bytes, 4, "ftyp"@, seq![0x66u8, 0x74, 0x79, 0x70]);
    reveal_strlit("heic");
    tag_by_bytes(bytes, 8, "heic"@, seq![0x68u8, 0x65, 0x69, 0x63]);
    reveal_strlit("heix");
    tag_by_bytes(bytes, 8, "heix"@, seq![0x68u8, 0x65, 0x69, 0x78]);
    reveal_strlit("heim");
    tag_by_bytes(bytes, 8, "heim"@, seq![0x68u8, 0x65, 0x69, 0x6d]);
    reveal_strlit("heis");
    tag_by_bytes(bytes, 8, "heis"@, seq![0x68u8, 0x65, 0x69, 0x73]);
    reveal_strlit("hevc");
    tag_by_bytes(bytes, 8, "hevc"@, seq![0x68u8, 0x65, 0x76, 0x63]);
    reveal_strlit("mif1");
    tag_by_bytes(bytes, 8, "mif1"@, seq![0x6du8, 0x69, 0x66, 0x31]);
    reveal_strlit("msf1");
    tag_by_bytes(bytes, 8, "msf1"@, seq![0x6du8, 0x73, 0x66, 0x31]);
    reveal_strlit("avif");
    tag_by_bytes(bytes, 8, "avif"@, seq![0x61u8, 0x76, 0x69, 0x66]);
}

/// A body is sniffed as an image where one of these signatures or a HEIF box stands in its
/// bytes, and nowhere else.
pub proof fn sniffed_by_bytes(bytes: Seq<u8>)
    ensures
        image_like(bytes) <==> ({
            ||| seq![0x89u8, 0x50, 0x4e, 0x47, 0x0d, 0x0a, 0x1a, 0x0a].is_prefix_of(bytes)
            ||| seq![0xffu8, 0xd8, 0xff].is_prefix_of(bytes)
            ||| seq![0x47u8, 0x49, 0x46, 0x38, 0x39, 0x61].is_prefix_of(bytes)
            ||| seq![0x47u8, 0x49, 0x46, 0x38, 0x37, 0x61].is_prefix_of(bytes)
            ||| bytes.len() >= 12 && bytes.subrange(0, 4) == seq![0x52u8, 0x49, 0x46, 0x46] && bytes.subrange(8, 12)
                == seq![0x57u8, 0x45, 0x42, 0x50]
            ||| seq![0x4du8, 0x4d, 0x00, 0x2a].is_prefix_of(bytes)
            ||| seq![0x49u8, 0x49, 0x2a, 0x00].is_prefix_of(bytes)
            ||| seq![0x42u8, 0x4d].is_prefix_of(bytes)
            ||| seq![0x44u8, 0x44, 0x53, 0x20].is_prefix_of(bytes)
            ||| seq![0x00u8, 0x00, 0x01, 0x00].is_prefix_of(bytes)
            ||| seq![0x23u8, 0x3f, 0x52, 0x41, 0x44, 0x49, 0x41, 0x4e, 0x43, 0x45].is_prefix_of(bytes)
            ||| bytes.len() >= 12 && bytes[0] == 0 && bytes[1] == 0 && bytes.subrange(4, 12)
                == seq![0x66u8, 0x74, 0x79, 0x70, 0x61, 0x76, 0x69, 0x66]
            ||| seq![0x76u8, 0x2f, 0x31, 0x01].is_prefix_of(bytes)
            ||| seq![0x71u8, 0x6f, 0x69, 0x66].is_prefix_of(bytes)
            ||| bytes.len() >= 2 && bytes[0] == 0x50 && 0x31 <= bytes[1] <= 0x37
            ||| seq![0x66u8, 0x61, 0x72, 0x62, 0x66, 0x65, 0x6c, 0x64].is_prefix_of(bytes)
            ||| {
                &&& bytes.len() > 12
                &&& bytes.subrange(4, 8) == seq![0x66u8, 0x74, 0x79, 0x70]
                &&& {
                    ||| bytes.subrange(8, 12) == seq![0x68u8, 0x65, 0x69, 0x63]
                    ||| bytes.subrange(8, 12) == seq![0x68u8, 0x65, 0x69, 0x78]
                    ||| bytes.subrange(8, 12) == seq![0x68u8, 0x65, 0x69, 0x6d]
                    ||| bytes.subrange(8, 12) == seq![0x68u8, 0x65, 0x69, 0x73]
                    ||| bytes.subrange(8, 12) == seq![0x68u8, 0x65, 0x76, 0x63]
                    ||| bytes.subrange(8, 12) == seq![0x6du8, 0x69, 0x66, 0x31]
                    ||| bytes.subrange(8, 12) == seq![0x6du8, 0x73, 0x66, 0x31]
                    ||| bytes.subrange(8, 12) == seq![0x61u8, 0x76, 0x69, 0x66]
                }
            }
        }),
{
    decodable_by_bytes(bytes);
    heif_by_bytes(bytes);
    reveal_strlit("DDS ");
    tag_by_bytes(bytes, 0, "DDS "@, seq![0x44u8, 0x44, 0x53, 0x20]);
    reveal_strlit("#?RADIANCE");
    tag_by_bytes(bytes, 0, "#?RADIANCE"@, seq![0x23u8, 0x3f, 0x52, 0x41, 0x44, 0x49, 0x41, 0x4e, 0x43, 0x45]);
    reveal_strlit("ftypavif");
    tag_by_bytes(bytes, 4, "ftypavif"@, seq![0x66u8, 0x74, 0x79, 0x70, 0x61, 0x76, 0x69, 0x66]);
    reveal_strlit("qoif");
    tag_by_bytes(bytes, 0, "qoif"@, seq![0x71u8, 0x6f, 0x69, 0x66]);
    reveal_strlit("farbfeld");
    tag_by_bytes(bytes, 0, "farbfeld"@, seq![0x66u8, 0x61, 0x72, 0x62, 0x66, 0x65, 0x6c, 0x64]);
    if seq![0x00u8, 0x00].is_prefix_of(bytes) {
        assert(bytes[0] == seq![0x00u8, 0x00][0]);
        assert(bytes[1] == seq![0x00u8, 0x00][1]);
    }
    if bytes.len() >= 2 && bytes[0] == 0 && bytes[1] == 0 {
        assert(bytes.subrange(0, 2) == seq![0x00u8, 0x00]);
    }
}

/// The transcoder's image is the image, pixel for pixel, whatever the in-process attempt
/// failed with; and where there is none, both failures are told, in this order.
pub proof fn transcoder_decides(native: Seq<char>, pixels: Pixels, sips: Seq<char>)
    ensures
        fallback(native, Ok(pixels)) == Ok::<Pixels, Seq<char>>(pixels),
        fallback(native, Err(sips)) == Err::<Pixels, Seq<char>>(
            native + "; sips fallback also failed: "@ + sips,
        ),
{
}

/// Every image with pixels that fill its buffer is written, however large it is.
pub proof fn every_image_is_written(pixels: Pixels)
    requires
        0 < pixels.width <= u32::MAX,
        0 < pixels.height <= u32::MAX,
        pixels.rgba.len() == 4 * pixels.width * pixels.height,
        pixels.rgba.len() <= usize::MAX,
    ensures
        png_of(pixels) == Ok::<Seq<u8>, Seq<char>>(
            png_file(pixels.width, pixels.height, pixels.rgba),
        ),
{
    rows_fit(pixels.width, pixels.height);
    assert(proper(pixels).rgba == pixels.rgba);
}

/// A row takes no more bytes than all rows.
proof fn rows_fit(width: nat, height: nat)
    requires
        height > 0,
    ensures
        4 * width <= 4 * width * height,
{
    assert(4 * width <= 4 * width * height) by (nonlinear_arith)
        requires
            height > 0,
    ;
}

/// What is shown of an image, of a failure and of the outcome of reading or writing one is
/// all that is in it.
pub proof fn image_outcomes_are_shown_whole(
    image: Image,
    err: ImageError,
    png: Vec<u8>,
)
    ensures
        image@.width == image.width && image@.height == image.height && image@.rgba
            == image.rgba@,
        image@.size() == 4 * image.width * image.height,
        image@.well_formed() <==> image.width <= u32::MAX && image.height <= u32::MAX
            && image.rgba@.len() == 4 * image.width * image.height,
        err@ == err.0@,
        read_view(Ok(image)) == Ok::<Pixels, Seq<char>>(image@),
        read_view(Err(err)) == Err::<Pixels, Seq<char>>(err.0@),
        written_view(Ok(png)) == Ok::<Seq<u8>, Seq<char>>(png@),
        written_view(Err(err)) == Err::<Seq<u8>, Seq<char>>(err.0@),
{
}

} // verus!
