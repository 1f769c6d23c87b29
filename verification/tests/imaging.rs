use clipd::clipboard::Image;
use clipd::imaging::{
    decode, decode_transcoded, encode_png, finish_decode, io_err, is_heif, looks_like_image,
    scratch_name, sips_exited, Decoding, ImageError, DECODE_LIMIT,
};
use image::{ImageFormat, Rgba, RgbaImage};
use std::io::Cursor;

fn sample(format: ImageFormat) -> Vec<u8> {
    let image = RgbaImage::from_pixel(4, 3, Rgba([10, 20, 30, 255]));
    let mut file = Vec::new();
    image.write_to(&mut Cursor::new(&mut file), format).unwrap();
    file
}

fn sample_png() -> Vec<u8> {
    sample(ImageFormat::Png)
}

fn heic() -> Vec<u8> {
    let mut heic = vec![0, 0, 0, 24];
    heic.extend_from_slice(b"ftypheic");
    heic.extend_from_slice(b"\0\0\0\0mif1heic");
    heic
}

fn done(decoding: Decoding) -> Image {
    match decoding {
        Decoding::Done(image) => image,
        Decoding::NeedsSips(native) => panic!("not decoded: {native}"),
    }
}

fn left_to_sips(decoding: Decoding) -> String {
    match decoding {
        Decoding::Done(_) => panic!("expected a decode failure"),
        Decoding::NeedsSips(native) => native,
    }
}

fn message(res: Result<Vec<u8>, ImageError>) -> String {
    match res {
        Ok(_) => panic!("expected an error"),
        Err(err) => err.to_string(),
    }
}

#[test]
fn png_round_trips_through_rgba() {
    let decoded = done(decode(&sample_png()));
    assert_eq!((decoded.width, decoded.height), (4, 3));
    assert_eq!(decoded.rgba.len(), 4 * 3 * 4);

    let reencoded = encode_png(&decoded).unwrap();
    let again = done(decode(&reencoded));
    assert_eq!(again.rgba, decoded.rgba);
}

#[test]
fn heif_magic_is_recognised() {
    let heic = heic();
    assert!(is_heif(&heic));
    assert!(looks_like_image(&heic));

    assert!(!is_heif(b"plain text, not a file"));
    assert!(!looks_like_image(b"plain text, not a file"));
    assert!(looks_like_image(&sample_png()));
}

#[test]
fn mismatched_pixel_buffer_is_an_error() {
    let broken = Image {
        width: 100,
        height: 100,
        rgba: vec![0; 16],
    };
    assert!(encode_png(&broken).is_err());
    assert_eq!(
        message(encode_png(&broken)),
        "clipboard pixel buffer does not match its dimensions"
    );
}

#[test]
fn undecodable_bytes_report_both_failures() {
    let native = left_to_sips(decode(b"definitely not an image"));
    let Err(err) = finish_decode(native.clone(), Err(io_err("no such file".to_owned()))) else {
        panic!("expected a decode failure");
    };
    let message = err.to_string();
    assert!(
        message.contains("sips fallback also failed"),
        "got: {message}"
    );
    assert!(message.starts_with(&native));
    assert!(message.ends_with("; sips fallback also failed: no such file"));
}

#[test]
fn every_native_format_is_sniffed_and_decoded() {
    let formats = [
        ImageFormat::Png,
        ImageFormat::Gif,
        ImageFormat::Bmp,
        ImageFormat::Tiff,
        ImageFormat::WebP,
    ];
    for format in formats {
        let file = sample(format);
        assert!(looks_like_image(&file), "{format:?}");
        let image = done(decode(&file));
        assert_eq!((image.width, image.height), (4, 3));
        assert_eq!(&image.rgba[..4], &[10, 20, 30, 255]);
    }

    let gray = image::RgbImage::from_pixel(4, 3, image::Rgb([128, 128, 128]));
    let mut jpeg = Vec::new();
    gray.write_to(&mut Cursor::new(&mut jpeg), ImageFormat::Jpeg)
        .unwrap();
    assert!(looks_like_image(&jpeg));
    let image = done(decode(&jpeg));
    assert_eq!((image.width, image.height), (4, 3));
    assert_eq!(image.rgba.len(), 48);
}

#[test]
fn every_known_signature_is_sniffed() {
    let signatures: [&[u8]; 22] = [
        b"\x89PNG\r\n\x1a\n",
        &[0xff, 0xd8, 0xff],
        b"GIF89a",
        b"GIF87a",
        b"RIFF\x01\x02\x03\x04WEBP",
        b"MM\x00*",
        b"II*\x00",
        b"DDS ",
        b"BM",
        &[0, 0, 1, 0],
        b"#?RADIANCE",
        b"\0\0\x01\x02ftypavif",
        &[0x76, 0x2f, 0x31, 0x01],
        b"qoif",
        b"P1",
        b"P2",
        b"P3",
        b"P4",
        b"P5",
        b"P6",
        b"P7",
        b"farbfeld",
    ];
    for signature in signatures {
        assert!(looks_like_image(signature), "{signature:?}");
        assert!(!looks_like_image(&signature[..signature.len() - 1]), "{signature:?}");
    }
    assert!(!looks_like_image(b"P0"));
    assert!(!looks_like_image(b"P8"));
    assert!(!looks_like_image(b""));
    assert!(!looks_like_image(b"RIFF\x01\x02\x03\x04WAVE"));
}

#[test]
fn every_heif_brand_is_recognised() {
    let brands: [&[u8]; 8] = [
        b"heic", b"heix", b"heim", b"heis", b"hevc", b"mif1", b"msf1", b"avif",
    ];
    for brand in brands {
        let mut file = b"\0\0\0\x18ftyp".to_vec();
        file.extend_from_slice(brand);
        assert!(!is_heif(&file));
        file.push(0);
        assert!(is_heif(&file));
        left_to_sips(decode(&file));
    }
    assert!(!is_heif(b"\0\0\0\x18ftypisom\0"));
    assert!(!is_heif(b"\0\0\0\x18moovheic\0"));
}

#[test]
fn known_but_undecodable_formats_are_left_to_sips() {
    for file in [&b"DDS 0000"[..], b"qoif0000", b"P6 1 1 255 abc", b"farbfeld"] {
        assert!(looks_like_image(file));
        assert!(!left_to_sips(decode(file)).is_empty());
    }
    assert!(!left_to_sips(decode(&heic())).is_empty());
    assert!(!left_to_sips(decode(&sample_png()[..20])).is_empty());
    assert!(!left_to_sips(decode(b"")).is_empty());
}

#[test]
fn impossible_dimensions_are_errors() {
    let image = |width: usize, height: usize| Image {
        width,
        height,
        rgba: vec![0; 16],
    };
    let too_large = u32::MAX as usize + 1;
    assert_eq!(message(encode_png(&image(too_large, 1))), "image too wide");
    assert_eq!(message(encode_png(&image(1, too_large))), "image too tall");
    assert_eq!(message(encode_png(&image(too_large, too_large))), "image too wide");
    assert_eq!(message(encode_png(&image(0, 1))), "Zero width not allowed");
    assert_eq!(message(encode_png(&image(1, 0))), "Zero height not allowed");
    assert_eq!(message(encode_png(&image(0, 0))), "Zero width not allowed");
    assert_eq!(
        message(encode_png(&image(5, 1))),
        "clipboard pixel buffer does not match its dimensions"
    );
}

#[test]
fn surplus_bytes_behind_the_pixels_are_dropped() {
    let image = Image {
        width: 1,
        height: 2,
        rgba: vec![1, 2, 3, 4, 5, 6, 7, 8, 9, 10],
    };
    let png = encode_png(&image).unwrap();
    assert_eq!(&png[..8], b"\x89PNG\r\n\x1a\n");
    let again = done(decode(&png));
    assert_eq!((again.width, again.height), (1, 2));
    assert_eq!(again.rgba, vec![1, 2, 3, 4, 5, 6, 7, 8]);
    let through = decode_transcoded(&png).unwrap();
    assert_eq!(through.rgba, again.rgba);
}

#[test]
fn only_png_comes_from_the_transcoder() {
    let image = decode_transcoded(&sample_png()).unwrap();
    assert_eq!((image.width, image.height), (4, 3));
    assert!(decode_transcoded(&sample(ImageFormat::Gif)).is_err());
    let Err(err) = decode_transcoded(b"") else {
        panic!("expected an error");
    };
    assert!(!err.to_string().is_empty());
}

#[test]
fn a_transcoded_image_is_the_image() {
    let image = decode_transcoded(&sample_png());
    let image = finish_decode("no decoder".to_owned(), image).unwrap();
    assert_eq!((image.width, image.height), (4, 3));
}

#[test]
fn a_failed_transcoder_is_quoted() {
    assert!(sips_exited(true, b"a warning").is_ok());
    let Err(err) = sips_exited(false, b"\n Error: cannot read \xff\t\n") else {
        panic!("expected an error");
    };
    assert_eq!(err.to_string(), "Error: cannot read \u{fffd}");
    let Err(err) = sips_exited(false, b"  ") else {
        panic!("expected an error");
    };
    assert_eq!(err.to_string(), "");
}

#[test]
fn scratch_directories_are_named_by_process_and_time() {
    assert_eq!(scratch_name(17, 0), "clipd-17-0");
    assert_eq!(
        scratch_name(4294967295, 1700000000123456789),
        "clipd-4294967295-1700000000123456789"
    );
    assert_ne!(scratch_name(1, 23), scratch_name(12, 3));
}

#[test]
fn decode_limit_is_half_a_gibibyte() {
    assert_eq!(DECODE_LIMIT, 512 * 1024 * 1024);
}
