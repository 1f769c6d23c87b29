use axum::http::{HeaderMap, HeaderValue, Request};
use clipd::body::{
    as_text, body_limit, content_type, finish_image, form_field, from_bytes, part_head,
    set_from_body, set_from_query, strip_params, text_field, BodyKind, FormReader, FormStep,
    PartHead, Reading,
};
use clipd::clipboard::{Image, Payload};
use clipd::imaging::{encode_png, io_err, ImageError};
use clipd::reply::{png_response, AppError};

fn pixel() -> Image {
    Image {
        width: 1,
        height: 1,
        rgba: vec![1, 2, 3, 4],
    }
}

fn png() -> Vec<u8> {
    encode_png(&pixel()).unwrap()
}

const HEIC: &[u8] = b"\0\0\0\x18ftypheic\0\0\0\0mif1heic";

fn text(outcome: Result<Payload, AppError>) -> String {
    match outcome {
        Ok(Payload::Text(text)) => text,
        Ok(Payload::Image(_)) => panic!("an image"),
        Err(err) => panic!("refused: {err:?}"),
    }
}

fn image(outcome: Result<Payload, AppError>) -> Image {
    match outcome {
        Ok(Payload::Image(image)) => image,
        Ok(Payload::Text(text)) => panic!("text: {text}"),
        Err(err) => panic!("refused: {err:?}"),
    }
}

fn refused(outcome: Result<Payload, AppError>) -> (u16, String) {
    match outcome {
        Ok(_) => panic!("expected a refusal"),
        Err(err) => (err.status, err.message),
    }
}

fn done(reading: Reading) -> Result<Payload, AppError> {
    match reading {
        Reading::Done(outcome) => outcome,
        Reading::NeedsSips(native) => panic!("not decoded: {native}"),
    }
}

fn left_to_sips(reading: Reading) -> String {
    match reading {
        Reading::Done(_) => panic!("expected a decode failure"),
        Reading::NeedsSips(native) => native,
    }
}

#[test]
fn content_type_drops_parameters() {
    let request = Request::builder()
        .header("content-type", "Multipart/Form-Data; boundary=xyz")
        .body(())
        .unwrap();
    assert_eq!(content_type(request.headers()), "multipart/form-data");

    let bare = Request::builder().body(()).unwrap();
    assert_eq!(content_type(bare.headers()), "");
}

#[test]
fn form_body_needs_a_text_field() {
    let ok = from_bytes(b"text=hello+world", "application/x-www-form-urlencoded");
    assert!(matches!(ok, Reading::Done(Ok(Payload::Text(t))) if t == "hello world"));

    let bad = from_bytes(b"other=hello", "application/x-www-form-urlencoded");
    assert!(matches!(bad, Reading::Done(Err(_))));
}

#[test]
fn unlabelled_utf8_body_becomes_text() {
    let payload = from_bytes("你好 & bye".as_bytes(), "");
    assert!(matches!(payload, Reading::Done(Ok(Payload::Text(t))) if t == "你好 & bye"));
}

#[test]
fn empty_body_is_rejected() {
    assert!(matches!(from_bytes(b"", "text/plain"), Reading::Done(Err(_))));
    for mime in ["", "image/png", "application/x-www-form-urlencoded"] {
        assert_eq!(
            refused(done(from_bytes(b"", mime))),
            (400, "empty request body".to_owned())
        );
    }
}

#[test]
fn content_types_are_normalised() {
    assert_eq!(strip_params(" Text/HTML ; charset=utf-8; x"), "text/html");
    assert_eq!(strip_params("text/plain"), "text/plain");
    assert_eq!(strip_params("\u{3000}\u{85}IMAGE/PNG\u{a0}\t"), "image/png");
    assert_eq!(strip_params("ÄB/c"), "Äb/c");
    assert_eq!(strip_params(";text/plain"), "");
    assert_eq!(strip_params(""), "");
    let once = strip_params("Text/Plain; a=b");
    assert_eq!(strip_params(&once), once);
}

#[test]
fn a_content_type_that_is_no_text_does_not_count() {
    let mut headers = HeaderMap::new();
    headers.insert("content-type", HeaderValue::from_bytes(b"text/\xff").unwrap());
    assert_eq!(content_type(&headers), "");
}

#[test]
fn the_body_is_read_by_its_content_type() {
    let mut headers = HeaderMap::new();
    assert!(matches!(set_from_body(&headers), BodyKind::Whole(mime) if mime.is_empty()));
    headers.insert("content-type", HeaderValue::from_static("Image/PNG"));
    assert!(matches!(set_from_body(&headers), BodyKind::Whole(mime) if mime == "image/png"));
    headers.insert(
        "content-type",
        HeaderValue::from_static("multipart/form-data; boundary=x"),
    );
    assert!(matches!(set_from_body(&headers), BodyKind::Multipart));
}

#[test]
fn a_query_needs_a_text_parameter() {
    assert_eq!(text(set_from_query(Some("hi".to_owned()))), "hi");
    assert_eq!(text(set_from_query(Some(String::new()))), "");
    assert_eq!(
        refused(set_from_query(None)),
        (400, "missing `text` query parameter".to_owned())
    );
}

#[test]
fn text_is_utf8() {
    assert_eq!(as_text("grüß".as_bytes()).unwrap(), "grüß");
    let Err(err) = as_text(b"\xff\xfe") else {
        panic!("expected a refusal");
    };
    assert_eq!(err.status, 400);
    assert_eq!(
        err.message,
        "request body is neither a known image nor valid UTF-8"
    );
}

#[test]
fn forms_are_decoded() {
    assert_eq!(text(form_field(b"a=b&text=1%2B1+%3D+2&c")), "1+1 = 2");
    assert_eq!(text(form_field(b"text=")), "");
    assert_eq!(text(form_field(b"text")), "");
    assert_eq!(
        refused(form_field(b"other=hello")),
        (
            400,
            "form body needs a `text` field: missing field `text`".to_owned()
        )
    );
    assert_eq!(
        refused(form_field(b"text=a&x=y&text=b")),
        (
            400,
            "form body needs a `text` field: duplicate field `text`".to_owned()
        )
    );
}

#[test]
fn the_fields_of_a_form_decide() {
    let field = |name: &str, value: &str| (name.to_owned(), value.to_owned());
    assert_eq!(
        text(text_field(Ok(vec![field("a", "b"), field("text", "c")]))),
        "c"
    );
    assert_eq!(
        refused(text_field(Ok(vec![]))),
        (
            400,
            "form body needs a `text` field: missing field `text`".to_owned()
        )
    );
    assert_eq!(
        refused(text_field(Ok(vec![field("text", "b"), field("text", "b")]))),
        (
            400,
            "form body needs a `text` field: duplicate field `text`".to_owned()
        )
    );
    assert_eq!(
        refused(text_field(Err("broken".to_owned()))),
        (400, "form body needs a `text` field: broken".to_owned())
    );
}

#[test]
fn labels_decide_before_the_first_bytes_do() {
    assert_eq!(text(done(from_bytes(b"BM not a bitmap", "text/plain"))), "BM not a bitmap");
    assert_eq!(text(done(from_bytes(b"{\"a\":1}", "application/json"))), "{\"a\":1}");
    assert_eq!(
        refused(done(from_bytes(&png(), "text/plain"))).1,
        "request body is neither a known image nor valid UTF-8"
    );
    left_to_sips(from_bytes(b"plain text", "image/heic"));
    assert_eq!(text(done(from_bytes(b"plain text", "application/octet-stream"))), "plain text");
    left_to_sips(from_bytes(b"BM not a bitmap", "application/octet-stream"));
    left_to_sips(from_bytes(HEIC, ""));
}

#[test]
fn images_are_read_labelled_or_not() {
    for mime in ["image/png", "image/jpeg", "", "application/octet-stream"] {
        let read = image(done(from_bytes(&png(), mime)));
        assert_eq!((read.width, read.height), (1, 1));
        assert_eq!(read.rgba, vec![1, 2, 3, 4]);
    }
}

#[test]
fn an_answered_image_can_be_pushed_again() {
    let Ok(reply) = png_response(&pixel()) else {
        panic!("refused");
    };
    let read = image(done(from_bytes(&reply.body, &reply.content_type)));
    assert_eq!(read.rgba, pixel().rgba);
}

#[test]
fn undecodable_images_are_unsupported() {
    let native = left_to_sips(from_bytes(HEIC, "image/heic"));
    assert_eq!(
        refused(finish_image(native.clone(), Err(ImageError("no".to_owned())))),
        (415, format!("{native}; sips fallback also failed: no"))
    );
    assert_eq!(image(finish_image(native, Ok(pixel()))).rgba, pixel().rgba);
}

#[test]
fn parts_are_files_by_name_or_type() {
    let head = part_head(Some("Text/Plain; charset=utf-8"), false);
    assert_eq!((head.mime.as_str(), head.is_file), ("text/plain", false));
    let head = part_head(Some("text/plain"), true);
    assert_eq!((head.mime.as_str(), head.is_file), ("text/plain", true));
    let head = part_head(Some("IMAGE/png"), false);
    assert_eq!((head.mime.as_str(), head.is_file), ("image/png", true));
    let head = part_head(None, false);
    assert_eq!((head.mime.as_str(), head.is_file), ("", false));
    assert!(part_head(None, true).is_file);
}

fn field() -> PartHead {
    part_head(None, false)
}

fn file() -> PartHead {
    part_head(None, true)
}

fn more(step: FormStep) -> FormReader {
    match step {
        FormStep::More(reader) => reader,
        FormStep::Done(_) => panic!("done"),
        FormStep::NeedsSips(_) => panic!("transcode"),
    }
}

fn ended(step: FormStep) -> Result<Payload, AppError> {
    match step {
        FormStep::More(_) => panic!("more"),
        FormStep::Done(outcome) => outcome,
        FormStep::NeedsSips(_) => panic!("transcode"),
    }
}

#[test]
fn the_first_file_part_wins() {
    let form = more(FormReader::new().read_part(&field(), b"caption"));
    let form = more(form.read_part(&file(), b""));
    assert_eq!(image(ended(form.read_part(&file(), &png()))).rgba, pixel().rgba);

    let form = more(FormReader::new().read_part(&field(), b"caption"));
    let named = part_head(Some("image/png"), false);
    assert_eq!(image(ended(form.read_part(&named, &png()))).rgba, pixel().rgba);
}

fn form_type() -> PartHead {
    part_head(Some("application/x-www-form-urlencoded"), false)
}

const UNREADABLE: &str = "request body is neither a known image nor valid UTF-8";

#[test]
fn a_file_part_never_becomes_text() {
    let head = part_head(Some("text/plain"), true);
    let FormStep::NeedsSips(native) = FormReader::new().read_part(&head, b"hello") else {
        panic!("expected a part to transcode");
    };
    assert_eq!(
        refused(finish_image(native.clone(), Err(io_err("no image".to_owned())))),
        (415, format!("{native}; sips fallback also failed: no image"))
    );

    let form = more(FormReader::new().read_part(&field(), b"caption"));
    assert!(matches!(
        form.read_part(&file(), b"notes"),
        FormStep::NeedsSips(_)
    ));
}

#[test]
fn a_part_that_is_no_file_becomes_text() {
    for bytes in [&b"BM not a bitmap"[..], b"P6 text", b"text=a&b"] {
        let form = more(FormReader::new().read_part(&field(), bytes));
        assert_eq!(text(form.finish()).as_bytes(), bytes);
    }
    let form = more(FormReader::new().read_part(&form_type(), b"text=a+b"));
    assert_eq!(text(form.finish()), "a b");
    let form = more(FormReader::new().read_part(&form_type(), b"other=a"));
    assert_eq!(
        refused(form.finish()),
        (
            400,
            "form body needs a `text` field: missing field `text`".to_owned()
        )
    );
}

#[test]
fn the_first_part_is_the_fallback() {
    let form = more(FormReader::new().read_part(&field(), b""));
    let form = more(form.read_part(&field(), b"first"));
    let form = more(form.read_part(&field(), b"second"));
    assert_eq!(text(form.finish()), "first");
}

#[test]
fn a_multipart_body_needs_a_usable_field() {
    let nothing = "multipart body had no usable field".to_owned();
    assert_eq!(refused(FormReader::new().finish()), (400, nothing.clone()));
    let form = more(FormReader::new().read_part(&file(), b""));
    assert_eq!(refused(form.finish()), (400, nothing));
}

#[test]
fn a_file_wins_over_any_part_before_it() {
    for bytes in [png(), b"\xff".to_vec(), b"caption".to_vec(), HEIC.to_vec()] {
        let form = more(FormReader::new().read_part(&field(), &bytes));
        assert_eq!(image(ended(form.read_part(&file(), &png()))).rgba, pixel().rgba);
    }
    let form = more(FormReader::new().read_part(&form_type(), b"other=a"));
    assert_eq!(image(ended(form.read_part(&file(), &png()))).rgba, pixel().rgba);
}

#[test]
fn the_first_part_counts_whatever_follows_it() {
    for bytes in [png(), b"\xff".to_vec(), HEIC.to_vec()] {
        let form = more(FormReader::new().read_part(&field(), b"first"));
        let form = more(form.read_part(&field(), &bytes));
        assert_eq!(text(form.finish()), "first");

        let form = more(FormReader::new().read_part(&field(), b"\xff"));
        let form = more(form.read_part(&field(), &bytes));
        assert_eq!(refused(form.finish()), (400, UNREADABLE.to_owned()));
    }
}

#[test]
fn the_outcome_of_a_part_is_kept() {
    let refusal = || Err(AppError::new(400, "no".to_owned()));
    let hi = || Ok(Payload::Text("hi".to_owned()));
    assert_eq!(text(FormReader::new().field(hi()).field(refusal()).finish()), "hi");
    assert_eq!(
        refused(FormReader::new().field(refusal()).field(hi()).finish()),
        (400, "no".to_owned())
    );
    let step = FormReader::new().field(hi()).file(Reading::Done(refusal()));
    assert_eq!(refused(ended(step)), (400, "no".to_owned()));
    let step = FormReader::new().file(Reading::NeedsSips("native".to_owned()));
    assert!(matches!(step, FormStep::NeedsSips(native) if native == "native"));
}

#[test]
fn a_file_part_is_transcoded() {
    let form = more(FormReader::new().read_part(&field(), b"first"));
    let FormStep::NeedsSips(native) = form.read_part(&file(), HEIC) else {
        panic!("expected a part to transcode");
    };
    assert_eq!(image(finish_image(native, Ok(pixel()))).rgba, pixel().rgba);
}

#[test]
fn the_body_limit_is_given_in_mebibytes() {
    assert_eq!(body_limit(32), 33554432);
    assert_eq!(body_limit(0), 0);
}
