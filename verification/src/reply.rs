//! What a request is answered: replies and refusals.
use vstd::prelude::*;
use vstd::string::*;
use vstd::utf8::{
    decode_utf8, encode_utf8, encode_utf8_decode_utf8, encode_utf8_valid_utf8, valid_utf8,
};
use crate::clipboard::{Clip, ClipError, Image, Payload, Pixels};
use crate::body::{body_progress, is_form_type, is_image_type, is_text_type, Progress};
use crate::imaging::{
    encode_png, every_image_is_written, loaded, png_file, png_of, proper, DECODE_LIMIT,
};
use crate::text::{decimal, decimal_is_digits, decimal_text};

verus! {

/// The request was done.
pub const OK: u16 = 200;

/// The request makes no sense.
pub const BAD_REQUEST: u16 = 400;

/// The request came without the right token.
pub const UNAUTHORIZED: u16 = 401;

/// The clipboard holds nothing of the kind that was asked for.
pub const NOT_FOUND: u16 = 404;

/// The body was taken for an image and could not be decoded.
pub const UNSUPPORTED_MEDIA_TYPE: u16 = 415;

/// The server failed.
pub const INTERNAL_SERVER_ERROR: u16 = 500;

/// A refusal: the status code and the message.
#[verifier::ext_equal]
pub struct Refusal {
    pub status: u16,
    pub message: Seq<char>,
}

/// Why a request is refused.
#[derive(Debug)]
pub struct AppError {
    pub status: u16,
    pub message: String,
}

impl View for AppError {
    type V = Refusal;

    open spec fn view(&self) -> Refusal {
        Refusal { status: self.status, message: self.message@ }
    }
}

/// What goes over the wire: the status code, the content type and the body.
#[verifier::ext_equal]
pub struct Answer {
    pub status: u16,
    pub content_type: Seq<char>,
    pub body: Seq<u8>,
}

/// A reply to a request.
pub struct Reply {
    pub status: u16,
    pub content_type: String,
    pub body: Vec<u8>,
}

impl View for Reply {
    type V = Answer;

    open spec fn view(&self) -> Answer {
        Answer { status: self.status, content_type: self.content_type@, body: self.body@ }
    }
}

/// A reply in plain text.
pub open spec fn text_answer(status: u16, text: Seq<char>) -> Answer {
    Answer { status, content_type: "text/plain; charset=utf-8"@, body: encode_utf8(text) }
}

/// A reply with a PNG file.
pub open spec fn png_answer(png: Seq<u8>) -> Answer {
    Answer { status: OK, content_type: "image/png"@, body: png }
}

/// What a refused request is answered.
pub open spec fn refusal_answer(refusal: Refusal) -> Answer {
    text_answer(refusal.status, refusal.message + "\n"@)
}

impl AppError {
    pub fn new(status: u16, message: String) -> (res: Self)
        ensures
            res@ == (Refusal { status, message: message@ }),
    {
        AppError { status, message }
    }

    pub fn bad_request(message: String) -> (res: Self)
        ensures
            res@ == (Refusal { status: BAD_REQUEST, message: message@ }),
    {
        AppError::new(BAD_REQUEST, message)
    }

    /// The refusal for a failure of the server whose text, as it is shown to a reader, is
    /// `err`.
    pub fn internal(err: String) -> (res: Self)
        ensures
            res@ == (Refusal { status: INTERNAL_SERVER_ERROR, message: err@ }),
    {
        AppError::new(INTERNAL_SERVER_ERROR, err)
    }

    /// The reply that tells the caller: the message on a line of its own.
    pub fn into_response(self) -> (res: Reply)
        ensures
            res@ == refusal_answer(self@),
            res.status == self.status,
            res.content_type@ == "text/plain; charset=utf-8"@,
            res.body@ == encode_utf8(self.message@ + "\n"@),
    {
        let mut text = self.message;
        text.append("\n");
        text_reply(self.status, text.as_str())
    }
}

/// A reply in plain text.
fn text_reply(status: u16, text: &str) -> (res: Reply)
    ensures
        res@ == text_answer(status, text@),
{
    Reply {
        status,
        content_type: "text/plain; charset=utf-8".to_owned(),
        body: text.as_bytes_vec(),
    }
}

/// The answer to a request that only asks whether the server is there.
pub fn health() -> (res: Reply)
    ensures
        res@ == text_answer(OK, "ok\n"@),
        res.status == 200 && res.content_type@ == "text/plain; charset=utf-8"@ && res.body@
            == encode_utf8("ok\n"@),
{
    text_reply(OK, "ok\n")
}

/// A reply or a refusal, with both taken by their views.
pub open spec fn answered(res: Result<Reply, AppError>) -> Result<Answer, Refusal> {
    match res {
        Ok(reply) => Ok(reply@),
        Err(err) => Err(err@),
    }
}

/// What the pasteboard said to a request for text, taken by its view.
pub open spec fn text_view(answer: Result<String, ClipError>) -> Result<Seq<char>, Seq<char>> {
    match answer {
        Ok(text) => Ok(text@),
        Err(err) => Err(err@),
    }
}

/// What the pasteboard said to a request for an image, taken by its view.
pub open spec fn image_view(answer: Result<Image, ClipError>) -> Result<Pixels, Seq<char>> {
    match answer {
        Ok(image) => Ok(image@),
        Err(err) => Err(err@),
    }
}

/// The answer to a request for the text on the clipboard.
pub open spec fn text_outcome(clipboard: Result<Seq<char>, Seq<char>>) -> Result<
    Answer,
    Refusal,
> {
    match clipboard {
        Ok(text) => Ok(text_answer(OK, text)),
        Err(err) => Err(
            Refusal { status: NOT_FOUND, message: "clipboard holds no text: "@ + err },
        ),
    }
}

/// The answer that carries the pixels as PNG.
pub open spec fn png_outcome(pixels: Pixels) -> Result<Answer, Refusal> {
    match png_of(pixels) {
        Ok(png) => Ok(png_answer(png)),
        Err(err) => Err(Refusal { status: INTERNAL_SERVER_ERROR, message: err }),
    }
}

/// The answer to a request for the image on the clipboard.
pub open spec fn image_outcome(clipboard: Result<Pixels, Seq<char>>) -> Result<Answer, Refusal> {
    match clipboard {
        Ok(pixels) => png_outcome(pixels),
        Err(err) => Err(
            Refusal { status: NOT_FOUND, message: "clipboard holds no image: "@ + err },
        ),
    }
}

/// The answer to a request for whatever is on the clipboard: the text if there is any,
/// otherwise the image.
pub open spec fn auto_outcome(
    text: Result<Seq<char>, Seq<char>>,
    image: Result<Pixels, Seq<char>>,
) -> Result<Answer, Refusal> {
    match (text, image) {
        (Ok(text), _) => Ok(text_answer(OK, text)),
        (Err(_), Ok(pixels)) => png_outcome(pixels),
        (Err(_), Err(err)) => Err(
            Refusal {
                status: NOT_FOUND,
                message: "clipboard holds neither text nor an image: "@ + err,
            },
        ),
    }
}

/// Answers a request for text with what the pasteboard said.
pub fn get_text(clipboard: Result<String, ClipError>) -> (res: Result<Reply, AppError>)
    ensures
        answered(res) == text_outcome(text_view(clipboard)),
        clipboard matches Ok(text) ==> (res matches Ok(reply) && reply.status == 200
            && reply.content_type@ == "text/plain; charset=utf-8"@ && reply.body@ == encode_utf8(
            text@,
        )),
        clipboard matches Err(err) ==> (res matches Err(refused) && refused.status == 404
            && refused.message@ == "clipboard holds no text: "@ + err.0@),
{
    match clipboard {
        Ok(text) => Ok(text_reply(OK, text.as_str())),
        Err(err) => {
            let mut message = "clipboard holds no text: ".to_owned();
            message.append(err.0.as_str());
            Err(AppError::new(NOT_FOUND, message))
        },
    }
}

/// The body `bytes` puts these pixels on the clipboard when it is pushed, labelled as an
/// image or not labelled at all.
pub open spec fn pushes(bytes: Seq<u8>, pixels: Pixels) -> bool {
    forall|mime: Seq<char>, form: Result<Seq<(Seq<char>, Seq<char>)>, Seq<char>>|
        is_image_type(mime) || !is_form_type(mime) && !is_text_type(mime)
            ==> #[trigger] body_progress(bytes, mime, loaded(bytes), form) == Progress::Done(
            Ok(Clip::Image(pixels)),
        )
}

/// Answers with an image as PNG. Up to the limit for decoding the answer puts the same image
/// on a clipboard when it is pushed.
pub fn png_response(image: &Image) -> (res: Result<Reply, AppError>)
    ensures
        answered(res) == png_outcome(image@),
        0 < image.width <= u32::MAX && 0 < image.height <= u32::MAX && image.rgba@.len() == 4
            * image.width * image.height ==> (res matches Ok(reply) && reply.status == 200
            && reply.content_type@ == "image/png"@ && reply.body@ == png_file(
            image.width as nat,
            image.height as nat,
            image.rgba@,
        )),
        res matches Ok(reply) ==> reply.status == 200 && reply.content_type@ == "image/png"@,
        res matches Err(refused) ==> refused.status == 500,
        res matches Ok(reply) ==> image@.size() <= DECODE_LIMIT ==> pushes(
            reply.body@,
            proper(image@),
        ),
{
    proof {
        let pixels = image@;
        assert(image.rgba@.len() == image.rgba.len());
        if 0 < image.width <= u32::MAX && 0 < image.height <= u32::MAX && image.rgba@.len() == 4
            * image.width * image.height {
            every_image_is_written(pixels);
        }
    }
    match encode_png(image) {
        Ok(png) => Ok(Reply { status: OK, content_type: "image/png".to_owned(), body: png }),
        Err(err) => Err(AppError::internal(err.0)),
    }
}

/// Answers a request for an image with what the pasteboard said.
pub fn get_image(clipboard: Result<Image, ClipError>) -> (res: Result<Reply, AppError>)
    ensures
        answered(res) == image_outcome(image_view(clipboard)),
        clipboard matches Ok(image) ==> (0 < image.width <= u32::MAX && 0 < image.height <= u32::MAX
            && image.rgba@.len() == 4 * image.width * image.height ==> (res matches Ok(reply)
            && reply.status == 200 && reply.content_type@ == "image/png"@ && reply.body@
            == png_file(image.width as nat, image.height as nat, image.rgba@))),
        clipboard matches Err(err) ==> (res matches Err(refused) && refused.status == 404
            && refused.message@ == "clipboard holds no image: "@ + err.0@),
        res matches Ok(reply) ==> clipboard matches Ok(image) && (image@.size() <= DECODE_LIMIT
            ==> pushes(reply.body@, proper(image@))),
{
    match clipboard {
        Ok(image) => png_response(&image),
        Err(err) => {
            let mut message = "clipboard holds no image: ".to_owned();
            message.append(err.0.as_str());
            Err(AppError::new(NOT_FOUND, message))
        },
    }
}

/// Text if there is any, otherwise the image, in one request. Shortcuts has no
/// error-handling action, so a client that wants "whatever is on the clipboard" cannot
/// branch on a 404; it needs a single route that answers with a usable content type either
/// way. Given what the pasteboard said to a request for text, this is the reply, or nothing
/// where the pasteboard is to be asked for an image, which [`get_auto_image`] then answers.
pub fn get_auto(text: Result<String, ClipError>) -> (res: Option<Reply>)
    ensures
        res is None <==> text is Err,
        res matches Some(reply) ==> forall|image: Result<Pixels, Seq<char>>|
            auto_outcome(text_view(text), image) == Ok::<Answer, Refusal>(reply@),
        text matches Ok(text) ==> (res matches Some(reply) && reply.status == 200
            && reply.content_type@ == "text/plain; charset=utf-8"@ && reply.body@ == encode_utf8(
            text@,
        )),
{
    match text {
        Ok(text) => Some(text_reply(OK, text.as_str())),
        Err(_) => None,
    }
}

/// Answers a request for whatever is on the clipboard, where it held no text, with what the
/// pasteboard said to a request for an image.
pub fn get_auto_image(image: Result<Image, ClipError>) -> (res: Result<Reply, AppError>)
    ensures
        forall|text: Seq<char>|
            answered(res) == #[trigger] auto_outcome(
                Err::<Seq<char>, Seq<char>>(text),
                image_view(image),
            ),
        image matches Ok(shown) ==> (0 < shown.width <= u32::MAX && 0 < shown.height <= u32::MAX
            && shown.rgba@.len() == 4 * shown.width * shown.height ==> (res matches Ok(reply)
            && reply.status == 200 && reply.content_type@ == "image/png"@ && reply.body@
            == png_file(shown.width as nat, shown.height as nat, shown.rgba@))),
        image matches Err(err) ==> (res matches Err(refused) && refused.status == 404
            && refused.message@ == "clipboard holds neither text nor an image: "@ + err.0@),
        res matches Ok(reply) ==> image matches Ok(shown) && (shown@.size() <= DECODE_LIMIT
            ==> pushes(reply.body@, proper(shown@))),
{
    match image {
        Ok(image) => png_response(&image),
        Err(err) => {
            let mut message = "clipboard holds neither text nor an image: ".to_owned();
            message.append(err.0.as_str());
            Err(AppError::new(NOT_FOUND, message))
        },
    }
}

/// What is told of a payload: its kind and its size, and nothing of its content.
pub open spec fn summary_of(clip: Clip) -> Seq<char> {
    match clip {
        Clip::Text(text) => "text ("@ + decimal(text.len()) + " chars)"@,
        Clip::Image(pixels) => "image ("@ + decimal(pixels.width) + "x"@ + decimal(
            pixels.height,
        ) + ")"@,
    }
}

/// What is told of a payload.
pub fn summarize(payload: &Payload) -> (res: String)
    ensures
        res@ == summary_of(payload@),
        payload matches Payload::Text(text) ==> res@ == "text ("@ + decimal(text@.len())
            + " chars)"@,
        payload matches Payload::Image(image) ==> res@ == "image ("@ + decimal(
            image.width as nat,
        ) + "x"@ + decimal(image.height as nat) + ")"@,
{
    match payload {
        Payload::Text(text) => {
            let mut summary = "text (".to_owned();
            summary.append(decimal_text(text.as_str().unicode_len() as u128).as_str());
            summary.append(" chars)");
            summary
        },
        Payload::Image(image) => {
            let mut summary = "image (".to_owned();
            summary.append(decimal_text(image.width as u128).as_str());
            summary.append("x");
            summary.append(decimal_text(image.height as u128).as_str());
            summary.append(")");
            summary
        },
    }
}

/// The AppleScript that posts a banner with `summary` in it.
pub open spec fn banner(summary: Seq<char>) -> Seq<char> {
    "display notification \""@ + summary
        + "\" with title \"clipd\" subtitle \"clipboard updated\""@
}

/// The AppleScript that posts a banner. `summary` is generated by us, never echoed user
/// content, so it is safe to drop into an AppleScript string literal.
pub fn notification_script(summary: &str) -> (res: String)
    ensures
        res@ == banner(summary@),
        res@ == "display notification \""@ + summary@
            + "\" with title \"clipd\" subtitle \"clipboard updated\""@,
{
    let mut script = "display notification \"".to_owned();
    script.append(summary);
    script.append("\" with title \"clipd\" subtitle \"clipboard updated\"");
    script
}

/// A payload that was put on the clipboard: the reply to the caller, and the AppleScript of
/// the banner that is to be posted, if any.
pub struct Stored {
    pub reply: Reply,
    pub banner: Option<String>,
}

/// Answers a request to put something on the clipboard with what the pasteboard said.
/// `summary` tells of the payload, and `notify` asks for a banner.
pub fn store(summary: &str, outcome: Result<(), ClipError>, notify: bool) -> (res: Result<
    Stored,
    AppError,
>)
    ensures
        match outcome {
            Ok(()) => {
                &&& res matches Ok(stored)
                &&& stored.reply@ == text_answer(OK, "ok: "@ + summary@ + "\n"@)
                &&& stored.reply.status == 200
                &&& stored.reply.content_type@ == "text/plain; charset=utf-8"@
                &&& stored.reply.body@ == encode_utf8("ok: "@ + summary@ + "\n"@)
                &&& stored.banner is Some <==> notify
                &&& stored.banner matches Some(script) ==> script@ == banner(summary@)
                &&& stored.banner matches Some(script) ==> script@
                    == "display notification \""@ + summary@
                    + "\" with title \"clipd\" subtitle \"clipboard updated\""@
            },
            Err(err) => {
                &&& res matches Err(refused)
                &&& refused@ == (Refusal { status: INTERNAL_SERVER_ERROR, message: err@ })
                &&& refused.status == 500 && refused.message@ == err.0@
            },
        },
{
    match outcome {
        Ok(()) => {
            let mut text = "ok: ".to_owned();
            text.append(summary);
            text.append("\n");
            let banner = if notify {
                Some(notification_script(summary))
            } else {
                None
            };
            Ok(Stored { reply: text_reply(OK, text.as_str()), banner })
        },
        Err(err) => Err(AppError::internal(err.0)),
    }
}

/// The route for whatever is on the clipboard answers as the route for text does where there
/// is text, and otherwise as the route for the image does where there is one.
pub proof fn auto_is_text_or_image(
    text: Result<Seq<char>, Seq<char>>,
    image: Result<Pixels, Seq<char>>,
)
    ensures
        text is Ok ==> auto_outcome(text, image) == text_outcome(text),
        text is Err && image is Ok ==> auto_outcome(text, image) == image_outcome(image),
        text is Err && image is Err ==> (auto_outcome(text, image) matches Err(refusal)
            && refusal.status == NOT_FOUND),
{
}

/// A summary is safe in an AppleScript string literal: it has no character that ends one or
/// that stands for another.
pub proof fn summary_is_plain(clip: Clip)
    ensures
        !summary_of(clip).contains('"'),
        !summary_of(clip).contains('\\'),
{
    reveal_strlit("text (");
    reveal_strlit(" chars)");
    reveal_strlit("image (");
    reveal_strlit("x");
    reveal_strlit(")");
    match clip {
        Clip::Text(text) => decimal_is_digits(text.len()),
        Clip::Image(pixels) => {
            decimal_is_digits(pixels.width);
            decimal_is_digits(pixels.height);
        },
    }
    let summary = summary_of(clip);
    assert forall|i: int| 0 <= i < summary.len() implies summary[i] != '"' && summary[i]
        != '\\' by {}
}

/// What is shown of a refusal, of a reply and of what the pasteboard said is all that is in it.
pub proof fn answers_are_shown_whole(
    reply: Reply,
    refused: AppError,
    text: String,
    image: Image,
    err: ClipError,
)
    ensures
        reply@.status == reply.status && reply@.content_type == reply.content_type@
            && reply@.body == reply.body@,
        refused@.status == refused.status && refused@.message == refused.message@,
        err@ == err.0@,
        answered(Ok(reply)) == Ok::<Answer, Refusal>(reply@),
        answered(Err(refused)) == Err::<Answer, Refusal>(refused@),
        text_view(Ok(text)) == Ok::<Seq<char>, Seq<char>>(text@),
        text_view(Err(err)) == Err::<Seq<char>, Seq<char>>(err.0@),
        image_view(Ok(image)) == Ok::<Pixels, Seq<char>>(
            Pixels {
                width: image.width as nat,
                height: image.height as nat,
                rgba: image.rgba@,
            },
        ),
        image_view(Err(err)) == Err::<Pixels, Seq<char>>(err.0@),
{
}

/// The text on the clipboard is answered whole, with status 200 and as plain text, by the
/// route for text and by the route for whatever is there; the bytes of the answer are the
/// text's own. Where there is none the route for text says so with status 404 and tells why.
pub proof fn text_is_answered_whole(
    text: Seq<char>,
    image: Result<Pixels, Seq<char>>,
    why: Seq<char>,
)
    ensures
        text_outcome(Ok(text)) matches Ok(answer) && answer.status == 200 && answer.content_type
            == "text/plain; charset=utf-8"@ && decode_utf8(answer.body) == text && valid_utf8(
            answer.body,
        ),
        auto_outcome(Ok(text), image) == text_outcome(Ok(text)),
        text_outcome(Err(why)) matches Err(refusal) && refusal.status == 404 && refusal.message
            == "clipboard holds no text: "@ + why,
{
    encode_utf8_decode_utf8(text);
    encode_utf8_valid_utf8(text);
}

/// Every image whose pixels fill its buffer is answered, with status 200 and as PNG, by the
/// route for the image and, where there is no text, by the route for whatever is there.
pub proof fn every_image_is_answered(pixels: Pixels, no_text: Seq<char>)
    requires
        0 < pixels.width <= u32::MAX,
        0 < pixels.height <= u32::MAX,
        pixels.rgba.len() == 4 * pixels.width * pixels.height,
        pixels.rgba.len() <= usize::MAX,
    ensures
        image_outcome(Ok(pixels)) matches Ok(answer) && answer.status == 200
            && answer.content_type == "image/png"@ && answer.body == png_file(
            pixels.width,
            pixels.height,
            pixels.rgba,
        ),
        auto_outcome(Err(no_text), Ok(pixels)) == image_outcome(Ok(pixels)),
{
    every_image_is_written(pixels);
}

/// Where there is no image the routes for it say so with status 404 and tell why.
pub proof fn missing_image_is_told(no_text: Seq<char>, why: Seq<char>)
    ensures
        image_outcome(Err(why)) matches Err(refusal) && refusal.status == 404 && refusal.message
            == "clipboard holds no image: "@ + why,
        auto_outcome(Err(no_text), Err(why)) matches Err(refusal) && refusal.status == 404
            && refusal.message == "clipboard holds neither text nor an image: "@ + why,
{
}

/// A refusal is answered with its own status and its whole message on a line.
pub proof fn refusal_is_answered_whole(refusal: Refusal)
    ensures
        refusal_answer(refusal).status == refusal.status,
        refusal_answer(refusal).content_type == "text/plain; charset=utf-8"@,
        valid_utf8(refusal_answer(refusal).body),
        decode_utf8(refusal_answer(refusal).body).drop_last() == refusal.message,
        decode_utf8(refusal_answer(refusal).body).last() == '\n',
{
    reveal_strlit("\n");
    let line = refusal.message + "\n"@;
    encode_utf8_decode_utf8(line);
    encode_utf8_valid_utf8(line);
    assert(line.drop_last() == refusal.message);
}

/// An image is answered with the very file that it is written as, and where it cannot be
/// written the answer is status 500 with the very reason.
pub proof fn image_is_answered_as_written(pixels: Pixels)
    ensures
        match png_of(pixels) {
            Ok(png) => image_outcome(Ok(pixels)) == Ok::<Answer, Refusal>(
                Answer { status: 200, content_type: "image/png"@, body: png },
            ),
            Err(why) => image_outcome(Ok(pixels)) == Err::<Answer, Refusal>(
                Refusal { status: 500, message: why },
            ),
        },
        image_outcome(Ok(pixels)) == png_outcome(pixels),
{
}

} // verus!
