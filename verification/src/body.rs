//! What a request body is: text or an image, in whichever format the caller happened to
//! pick.
//!
//! Everything here is shaped by what Apple's Shortcuts app can actually send: a bare GET
//! query, a raw file body, or a multipart form.
use axum::http::{HeaderMap, HeaderValue};
use vstd::prelude::*;
use vstd::string::*;
use vstd::utf8::{decode_utf8, decode_utf8_encode_utf8, valid_utf8};
use crate::auth::str_of;
use crate::clipboard::{Clip, Image, Payload, Pixels};
use crate::headers::{field, field_text};
use crate::imaging::{
    decode, fallback, finish_decode, has_decodable_signature, image_like, loaded, looks_like_image,
    read_view, sniffed_by_bytes, Decoding, ImageError,
};
use crate::reply::{
    text_outcome, Answer, AppError, Refusal, BAD_REQUEST, OK, UNSUPPORTED_MEDIA_TYPE,
};
use crate::text::{
    ascii_lowercase, characters, find, is_white_space, lower_case_by_code_point, position,
    position_bounds, position_in_lower_case, same, split, split_joined, split_nothing, starts_with,
    trim, trimmed, trimmed_in_lower_case, trimmed_is_the_core, trimmed_leaves,
};

verus! {

/// A content type without its parameters (`; boundary=...`) and in lower case.
pub open spec fn mime_of(content_type: Seq<char>) -> Seq<char> {
    ascii_lowercase(trimmed(split(content_type, ';')[0]))
}

/// A content type without its parameters (`; boundary=...`) and in lower case.
pub fn strip_params(value: &str) -> (res: String)
    ensures
        res@ == mime_of(value@),
{
    let chars = characters(value);
    let cut: usize = find(&chars, 0, chars.len(), ';');
    proof {
        assert(chars@.subrange(0, chars@.len() as int) == value@);
        assert(value@.take(value@.len() as int) == value@);
    }
    trim(value.substring_char(0, cut)).to_ascii_lowercase()
}

/// The text of a header field, or nothing at all where there is none.
pub open spec fn or_empty(text: Option<Seq<char>>) -> Seq<char> {
    match text {
        Some(text) => text,
        None => Seq::empty(),
    }
}

/// The content type of a request, without parameters and in lower case; empty where the
/// request names none.
pub fn content_type(headers: &HeaderMap<HeaderValue>) -> (res: String)
    ensures
        res@ == mime_of(or_empty(field_text(*headers, "content-type"@))),
        match field_text(*headers, "content-type"@) {
            Some(text) => res@ == mime_of(text),
            None => res@.len() == 0,
        },
{
    proof {
        reveal_strlit("content-type");
        reveal_strlit("");
        assert(ascii_lowercase("content-type"@) == "content-type"@);
        assert(""@ == Seq::<char>::empty());
    }
    match field(headers, "content-type") {
        Some(value) => strip_params(value),
        None => strip_params(""),
    }
}

/// How the body of a request is to be read.
pub enum BodyKind {
    /// Part by part.
    Multipart,
    /// As a whole, with this content type.
    Whole(String),
}

/// Decides how the body of a request to set the clipboard is to be read.
pub fn set_from_body(headers: &HeaderMap<HeaderValue>) -> (res: BodyKind)
    ensures
        ({
            let mime = mime_of(or_empty(field_text(*headers, "content-type"@)));
            match res {
                BodyKind::Multipart => mime == "multipart/form-data"@,
                BodyKind::Whole(whole) => mime != "multipart/form-data"@ && whole@ == mime,
            }
        }),
        match field_text(*headers, "content-type"@) {
            Some(text) => match res {
                BodyKind::Multipart => mime_of(text) == "multipart/form-data"@,
                BodyKind::Whole(whole) => mime_of(text) != "multipart/form-data"@ && whole@
                    == mime_of(text),
            },
            None => res matches BodyKind::Whole(whole) && whole@.len() == 0,
        },
{
    let mime = content_type(headers);
    proof {
        reveal_strlit("multipart/form-data");
    }
    if same(mime.as_str(), "multipart/form-data") {
        BodyKind::Multipart
    } else {
        BodyKind::Whole(mime)
    }
}

/// What was read, with the payload and the refusal taken by their views.
pub open spec fn outcome_view(res: Result<Payload, AppError>) -> Result<Clip, Refusal> {
    match res {
        Ok(payload) => Ok(payload@),
        Err(err) => Err(err@),
    }
}

/// A refusal of a request that makes no sense.
pub open spec fn bad_request(message: Seq<char>) -> Refusal {
    Refusal { status: BAD_REQUEST, message }
}

/// The payload of a request that sets the clipboard by its query, whose parameter `text`
/// this is.
pub fn set_from_query(text: Option<String>) -> (res: Result<Payload, AppError>)
    ensures
        outcome_view(res) == match text {
            Some(text) => Ok::<Clip, Refusal>(Clip::Text(text@)),
            None => Err(bad_request("missing `text` query parameter"@)),
        },
        text matches Some(text) ==> (res matches Ok(Payload::Text(set)) && set@ == text@),
        text is None ==> (res matches Err(err) && err.status == 400 && err.message@
            == "missing `text` query parameter"@),
{
    match text {
        Some(text) => Ok(Payload::Text(text)),
        None => Err(AppError::bad_request("missing `text` query parameter".to_owned())),
    }
}

/// A body as text: it is where it is valid UTF-8.
pub open spec fn body_text(bytes: Seq<u8>) -> Result<Seq<char>, Refusal> {
    if valid_utf8(bytes) {
        Ok(decode_utf8(bytes))
    } else {
        Err(bad_request("request body is neither a known image nor valid UTF-8"@))
    }
}

/// A body as text.
pub fn as_text(bytes: &[u8]) -> (res: Result<String, AppError>)
    ensures
        match res {
            Ok(text) => body_text(bytes@) == Ok::<Seq<char>, Refusal>(text@),
            Err(err) => body_text(bytes@) == Err::<Seq<char>, Refusal>(err@),
        },
        match res {
            Ok(text) => valid_utf8(bytes@) && text@ == decode_utf8(bytes@),
            Err(err) => !valid_utf8(bytes@) && err.status == 400 && err.message@
                == "request body is neither a known image nor valid UTF-8"@,
        },
{
    match String::from_utf8(vstd::slice::slice_to_vec(bytes)) {
        Ok(text) => Ok(text),
        Err(_) => Err(
            AppError::bad_request(
                "request body is neither a known image nor valid UTF-8".to_owned(),
            ),
        ),
    }
}

/// The fields of a form, as names and values in the order in which they came.
pub open spec fn pairs_view(pairs: Seq<(String, String)>) -> Seq<(Seq<char>, Seq<char>)> {
    pairs.map_values(|pair: (String, String)| (pair.0@, pair.1@))
}

/// What `serde_urlencoded::from_bytes` makes of a body, read as a sequence of names and
/// values: the fields, or the text of the error.
pub uninterp spec fn form_fields(bytes: Seq<u8>) -> Result<
    Seq<(Seq<char>, Seq<char>)>,
    Seq<char>,
>;

/// `serde_urlencoded::from_bytes`, for a sequence of names and values: the fields of an
/// `application/x-www-form-urlencoded` body, decoded, in the order in which they stand
/// there. The outcome is a function of the bytes.
#[verifier::external_body]
fn parse_form(bytes: &[u8]) -> (res: Result<Vec<(String, String)>, String>)
    ensures
        match res {
            Ok(pairs) => form_fields(bytes@) == Ok::<Seq<(Seq<char>, Seq<char>)>, Seq<char>>(
                pairs_view(pairs@),
            ),
            Err(text) => form_fields(bytes@) == Err::<Seq<(Seq<char>, Seq<char>)>, Seq<char>>(
                text@,
            ),
        },
{
    serde_urlencoded::from_bytes::<Vec<(String, String)>>(bytes).map_err(|err| err.to_string())
}

/// The values that a form gives to the field `text`.
pub open spec fn text_values(fields: Seq<(Seq<char>, Seq<char>)>) -> Seq<Seq<char>>
    decreases fields.len(),
{
    if fields.len() == 0 {
        Seq::empty()
    } else {
        let before = text_values(fields.drop_last());
        if fields.last().0 == "text"@ {
            before.push(fields.last().1)
        } else {
            before
        }
    }
}

/// The text of a form: the value of its one field `text`.
pub open spec fn form_text(
    fields: Result<Seq<(Seq<char>, Seq<char>)>, Seq<char>>,
) -> Result<Clip, Refusal> {
    let wanted = "form body needs a `text` field: "@;
    match fields {
        Err(text) => Err(bad_request(wanted + text)),
        Ok(fields) => if text_values(fields).len() == 0 {
            Err(bad_request(wanted + "missing field `text`"@))
        } else if text_values(fields).len() == 1 {
            Ok(Clip::Text(text_values(fields)[0]))
        } else {
            Err(bad_request(wanted + "duplicate field `text`"@))
        },
    }
}

/// The refusal of a form for this reason.
fn bad_form(reason: &str) -> (res: AppError)
    ensures
        res@ == bad_request("form body needs a `text` field: "@ + reason@),
{
    let mut message = "form body needs a `text` field: ".to_owned();
    message.append(reason);
    AppError::bad_request(message)
}

/// The text of a form with these fields.
fn only_text(fields: Vec<(String, String)>) -> (res: Result<Payload, AppError>)
    ensures
        outcome_view(res) == form_text(
            Ok::<Seq<(Seq<char>, Seq<char>)>, Seq<char>>(pairs_view(fields@)),
        ),
        forall|k: int|
            0 <= k < fields@.len() && (#[trigger] fields@[k]).0@ == "text"@ && (forall|j: int|
                0 <= j < fields@.len() && j != k ==> (#[trigger] fields@[j]).0@ != "text"@)
                ==> (res matches Ok(Payload::Text(text)) && text@ == fields@[k].1@),
        res matches Ok(payload) ==> exists|k: int|
            0 <= k < fields@.len() && (#[trigger] fields@[k]).0@ == "text"@ && (payload matches
            Payload::Text(text) && text@ == fields@[k].1@),
{
    let ghost all = pairs_view(fields@);
    proof {
        only_text_by_fields(fields@);
    }
    let mut found: Option<usize> = None;
    let mut i: usize = 0;
    while i < fields.len()
        invariant
            i <= fields@.len(),
            all == pairs_view(fields@),
            text_values(all.take(i as int)) == match found {
                None => Seq::<Seq<char>>::empty(),
                Some(at) => seq![all[at as int].1],
            },
            found matches Some(at) ==> at < i,
        decreases fields@.len() - i,
    {
        let ghost so_far = all.take(i + 1);
        assert(so_far.drop_last() == all.take(i as int));
        assert(so_far.last() == all[i as int]);
        if same(fields[i].0.as_str(), "text") {
            if found.is_some() {
                proof {
                    text_values_grow(all, i + 1);
                    only_text_by_fields(fields@);
                }
                return Err(bad_form("duplicate field `text`"));
            }
            found = Some(i);
        }
        i += 1;
    }
    assert(all.take(all.len() as int) == all);
    match found {
        Some(at) => Ok(Payload::Text(fields[at].1.clone())),
        None => Err(bad_form("missing field `text`")),
    }
}

/// The text of a form that was parsed with this outcome: its fields, or the text of an
/// error.
pub fn text_field(parsed: Result<Vec<(String, String)>, String>) -> (res: Result<
    Payload,
    AppError,
>)
    ensures
        outcome_view(res) == form_text(
            match parsed {
                Ok(fields) => Ok::<Seq<(Seq<char>, Seq<char>)>, Seq<char>>(
                    pairs_view(fields@),
                ),
                Err(text) => Err(text@),
            },
        ),
        parsed matches Ok(fields) ==> forall|k: int|
            0 <= k < fields@.len() && (#[trigger] fields@[k]).0@ == "text"@ && (forall|j: int|
                0 <= j < fields@.len() && j != k ==> (#[trigger] fields@[j]).0@ != "text"@)
                ==> (res matches Ok(Payload::Text(text)) && text@ == fields@[k].1@),
        parsed matches Ok(fields) ==> (res matches Ok(payload) ==> exists|k: int|
            0 <= k < fields@.len() && (#[trigger] fields@[k]).0@ == "text"@ && (payload matches
            Payload::Text(text) && text@ == fields@[k].1@)),
        parsed matches Err(reason) ==> (res matches Err(err) && err.status == 400 && err.message@
            == "form body needs a `text` field: "@ + reason@),
{
    match parsed {
        Ok(fields) => only_text(fields),
        Err(text) => Err(bad_form(text.as_str())),
    }
}

/// What a form gives to the field `text` in its first fields, it gives to it in all.
proof fn text_values_grow(fields: Seq<(Seq<char>, Seq<char>)>, first: int)
    requires
        0 <= first <= fields.len(),
    ensures
        text_values(fields.take(first)).len() <= text_values(fields).len(),
    decreases fields.len(),
{
    if first == fields.len() {
        assert(fields.take(first) == fields);
    } else {
        text_values_grow(fields.drop_last(), first);
        assert(fields.drop_last().take(first) == fields.take(first));
    }
}

/// The text of an `application/x-www-form-urlencoded` body.
pub fn form_field(bytes: &[u8]) -> (res: Result<Payload, AppError>)
    ensures
        outcome_view(res) == form_text(form_fields(bytes@)),
{
    text_field(parse_form(bytes))
}

/// How far the reading of a body came, or what it came to.
#[verifier::ext_equal]
pub enum Progress {
    /// The payload, or the refusal.
    Done(Result<Clip, Refusal>),
    /// The body is an image that is to be transcoded; this is the text of the in-process
    /// failure.
    NeedsSips(Seq<char>),
}

/// How far the reading of a body came.
pub enum Reading {
    /// The payload, or why the request is refused.
    Done(Result<Payload, AppError>),
    /// The body is an image that is to be transcoded, which [`finish_image`] then takes up;
    /// this is the text of the in-process failure.
    NeedsSips(String),
}

impl View for Reading {
    type V = Progress;

    open spec fn view(&self) -> Progress {
        match self {
            Reading::Done(outcome) => Progress::Done(outcome_view(*outcome)),
            Reading::NeedsSips(native) => Progress::NeedsSips(native@),
        }
    }
}

/// A body that is an image, which was decoded in-process with this outcome.
pub open spec fn image_progress(native: Result<Pixels, Seq<char>>) -> Progress {
    match native {
        Ok(pixels) => Progress::Done(Ok(Clip::Image(pixels))),
        Err(text) => Progress::NeedsSips(text),
    }
}

/// A body that is text.
pub open spec fn text_progress(bytes: Seq<u8>) -> Progress {
    match body_text(bytes) {
        Ok(text) => Progress::Done(Ok(Clip::Text(text))),
        Err(refusal) => Progress::Done(Err(refusal)),
    }
}

/// The content type of an image, of whatever format.
pub open spec fn is_image_type(mime: Seq<char>) -> bool {
    "image/"@.is_prefix_of(mime)
}

/// The content type of a form.
pub open spec fn is_form_type(mime: Seq<char>) -> bool {
    mime == "application/x-www-form-urlencoded"@
}

/// The content types of text.
pub open spec fn is_text_type(mime: Seq<char>) -> bool {
    "text/"@.is_prefix_of(mime) || mime == "application/json"@
}

/// What a body is, by its content type where that says it and by its first bytes where it
/// does not. `native` is what decoding the body in-process comes to, and `form` what parsing
/// it as a form comes to.
pub open spec fn body_progress(
    bytes: Seq<u8>,
    mime: Seq<char>,
    native: Result<Pixels, Seq<char>>,
    form: Result<Seq<(Seq<char>, Seq<char>)>, Seq<char>>,
) -> Progress {
    if bytes.len() == 0 {
        Progress::Done(Err(bad_request("empty request body"@)))
    } else if is_image_type(mime) {
        image_progress(native)
    } else if is_form_type(mime) {
        Progress::Done(form_text(form))
    } else if is_text_type(mime) {
        text_progress(bytes)
    } else if image_like(bytes) {
        image_progress(native)
    } else {
        text_progress(bytes)
    }
}

/// Decodes a body that is an image as far as that can be done in-process.
pub fn decode_image(bytes: &[u8]) -> (res: Reading)
    ensures
        res@ == image_progress(loaded(bytes@)),
        !has_decodable_signature(bytes@) ==> res is NeedsSips,
        res matches Reading::Done(Ok(Payload::Image(image))) ==> image@.well_formed(),
        match loaded(bytes@) {
            Ok(pixels) => res matches Reading::Done(Ok(Payload::Image(image))) && image.width
                == pixels.width && image.height == pixels.height && image.rgba@ == pixels.rgba,
            Err(native) => res matches Reading::NeedsSips(text) && text@ == native,
        },
{
    match decode(bytes) {
        Decoding::Done(image) => Reading::Done(Ok(Payload::Image(image))),
        Decoding::NeedsSips(native) => Reading::NeedsSips(native),
    }
}

/// What a body that is an image comes to once the transcoder was tried.
pub open spec fn transcoded_outcome(
    native: Seq<char>,
    transcoded: Result<Pixels, Seq<char>>,
) -> Result<Clip, Refusal> {
    match fallback(native, transcoded) {
        Ok(pixels) => Ok(Clip::Image(pixels)),
        Err(message) => Err(Refusal { status: UNSUPPORTED_MEDIA_TYPE, message }),
    }
}

/// What a body that is an image comes to once the transcoder was tried, where the in-process
/// attempt had failed with `native`.
pub fn finish_image(native: String, transcoded: Result<Image, ImageError>) -> (res: Result<
    Payload,
    AppError,
>)
    ensures
        outcome_view(res) == transcoded_outcome(native@, read_view(transcoded)),
        transcoded matches Ok(image) ==> (res matches Ok(Payload::Image(same)) && same.width
            == image.width && same.height == image.height && same.rgba@ == image.rgba@),
        transcoded matches Ok(image) ==> (image@.well_formed() ==> (res matches Ok(
            Payload::Image(same),
        ) && same@.well_formed())),
        transcoded matches Err(sips) ==> (res matches Err(err) && err.status == 415
            && err.message@ == native@ + "; sips fallback also failed: "@ + sips.0@),
{
    match finish_decode(native, transcoded) {
        Ok(image) => Ok(Payload::Image(image)),
        Err(err) => Err(AppError::new(UNSUPPORTED_MEDIA_TYPE, err.0)),
    }
}

/// Reads a body that is text.
fn read_text(bytes: &[u8]) -> (res: Reading)
    ensures
        res@ == text_progress(bytes@),
{
    match as_text(bytes) {
        Ok(text) => Reading::Done(Ok(Payload::Text(text))),
        Err(err) => Reading::Done(Err(err)),
    }
}

/// Reads a body with this content type, which is without parameters and in lower case.
pub fn from_bytes(bytes: &[u8], mime: &str) -> (res: Reading)
    ensures
        res@ == body_progress(bytes@, mime@, loaded(bytes@), form_fields(bytes@)),
        bytes@.len() > 0 && !has_decodable_signature(bytes@) && (is_image_type(mime@)
            || !is_form_type(mime@) && !is_text_type(mime@) && image_like(bytes@))
            ==> res is NeedsSips,
        res matches Reading::Done(Ok(Payload::Image(image))) ==> image@.well_formed(),
{
    if bytes.len() == 0 {
        return Reading::Done(Err(AppError::bad_request("empty request body".to_owned())));
    }
    if starts_with(mime, "image/") {
        return decode_image(bytes);
    }
    if same(mime, "application/x-www-form-urlencoded") {
        return Reading::Done(form_field(bytes));
    }
    if starts_with(mime, "text/") || same(mime, "application/json") {
        return read_text(bytes);
    }
    // Unlabelled or `application/octet-stream`: the "file" body type of Shortcuts sends
    // whatever the share sheet handed it, so sniff before giving up.
    if looks_like_image(bytes) {
        return decode_image(bytes);
    }
    read_text(bytes)
}

/// What the header of a part of a multipart body says of it.
pub struct PartHead {
    /// The content type, without parameters and in lower case.
    pub mime: String,
    /// Whether the part is a file.
    pub is_file: bool,
}

/// Whether a part with this content type, which has a file name or has not, is a file.
pub open spec fn is_file_part(content_type: Seq<char>, has_file_name: bool) -> bool {
    has_file_name || is_image_type(mime_of(content_type))
}

/// What the header of a part says of it, given its content type and whether it has a file
/// name. The name of the field does not matter.
pub fn part_head(content_type: Option<&str>, has_file_name: bool) -> (res: PartHead)
    ensures
        res.mime@ == mime_of(or_empty(str_of(content_type))),
        res.is_file == is_file_part(or_empty(str_of(content_type)), has_file_name),
        content_type matches Some(text) ==> res.mime@ == mime_of(text@),
        content_type is None ==> res.mime@.len() == 0,
        res.is_file == (has_file_name || "image/"@.is_prefix_of(res.mime@)),
{
    let mime = match content_type {
        Some(value) => strip_params(value),
        None => {
            proof {
                reveal_strlit("");
                assert(""@ == Seq::<char>::empty());
            }
            strip_params("")
        },
    };
    let is_file = has_file_name || starts_with(mime.as_str(), "image/");
    PartHead { mime, is_file }
}

/// The view of an optional outcome.
pub open spec fn kept_view(outcome: Option<Result<Payload, AppError>>) -> Option<
    Result<Clip, Refusal>,
> {
    match outcome {
        Some(outcome) => Some(outcome_view(outcome)),
        None => None,
    }
}

/// Where the reading of a multipart body stands after a part.
#[verifier::ext_equal]
pub enum FormProgress {
    /// The next part is to be read; this is what the body comes to if no file follows.
    More(Option<Result<Clip, Refusal>>),
    /// What the body comes to, whatever follows.
    Done(Result<Clip, Refusal>),
    /// The part is a file that is to be transcoded, and what that comes to the body comes to,
    /// whatever follows. This is the text of the in-process failure.
    NeedsSips(Seq<char>),
}

/// A multipart body, as far as it was read. A file is an image, and wins outright; other
/// parts are text, and only a fallback, of which the first counts.
pub struct FormReader {
    fallback: Option<Result<Payload, AppError>>,
}

impl View for FormReader {
    type V = Option<Result<Clip, Refusal>>;

    closed spec fn view(&self) -> Option<Result<Clip, Refusal>> {
        kept_view(self.fallback)
    }
}

/// What is to be done after a part.
pub enum FormStep {
    /// Read the next part.
    More(FormReader),
    /// Nothing: this is the payload, or why the request is refused.
    Done(Result<Payload, AppError>),
    /// Transcode the part, which [`finish_image`] then turns into the payload or the refusal;
    /// this is the text of the in-process failure.
    NeedsSips(String),
}

impl View for FormStep {
    type V = FormProgress;

    open spec fn view(&self) -> FormProgress {
        match self {
            FormStep::More(reader) => FormProgress::More(reader@),
            FormStep::Done(outcome) => FormProgress::Done(outcome_view(*outcome)),
            FormStep::NeedsSips(native) => FormProgress::NeedsSips(native@),
        }
    }
}

/// Where a multipart body stands after a file whose reading came this far: a file decides,
/// whatever came before it.
pub open spec fn after_file(file: Progress) -> FormProgress {
    match file {
        Progress::Done(outcome) => FormProgress::Done(outcome),
        Progress::NeedsSips(native) => FormProgress::NeedsSips(native),
    }
}

/// The fallback after a part that is no file and came to this outcome: the first one stays.
pub open spec fn after_field(
    fallback: Option<Result<Clip, Refusal>>,
    outcome: Result<Clip, Refusal>,
) -> Option<Result<Clip, Refusal>> {
    match fallback {
        Some(first) => Some(first),
        None => Some(outcome),
    }
}

/// What a part that is no file comes to: the text of a form where it is labelled as one, and
/// otherwise its own text, or the refusal of what is none. `form` is what parsing it as a form
/// comes to.
pub open spec fn field_outcome(
    mime: Seq<char>,
    bytes: Seq<u8>,
    form: Result<Seq<(Seq<char>, Seq<char>)>, Seq<char>>,
) -> Result<Clip, Refusal> {
    if is_form_type(mime) {
        form_text(form)
    } else {
        match body_text(bytes) {
            Ok(text) => Ok(Clip::Text(text)),
            Err(refusal) => Err(refusal),
        }
    }
}

/// What a multipart body without a file comes to at its end.
pub open spec fn form_end(fallback: Option<Result<Clip, Refusal>>) -> Result<Clip, Refusal> {
    match fallback {
        Some(outcome) => outcome,
        None => Err(bad_request("multipart body had no usable field"@)),
    }
}

/// Reads a part that is no file.
fn read_field(mime: &str, bytes: &[u8]) -> (res: Result<Payload, AppError>)
    ensures
        outcome_view(res) == field_outcome(mime@, bytes@, form_fields(bytes@)),
{
    if same(mime, "application/x-www-form-urlencoded") {
        return form_field(bytes);
    }
    match as_text(bytes) {
        Ok(text) => Ok(Payload::Text(text)),
        Err(err) => Err(err),
    }
}

impl FormReader {
    /// A multipart body of which nothing was read yet.
    pub fn new() -> (res: Self)
        ensures
            res@ is None,
    {
        FormReader { fallback: None }
    }

    /// Takes a file that is not empty, whose reading came this far.
    pub fn file(self, file: Reading) -> (res: FormStep)
        ensures
            res@ == after_file(file@),
            match file {
                Reading::Done(outcome) => res == FormStep::Done(outcome),
                Reading::NeedsSips(native) => res == FormStep::NeedsSips(native),
            },
    {
        match file {
            Reading::Done(outcome) => FormStep::Done(outcome),
            Reading::NeedsSips(native) => FormStep::NeedsSips(native),
        }
    }

    /// Takes a part that is no file and not empty, and that came to this outcome. That it
    /// cannot be read matters only where it is the first and no file follows.
    pub fn field(self, outcome: Result<Payload, AppError>) -> (res: FormReader)
        ensures
            res@ == after_field(self@, outcome_view(outcome)),
            self@ is Some ==> res@ == self@,
            self@ is None ==> res@ == Some(outcome_view(outcome)),
    {
        let fallback = match self.fallback {
            Some(first) => Some(first),
            None => Some(outcome),
        };
        FormReader { fallback }
    }

    /// Reads the next part: a file as an image, any other part as text. An empty one counts
    /// for nothing.
    pub fn read_part(self, head: &PartHead, bytes: &[u8]) -> (res: FormStep)
        ensures
            res@ == if bytes@.len() == 0 {
                FormProgress::More(self@)
            } else if head.is_file {
                after_file(image_progress(loaded(bytes@)))
            } else {
                FormProgress::More(
                    after_field(
                        self@,
                        field_outcome(head.mime@, bytes@, form_fields(bytes@)),
                    ),
                )
            },
            bytes@.len() > 0 && head.is_file && !has_decodable_signature(bytes@)
                ==> res is NeedsSips,
            bytes@.len() > 0 && head.is_file ==> !(res is More) && !(res matches FormStep::Done(
                Ok(Payload::Text(_)),
            )),
            res matches FormStep::Done(Ok(Payload::Image(image))) ==> image@.well_formed(),
            bytes@.len() == 0 ==> (res matches FormStep::More(next) && next@ == self@),
            bytes@.len() > 0 && head.is_file ==> match loaded(bytes@) {
                Ok(pixels) => res matches FormStep::Done(Ok(Payload::Image(image)))
                    && image.width == pixels.width && image.height == pixels.height
                    && image.rgba@ == pixels.rgba,
                Err(native) => res matches FormStep::NeedsSips(text) && text@ == native,
            },
            bytes@.len() > 0 && !head.is_file ==> (res matches FormStep::More(next) && (self@
                is Some ==> next@ == self@) && (self@ is None ==> next@ is Some)),
            bytes@.len() > 0 && !head.is_file && self@ is None && head.mime@
                != "application/x-www-form-urlencoded"@ ==> (res matches FormStep::More(next)
                && next@ == Some(
                if valid_utf8(bytes@) {
                    Ok::<Clip, Refusal>(Clip::Text(decode_utf8(bytes@)))
                } else {
                    Err(Refusal { status: 400, message: "request body is neither a known image nor valid UTF-8"@ })
                },
            )),
    {
        if bytes.len() == 0 {
            return FormStep::More(self);
        }
        if head.is_file {
            self.file(decode_image(bytes))
        } else {
            FormStep::More(self.field(read_field(head.mime.as_str(), bytes)))
        }
    }

    /// What the body comes to, there being no further part.
    pub fn finish(self) -> (res: Result<Payload, AppError>)
        ensures
            outcome_view(res) == form_end(self@),
            self@ matches Some(outcome) ==> outcome_view(res) == outcome,
            self@ is None ==> (res matches Err(err) && err.status == 400 && err.message@
                == "multipart body had no usable field"@),
    {
        match self.fallback {
            Some(outcome) => outcome,
            None => Err(AppError::bad_request("multipart body had no usable field".to_owned())),
        }
    }
}

/// The largest body that is accepted, in bytes, where it is given in MiB.
pub fn body_limit(max_body_mb: usize) -> (res: usize)
    requires
        max_body_mb * 1048576 <= usize::MAX,
    ensures
        res == max_body_mb * 1048576,
{
    max_body_mb * 1024 * 1024
}

/// A part of a multipart body as it comes: whether it is a file, its content type and its
/// bytes, and what decoding them in-process, having them transcoded and parsing them as a form
/// comes to.
pub struct RawPart {
    pub is_file: bool,
    pub mime: Seq<char>,
    pub bytes: Seq<u8>,
    pub native: Result<Pixels, Seq<char>>,
    pub transcoded: Result<Pixels, Seq<char>>,
    pub form: Result<Seq<(Seq<char>, Seq<char>)>, Seq<char>>,
}

/// What a file comes to: an image, or the refusal of one.
pub open spec fn file_outcome(
    native: Result<Pixels, Seq<char>>,
    transcoded: Result<Pixels, Seq<char>>,
) -> Result<Clip, Refusal> {
    match native {
        Ok(pixels) => Ok(Clip::Image(pixels)),
        Err(text) => transcoded_outcome(text, transcoded),
    }
}

/// What a multipart body comes to, of which `parts` are left to be read.
pub open spec fn form_outcome(
    fallback: Option<Result<Clip, Refusal>>,
    parts: Seq<RawPart>,
) -> Result<Clip, Refusal>
    decreases parts.len(),
{
    if parts.len() == 0 {
        form_end(fallback)
    } else {
        let part = parts[0];
        let rest = parts.drop_first();
        if part.bytes.len() == 0 {
            form_outcome(fallback, rest)
        } else if part.is_file {
            file_outcome(part.native, part.transcoded)
        } else {
            form_outcome(
                after_field(fallback, field_outcome(part.mime, part.bytes, part.form)),
                rest,
            )
        }
    }
}

/// What a multipart body of these parts comes to.
pub open spec fn multipart_outcome(parts: Seq<RawPart>) -> Result<Clip, Refusal> {
    form_outcome(None, parts)
}

/// What a multipart body comes to from this step on, where a file that is to be transcoded
/// comes to `transcoded`, and `rest` follows.
pub open spec fn step_outcome(
    step: FormProgress,
    transcoded: Result<Pixels, Seq<char>>,
    rest: Seq<RawPart>,
) -> Result<Clip, Refusal> {
    match step {
        FormProgress::More(fallback) => form_outcome(fallback, rest),
        FormProgress::Done(outcome) => outcome,
        FormProgress::NeedsSips(native) => transcoded_outcome(native, transcoded),
    }
}

/// Going on as the steps say, part by part and up to the end, gives what the body comes to.
pub proof fn steps_lead_to_the_outcome(
    fallback: Option<Result<Clip, Refusal>>,
    part: RawPart,
    rest: Seq<RawPart>,
)
    ensures
        form_outcome(fallback, Seq::empty()) == form_end(fallback),
        form_outcome(fallback, seq![part] + rest) == step_outcome(
            if part.bytes.len() == 0 {
                FormProgress::More(fallback)
            } else if part.is_file {
                after_file(image_progress(part.native))
            } else {
                FormProgress::More(
                    after_field(fallback, field_outcome(part.mime, part.bytes, part.form)),
                )
            },
            part.transcoded,
            rest,
        ),
{
    let all = seq![part] + rest;
    assert(all[0] == part);
    assert(all.drop_first() == rest);
}

/// A part that is a file with something in it.
pub open spec fn is_full_file(part: RawPart) -> bool {
    part.is_file && part.bytes.len() > 0
}

/// The first file decides, whatever the fallback is.
proof fn file_decides(
    fallback: Option<Result<Clip, Refusal>>,
    parts: Seq<RawPart>,
    file: int,
)
    requires
        0 <= file < parts.len(),
        is_full_file(parts[file]),
        forall|i: int| 0 <= i < file ==> !is_full_file(#[trigger] parts[i]),
    ensures
        form_outcome(fallback, parts) == file_outcome(
            parts[file].native,
            parts[file].transcoded,
        ),
    decreases file,
{
    if file > 0 {
        let part = parts[0];
        let rest = parts.drop_first();
        assert(!is_full_file(part));
        assert forall|i: int| 0 <= i < file - 1 implies !is_full_file(#[trigger] rest[i]) by {
            assert(rest[i] == parts[i + 1]);
        }
        let next = if part.bytes.len() == 0 {
            fallback
        } else {
            after_field(fallback, field_outcome(part.mime, part.bytes, part.form))
        };
        file_decides(next, rest, file - 1);
    }
}

/// The first file of a multipart body becomes an image, or is refused as one, whatever came
/// before it and whatever follows it. It never becomes text. An empty file counts for nothing.
pub proof fn first_file_becomes_an_image(parts: Seq<RawPart>, file: int)
    requires
        0 <= file < parts.len(),
        parts[file].is_file,
        parts[file].bytes.len() > 0,
        forall|i: int|
            0 <= i < file ==> !(#[trigger] parts[i]).is_file || parts[i].bytes.len() == 0,
    ensures
        multipart_outcome(parts) == file_outcome(parts[file].native, parts[file].transcoded),
        !(multipart_outcome(parts) matches Ok(Clip::Text(_))),
        match (parts[file].native, parts[file].transcoded) {
            (Ok(pixels), _) => multipart_outcome(parts) == Ok::<Clip, Refusal>(
                Clip::Image(pixels),
            ),
            (Err(_), Ok(pixels)) => multipart_outcome(parts) == Ok::<Clip, Refusal>(
                Clip::Image(pixels),
            ),
            (Err(native), Err(sips)) => multipart_outcome(parts) == Err::<Clip, Refusal>(
                Refusal {
                    status: 415,
                    message: native + "; sips fallback also failed: "@ + sips,
                },
            ),
        },
{
    file_decides(None, parts, file);
}

/// Without a file, the fallback stays what it is.
proof fn fallback_stays(first: Result<Clip, Refusal>, parts: Seq<RawPart>)
    requires
        forall|i: int| 0 <= i < parts.len() ==> !is_full_file(#[trigger] parts[i]),
    ensures
        form_outcome(Some(first), parts) == first,
    decreases parts.len(),
{
    if parts.len() > 0 {
        let rest = parts.drop_first();
        assert(!is_full_file(parts[0]));
        assert forall|i: int| 0 <= i < rest.len() implies !is_full_file(#[trigger] rest[i]) by {
            assert(rest[i] == parts[i + 1]);
        }
        fallback_stays(first, rest);
    }
}

/// A multipart body without a file becomes the text of its first part, or is refused for want
/// of one, whatever that starts with and whatever follows it. It never becomes an image. An
/// empty part counts for nothing.
pub proof fn first_field_becomes_text(parts: Seq<RawPart>, first: int)
    requires
        0 <= first < parts.len(),
        parts[first].bytes.len() > 0,
        forall|i: int| 0 <= i < first ==> (#[trigger] parts[i]).bytes.len() == 0,
        forall|i: int|
            0 <= i < parts.len() ==> !(#[trigger] parts[i]).is_file || parts[i].bytes.len() == 0,
    ensures
        multipart_outcome(parts) == field_outcome(
            parts[first].mime,
            parts[first].bytes,
            parts[first].form,
        ),
        !(multipart_outcome(parts) matches Ok(Clip::Image(_))),
        parts[first].mime != "application/x-www-form-urlencoded"@ && valid_utf8(
            parts[first].bytes,
        ) ==> multipart_outcome(parts) == Ok::<Clip, Refusal>(
            Clip::Text(decode_utf8(parts[first].bytes)),
        ),
        parts[first].mime != "application/x-www-form-urlencoded"@ && !valid_utf8(
            parts[first].bytes,
        ) ==> multipart_outcome(parts) == Err::<Clip, Refusal>(
            Refusal { status: 400, message: "request body is neither a known image nor valid UTF-8"@ },
        ),
        parts[first].mime == "application/x-www-form-urlencoded"@ ==> multipart_outcome(parts)
            == form_text(parts[first].form),
    decreases first,
{
    let rest = parts.drop_first();
    assert(!is_full_file(parts[0]));
    assert forall|i: int| 0 <= i < rest.len() implies !is_full_file(#[trigger] rest[i]) by {
        assert(rest[i] == parts[i + 1]);
    }
    if first == 0 {
        fallback_stays(field_outcome(parts[0].mime, parts[0].bytes, parts[0].form), rest);
    } else {
        assert(parts[0].bytes.len() == 0);
        assert forall|i: int| 0 <= i < first - 1 implies (#[trigger] rest[i]).bytes.len()
            == 0 by {
            assert(rest[i] == parts[i + 1]);
        }
        assert forall|i: int| 0 <= i < rest.len() implies !(#[trigger] rest[i]).is_file
            || rest[i].bytes.len() == 0 by {
            assert(!is_full_file(rest[i]));
        }
        first_field_becomes_text(rest, first - 1);
    }
}

/// A multipart body in which every part is empty, or that has none, is refused.
pub proof fn nothing_usable_is_refused(parts: Seq<RawPart>)
    requires
        forall|i: int| 0 <= i < parts.len() ==> (#[trigger] parts[i]).bytes.len() == 0,
    ensures
        multipart_outcome(parts) == Err::<Clip, Refusal>(
            bad_request("multipart body had no usable field"@),
        ),
        multipart_outcome(parts) == Err::<Clip, Refusal>(
            Refusal { status: 400, message: "multipart body had no usable field"@ },
        ),
    decreases parts.len(),
{
    if parts.len() > 0 {
        let rest = parts.drop_first();
        assert(parts[0].bytes.len() == 0);
        assert forall|i: int| 0 <= i < rest.len() implies (#[trigger] rest[i]).bytes.len()
            == 0 by {
            assert(rest[i] == parts[i + 1]);
        }
        nothing_usable_is_refused(rest);
    }
}

/// The first piece of a text is what stands before the first separator.
proof fn first_piece(s: Seq<char>, separator: char)
    ensures
        0 <= position(s, separator) <= s.len(),
        split(s, separator)[0] == s.take(position(s, separator)),
        !split(s, separator)[0].contains(separator),
{
    position_bounds(s, separator);
    assert(s.take(s.len() as int) == s);
}

/// The parameters of a content type make no difference.
pub proof fn parameters_do_not_matter(value: Seq<char>, params: Seq<char>)
    ensures
        mime_of(value.push(';') + params) == mime_of(value),
{
    split_joined(value, ';', params);
    first_piece(value, ';');
}

/// The case of the letters in a content type makes no difference.
pub proof fn case_does_not_matter(value: Seq<char>)
    ensures
        mime_of(ascii_lowercase(value)) == mime_of(value),
{
    first_piece(value, ';');
    first_piece(ascii_lowercase(value), ';');
    position_in_lower_case(value, ';');
    let piece = split(value, ';')[0];
    assert(split(ascii_lowercase(value), ';')[0] == ascii_lowercase(piece));
    trimmed_in_lower_case(piece);
    trimmed_in_lower_case(trimmed(piece));
}

/// What is left of a content type has no parameters, no white space around it and no letter
/// in upper case, so that nothing more is taken from it.
pub proof fn mime_is_settled(value: Seq<char>)
    ensures
        mime_of(mime_of(value)) == mime_of(value),
        !mime_of(value).contains(';'),
        forall|i: int| 0 <= i < mime_of(value).len() ==> !('A' <= #[trigger] mime_of(value)[i] <= 'Z'),
{
    let piece = split(value, ';')[0];
    let kept = trimmed(piece);
    let mime = mime_of(value);
    first_piece(value, ';');
    trimmed_leaves(piece);
    trimmed_in_lower_case(kept);
    position_bounds(kept, ';');
    position_bounds(mime, ';');
    position_in_lower_case(kept, ';');
    split_nothing(mime, ';');
}

/// Text that is pushed, labelled as text or not labelled at all, is what is read back, byte
/// for byte.
pub proof fn text_comes_back(
    bytes: Seq<u8>,
    mime: Seq<char>,
    native: Result<Pixels, Seq<char>>,
    form: Result<Seq<(Seq<char>, Seq<char>)>, Seq<char>>,
)
    requires
        bytes.len() > 0,
        valid_utf8(bytes),
        is_text_type(mime) || !is_image_type(mime) && !is_form_type(mime) && !image_like(bytes),
    ensures
        body_progress(bytes, mime, native, form) == Progress::Done(
            Ok(Clip::Text(decode_utf8(bytes))),
        ),
        text_outcome(Ok(decode_utf8(bytes))) == Ok::<Answer, Refusal>(
            Answer { status: OK, content_type: "text/plain; charset=utf-8"@, body: bytes },
        ),
{
    reveal_strlit("image/");
    reveal_strlit("text/");
    reveal_strlit("application/json");
    reveal_strlit("application/x-www-form-urlencoded");
    decode_utf8_encode_utf8(bytes);
    if is_text_type(mime) {
        if mime == "application/json"@ {
            assert("image/"@[0] != mime[0]);
            assert(mime.len() != "application/x-www-form-urlencoded"@.len());
        } else {
            assert(mime[0] == "text/"@[0]);
            assert("image/"@[0] != mime[0]);
        }
    }
}

/// What a form comes to, by its fields.
proof fn only_text_by_fields(fields: Seq<(String, String)>)
    ensures
        forall|k: int|
            0 <= k < fields.len() && (#[trigger] fields[k]).0@ == "text"@ && (forall|j: int|
                0 <= j < fields.len() && j != k ==> (#[trigger] fields[j]).0@ != "text"@)
                ==> form_text(Ok(pairs_view(fields))) == Ok::<Clip, Refusal>(
                Clip::Text(fields[k].1@),
            ),
        form_text(Ok(pairs_view(fields))) is Ok ==> exists|k: int|
            0 <= k < fields.len() && (#[trigger] fields[k]).0@ == "text"@ && form_text(
                Ok(pairs_view(fields)),
            ) == Ok::<Clip, Refusal>(Clip::Text(fields[k].1@)),
{
    let all = pairs_view(fields);
    assert forall|k: int|
        0 <= k < fields.len() && (#[trigger] fields[k]).0@ == "text"@ && (forall|j: int|
            0 <= j < fields.len() && j != k ==> (#[trigger] fields[j]).0@ != "text"@)
        implies form_text(Ok(all)) == Ok::<Clip, Refusal>(Clip::Text(fields[k].1@)) by {
        assert(all[k].0 == "text"@);
        assert forall|j: int| 0 <= j < all.len() && j != k implies (#[trigger] all[j]).0
            != "text"@ by {
            assert(fields[j].0@ != "text"@);
        }
        one_text_field_is_the_text(all, k);
    }
    if form_text(Ok(all)) is Ok {
        let k = text_comes_from_a_field(all);
        assert(fields[k].0@ == "text"@);
    }
}

/// The value that a form gives to its only field `text`.
proof fn text_values_of_one(fields: Seq<(Seq<char>, Seq<char>)>, k: int)
    requires
        0 <= k < fields.len(),
        fields[k].0 == "text"@,
        forall|j: int| 0 <= j < fields.len() && j != k ==> (#[trigger] fields[j]).0 != "text"@,
    ensures
        text_values(fields) == seq![fields[k].1],
    decreases fields.len(),
{
    let before = fields.drop_last();
    if k == fields.len() - 1 {
        text_values_of_none(before);
    } else {
        assert(fields.last().0 != "text"@);
        text_values_of_one(before, k);
    }
}

/// A form without a field `text` gives it no value.
proof fn text_values_of_none(fields: Seq<(Seq<char>, Seq<char>)>)
    requires
        forall|j: int| 0 <= j < fields.len() ==> (#[trigger] fields[j]).0 != "text"@,
    ensures
        text_values(fields) == Seq::<Seq<char>>::empty(),
    decreases fields.len(),
{
    if fields.len() > 0 {
        assert(fields.last().0 != "text"@);
        text_values_of_none(fields.drop_last());
    }
}

/// A form with a field `text` gives it a value.
proof fn text_values_of_some(fields: Seq<(Seq<char>, Seq<char>)>, k: int)
    requires
        0 <= k < fields.len(),
        fields[k].0 == "text"@,
    ensures
        text_values(fields).len() >= 1,
    decreases fields.len(),
{
    if k < fields.len() - 1 {
        text_values_of_some(fields.drop_last(), k);
    }
}

/// Where a form comes to a text, the text is the value of one of its fields `text`.
proof fn text_comes_from_a_field(fields: Seq<(Seq<char>, Seq<char>)>) -> (k: int)
    requires
        form_text(Ok(fields)) is Ok,
    ensures
        0 <= k < fields.len(),
        fields[k].0 == "text"@,
        form_text(Ok(fields)) == Ok::<Clip, Refusal>(Clip::Text(fields[k].1)),
{
    field_of_one_value(fields)
}

/// The field from which the only value for `text` comes.
proof fn field_of_one_value(fields: Seq<(Seq<char>, Seq<char>)>) -> (k: int)
    requires
        text_values(fields).len() == 1,
    ensures
        0 <= k < fields.len(),
        fields[k].0 == "text"@,
        text_values(fields)[0] == fields[k].1,
    decreases fields.len(),
{
    if fields.last().0 == "text"@ {
        fields.len() - 1
    } else {
        field_of_one_value(fields.drop_last())
    }
}

/// A form with exactly one field `text`, wherever it stands and whatever the other fields are,
/// comes to the value of that field, whole and unchanged.
pub proof fn one_text_field_is_the_text(fields: Seq<(Seq<char>, Seq<char>)>, k: int)
    requires
        0 <= k < fields.len(),
        fields[k].0 == "text"@,
        forall|j: int| 0 <= j < fields.len() && j != k ==> (#[trigger] fields[j]).0 != "text"@,
    ensures
        form_text(Ok(fields)) == Ok::<Clip, Refusal>(Clip::Text(fields[k].1)),
{
    text_values_of_one(fields, k);
}

/// A form without a field `text` is refused.
pub proof fn form_without_text_is_refused(fields: Seq<(Seq<char>, Seq<char>)>)
    requires
        forall|j: int| 0 <= j < fields.len() ==> (#[trigger] fields[j]).0 != "text"@,
    ensures
        form_text(Ok(fields)) == Err::<Clip, Refusal>(
            Refusal {
                status: 400,
                message: "form body needs a `text` field: "@ + "missing field `text`"@,
            },
        ),
{
    text_values_of_none(fields);
}

/// A form with two fields `text` is refused.
pub proof fn form_with_two_texts_is_refused(
    fields: Seq<(Seq<char>, Seq<char>)>,
    i: int,
    j: int,
)
    requires
        0 <= i < j < fields.len(),
        fields[i].0 == "text"@,
        fields[j].0 == "text"@,
    ensures
        form_text(Ok(fields)) == Err::<Clip, Refusal>(
            Refusal {
                status: 400,
                message: "form body needs a `text` field: "@ + "duplicate field `text`"@,
            },
        ),
{
    text_values_of_some(fields.take(j), i);
    assert(fields.take(j + 1).drop_last() == fields.take(j));
    text_values_grow(fields, j + 1);
}

/// A form that cannot be parsed is refused, with the parser's own words.
pub proof fn broken_form_is_refused(reason: Seq<char>)
    ensures
        form_text(Err(reason)) == Err::<Clip, Refusal>(
            Refusal { status: 400, message: "form body needs a `text` field: "@ + reason },
        ),
{
}

/// What is shown of a payload, of an outcome and of the reading of a body is all that is in
/// it.
pub proof fn outcomes_are_shown_whole(
    text: String,
    image: Image,
    err: AppError,
    native: String,
    outcome: Result<Payload, AppError>,
    fields: Seq<(String, String)>,
)
    ensures
        outcome_view(Ok(Payload::Text(text))) == Ok::<Clip, Refusal>(Clip::Text(text@)),
        outcome_view(Ok(Payload::Image(image))) == Ok::<Clip, Refusal>(
            Clip::Image(
                Pixels {
                    width: image.width as nat,
                    height: image.height as nat,
                    rgba: image.rgba@,
                },
            ),
        ),
        outcome_view(Err(err)) == Err::<Clip, Refusal>(
            Refusal { status: err.status, message: err.message@ },
        ),
        Reading::Done(outcome)@ == Progress::Done(outcome_view(outcome)),
        Reading::NeedsSips(native)@ == Progress::NeedsSips(native@),
        FormStep::Done(outcome)@ == FormProgress::Done(outcome_view(outcome)),
        FormStep::NeedsSips(native)@ == FormProgress::NeedsSips(native@),
        pairs_view(fields).len() == fields.len(),
        forall|i: int|
            0 <= i < fields.len() ==> (#[trigger] pairs_view(fields)[i]).0 == fields[i].0@
                && pairs_view(fields)[i].1 == fields[i].1@,
{
}

/// A text that begins with one of these does not begin with another of them, nor is it the
/// name of a form or of JSON.
proof fn labels_differ(mime: Seq<char>)
    ensures
        "image/"@.is_prefix_of(mime) ==> !"text/"@.is_prefix_of(mime) && mime
            != "application/json"@ && mime != "application/x-www-form-urlencoded"@,
        "text/"@.is_prefix_of(mime) ==> mime != "application/json"@ && mime
            != "application/x-www-form-urlencoded"@,
        "application/json"@ != "application/x-www-form-urlencoded"@,
{
    reveal_strlit("image/");
    reveal_strlit("text/");
    reveal_strlit("application/json");
    reveal_strlit("application/x-www-form-urlencoded");
    if "image/"@.is_prefix_of(mime) {
        assert(mime[0] == "image/"@[0]);
    }
    if "text/"@.is_prefix_of(mime) {
        assert(mime[0] == "text/"@[0]);
    }
    assert("application/json"@.len() != "application/x-www-form-urlencoded"@.len());
}

/// An empty body is refused, whatever it is labelled as.
pub proof fn empty_body_is_refused(
    mime: Seq<char>,
    native: Result<Pixels, Seq<char>>,
    form: Result<Seq<(Seq<char>, Seq<char>)>, Seq<char>>,
)
    ensures
        body_progress(Seq::empty(), mime, native, form) == Progress::Done(
            Err(Refusal { status: 400, message: "empty request body"@ }),
        ),
{
}

/// A body that is labelled as an image becomes the image that it decodes into, pixel for
/// pixel, and is left to the transcoder where it does not decode.
pub proof fn labelled_image_is_the_image(
    bytes: Seq<u8>,
    mime: Seq<char>,
    pixels: Pixels,
    failure: Seq<char>,
    form: Result<Seq<(Seq<char>, Seq<char>)>, Seq<char>>,
)
    requires
        bytes.len() > 0,
        "image/"@.is_prefix_of(mime),
    ensures
        body_progress(bytes, mime, Ok(pixels), form) == Progress::Done(
            Ok(Clip::Image(pixels)),
        ),
        body_progress(bytes, mime, Err(failure), form) == Progress::NeedsSips(failure),
{
}

/// A body that is labelled as a form comes to what its fields come to.
pub proof fn labelled_form_is_the_form(
    bytes: Seq<u8>,
    native: Result<Pixels, Seq<char>>,
    form: Result<Seq<(Seq<char>, Seq<char>)>, Seq<char>>,
)
    requires
        bytes.len() > 0,
    ensures
        body_progress(bytes, "application/x-www-form-urlencoded"@, native, form)
            == Progress::Done(form_text(form)),
{
    labels_differ("application/x-www-form-urlencoded"@);
}

/// A body that is labelled as text becomes its text, whole, and is refused where it is not
/// UTF-8, whatever it begins with.
pub proof fn labelled_text_is_the_text(
    bytes: Seq<u8>,
    mime: Seq<char>,
    native: Result<Pixels, Seq<char>>,
    form: Result<Seq<(Seq<char>, Seq<char>)>, Seq<char>>,
)
    requires
        bytes.len() > 0,
        "text/"@.is_prefix_of(mime) || mime == "application/json"@,
    ensures
        valid_utf8(bytes) ==> body_progress(bytes, mime, native, form) == Progress::Done(
            Ok(Clip::Text(decode_utf8(bytes))),
        ),
        !valid_utf8(bytes) ==> body_progress(bytes, mime, native, form) == Progress::Done(
            Err(Refusal { status: 400, message: "request body is neither a known image nor valid UTF-8"@ }),
        ),
{
    labels_differ(mime);
}

/// A body whose label says nothing is an image where one of these signatures or a HEIF box
/// stands in its bytes. Everywhere else it is text: its text, whole, where it is UTF-8, and
/// refused where it is not.
pub proof fn unlabelled_body_is_sniffed(
    bytes: Seq<u8>,
    mime: Seq<char>,
    native: Result<Pixels, Seq<char>>,
    form: Result<Seq<(Seq<char>, Seq<char>)>, Seq<char>>,
)
    requires
        bytes.len() > 0,
        !"image/"@.is_prefix_of(mime),
        !"text/"@.is_prefix_of(mime),
        mime != "application/json"@,
        mime != "application/x-www-form-urlencoded"@,
    ensures
        ({
            let image = {
                ||| seq![0x89u8, 0x50, 0x4e, 0x47, 0x0d, 0x0a, 0x1a, 0x0a].is_prefix_of(bytes)
                ||| seq![0xffu8, 0xd8, 0xff].is_prefix_of(bytes)
                ||| seq![0x47u8, 0x49, 0x46, 0x38, 0x39, 0x61].is_prefix_of(bytes)
                ||| seq![0x47u8, 0x49, 0x46, 0x38, 0x37, 0x61].is_prefix_of(bytes)
                ||| bytes.len() >= 12 && bytes.subrange(0, 4) == seq![0x52u8, 0x49, 0x46, 0x46] && bytes.subrange(8, 12)
                    == seq![0x57u8, 0x45, 0x42, 0x50]
                ||| seq![0x4du8, 0x4d, 0x00, 0x2a].is_prefix_of(bytes)
                ||| seq![0x49u8, 0x49, 0x2a, 0x00].is_prefix_of(bytes)
                ||| seq![0x42u8, 0x4d].is_prefix_of(bytes)
                ||| seq![0x44u8, 0x44, 0x53, 0x20].is_prefix_of(bytes)
                ||| seq![0x00u8, 0x00, 0x01, 0x00].is_prefix_of(bytes)
                ||| seq![0x23u8, 0x3f, 0x52, 0x41, 0x44, 0x49, 0x41, 0x4e, 0x43, 0x45].is_prefix_of(bytes)
                ||| bytes.len() >= 12 && bytes[0] == 0 && bytes[1] == 0 && bytes.subrange(4, 12)
                    == seq![0x66u8, 0x74, 0x79, 0x70, 0x61, 0x76, 0x69, 0x66]
                ||| seq![0x76u8, 0x2f, 0x31, 0x01].is_prefix_of(bytes)
                ||| seq![0x71u8, 0x6f, 0x69, 0x66].is_prefix_of(bytes)
                ||| bytes.len() >= 2 && bytes[0] == 0x50 && 0x31 <= bytes[1] <= 0x37
                ||| seq![0x66u8, 0x61, 0x72, 0x62, 0x66, 0x65, 0x6c, 0x64].is_prefix_of(bytes)
                ||| {
                    &&& bytes.len() > 12
                    &&& bytes.subrange(4, 8) == seq![0x66u8, 0x74, 0x79, 0x70]
                    &&& {
                        ||| bytes.subrange(8, 12) == seq![0x68u8, 0x65, 0x69, 0x63]
                        ||| bytes.subrange(8, 12) == seq![0x68u8, 0x65, 0x69, 0x78]
                        ||| bytes.subrange(8, 12) == seq![0x68u8, 0x65, 0x69, 0x6d]
                        ||| bytes.subrange(8, 12) == seq![0x68u8, 0x65, 0x69, 0x73]
                        ||| bytes.subrange(8, 12) == seq![0x68u8, 0x65, 0x76, 0x63]
                        ||| bytes.subrange(8, 12) == seq![0x6du8, 0x69, 0x66, 0x31]
                        ||| bytes.subrange(8, 12) == seq![0x6du8, 0x73, 0x66, 0x31]
                        ||| bytes.subrange(8, 12) == seq![0x61u8, 0x76, 0x69, 0x66]
                    }
                }
            };
            body_progress(bytes, mime, native, form) == if image {
                match native {
                    Ok(pixels) => Progress::Done(Ok(Clip::Image(pixels))),
                    Err(failure) => Progress::NeedsSips(failure),
                }
            } else if valid_utf8(bytes) {
                Progress::Done(Ok(Clip::Text(decode_utf8(bytes))))
            } else {
                Progress::Done(
                    Err(Refusal { status: 400, message: "request body is neither a known image nor valid UTF-8"@ }),
                )
            }
        }),
{
    sniffed_by_bytes(bytes);
}

/// The image that the transcoder gives is the payload, pixel for pixel, whatever the
/// in-process attempt failed with: the same picture as if it had been decoded in-process.
/// Where the transcoder fails too, the body is refused with status 415 and both failures.
pub proof fn transcoded_image_is_the_image(
    native: Seq<char>,
    pixels: Pixels,
    sips: Seq<char>,
)
    ensures
        transcoded_outcome(native, Ok(pixels)) == Ok::<Clip, Refusal>(Clip::Image(pixels)),
        image_progress(Ok(pixels)) == Progress::Done(transcoded_outcome(native, Ok(pixels))),
        image_progress(Err(native)) == Progress::NeedsSips(native),
        transcoded_outcome(native, Err(sips)) == Err::<Clip, Refusal>(
            Refusal {
                status: 415,
                message: native + "; sips fallback also failed: "@ + sips,
            },
        ),
{
}

/// What is left of a content type is all of it but the white space around it, with its letters
/// in lower case, one character for each.
pub proof fn mime_is_the_whole_type(before: Seq<char>, core: Seq<char>, after: Seq<char>)
    requires
        !core.contains(';'),
        forall|i: int| 0 <= i < before.len() ==> is_white_space(#[trigger] before[i]),
        forall|i: int| 0 <= i < after.len() ==> is_white_space(#[trigger] after[i]),
        core.len() > 0 ==> !is_white_space(core[0]) && !is_white_space(core.last()),
    ensures
        mime_of(before + core + after).len() == core.len(),
        forall|i: int|
            0 <= i < core.len() ==> (#[trigger] mime_of(before + core + after)[i]) as int == if 65
                <= core[i] as int && core[i] as int <= 90 {
                core[i] as int + 32
            } else {
                core[i] as int
            },
{
    let whole = before + core + after;
    assert(!whole.contains(';')) by {
        if whole.contains(';') {
            let i = choose|i: int| 0 <= i < whole.len() && whole[i] == ';';
            if i < before.len() {
                assert(is_white_space(before[i]));
            } else if i < before.len() + core.len() {
                assert(core[i - before.len()] == ';');
            } else {
                assert(is_white_space(after[i - before.len() - core.len()]));
            }
        }
    }
    split_nothing(whole, ';');
    trimmed_is_the_core(before, core, after);
    lower_case_by_code_point(core);
}

} // verus!
