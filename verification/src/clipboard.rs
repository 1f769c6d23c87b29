//! What travels to and from the pasteboard.
//!
//! One worker owns the pasteboard, and every request is funnelled through it: a request
//! is handed to the worker, and the worker's answer is awaited.
use vstd::prelude::*;

verus! {

/// Why the pasteboard did not do what it was asked.
#[derive(Debug)]
pub struct ClipError(pub String);

impl View for ClipError {
    type V = Seq<char>;

    open spec fn view(&self) -> Seq<char> {
        self.0@
    }
}

impl ClipError {
    pub fn new(message: String) -> (res: Self)
        ensures
            res@ == message@,
    {
        ClipError(message)
    }

    /// The error whose text, as it is shown to a reader, is `err`.
    pub fn new_from_display(err: String) -> (res: Self)
        ensures
            res@ == err@,
    {
        ClipError(err)
    }

    /// The message, as it is shown to a reader.
    pub fn to_string(&self) -> (res: String)
        ensures
            res@ == self@,
    {
        self.0.clone()
    }
}

/// The pixels of an image: `rgba` holds four bytes for each pixel, row by row.
#[verifier::ext_equal]
pub struct Pixels {
    pub width: nat,
    pub height: nat,
    pub rgba: Seq<u8>,
}

impl Pixels {
    /// The number of bytes that `width` times `height` pixels take.
    pub open spec fn size(self) -> nat {
        4 * self.width * self.height
    }

    /// Exactly the bytes of the pixels, with dimensions that an image file can carry.
    pub open spec fn well_formed(self) -> bool {
        &&& self.width <= u32::MAX
        &&& self.height <= u32::MAX
        &&& self.rgba.len() == self.size()
    }
}

/// Raw RGBA8 pixels, the only image form that the pasteboard speaks.
pub struct Image {
    pub width: usize,
    pub height: usize,
    pub rgba: Vec<u8>,
}

impl View for Image {
    type V = Pixels;

    open spec fn view(&self) -> Pixels {
        Pixels { width: self.width as nat, height: self.height as nat, rgba: self.rgba@ }
    }
}

/// What a clipboard holds.
#[verifier::ext_equal]
pub enum Clip {
    Text(Seq<char>),
    Image(Pixels),
}

/// Something to be put on the clipboard.
pub enum Payload {
    Text(String),
    Image(Image),
}

impl View for Payload {
    type V = Clip;

    open spec fn view(&self) -> Clip {
        match self {
            Payload::Text(text) => Clip::Text(text@),
            Payload::Image(image) => Clip::Image(image@),
        }
    }
}

/// What became of a request that was meant for the worker.
pub enum Delivery<T> {
    /// The worker no longer takes requests.
    Refused,
    /// The worker took the request and went away without an answer.
    Dropped,
    /// The worker's answer.
    Answered(Result<T, ClipError>),
}

/// The outcome of a request, however far it came: the worker's own answer where there
/// is one, and otherwise an error that says where the request was lost.
pub fn dispatch<T>(delivery: Delivery<T>) -> (res: Result<T, ClipError>)
    ensures
        match delivery {
            Delivery::Refused => res matches Err(e) && e@ == "clipboard worker is gone"@,
            Delivery::Dropped => res matches Err(e) && e@
                == "clipboard worker dropped the request"@,
            Delivery::Answered(answer) => res == answer,
        },
{
    match delivery {
        Delivery::Refused => Err(ClipError::new("clipboard worker is gone".to_owned())),
        Delivery::Dropped => Err(
            ClipError::new("clipboard worker dropped the request".to_owned()),
        ),
        Delivery::Answered(answer) => answer,
    }
}

} // verus!
