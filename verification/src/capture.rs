//! What comes of a capture: the image as a data URL, or why there is none.

use crate::dispatch::{DispatchEvent, DispatchEventView};
use crate::text::{push_str, string_from_chars};
use vstd::prelude::*;

verus! {

/// Why a capture gave no image.
#[derive(Debug, PartialEq, Eq)]
pub enum CaptureError {
    /// The user gave up the capture. This is no failure.
    UserCancelled,
    /// The image is larger than ten mebibytes.
    TooLarge,
    /// The region is wider or higher than 4096 pixels.
    RegionTooLarge,
    /// The capture failed.
    Failed(String),
}

/// What a `CaptureError` holds.
pub enum CaptureErrorView {
    UserCancelled,
    TooLarge,
    RegionTooLarge,
    Failed(Seq<char>),
}

impl View for CaptureError {
    type V = CaptureErrorView;

    open spec fn view(&self) -> CaptureErrorView {
        match self {
            CaptureError::UserCancelled => CaptureErrorView::UserCancelled,
            CaptureError::TooLarge => CaptureErrorView::TooLarge,
            CaptureError::RegionTooLarge => CaptureErrorView::RegionTooLarge,
            CaptureError::Failed(m) => CaptureErrorView::Failed(m@),
        }
    }
}

impl CaptureErrorView {
    /// The error in words.
    pub open spec fn message(self) -> Seq<char> {
        match self {
            CaptureErrorView::UserCancelled => "Screenshot was cancelled"@,
            CaptureErrorView::TooLarge => "Screenshot file too large"@,
            CaptureErrorView::RegionTooLarge => "Screenshot region too large"@,
            CaptureErrorView::Failed(m) => m,
        }
    }
}

/// The kinds of image that a capture gives.
#[derive(Clone, Copy, Debug, PartialEq, Eq, Structural)]
pub enum ImageKind {
    Png,
    Jpeg,
}

/// The largest image file that is taken, in bytes: ten mebibytes.
pub open spec fn max_file_size() -> nat {
    10 * 1024 * 1024
}

/// The largest width and height of a region, in pixels.
pub open spec fn max_dimension() -> nat {
    4096
}

/// The most memory that a region may take, in bytes: 64 mebibytes.
pub open spec fn max_memory() -> nat {
    64 * 1024 * 1024
}

/// The characters of base64, in the order of the values that they stand for.
pub open spec fn base64_alphabet() -> Seq<char> {
    "ABCDEFGHIJKLMNOPQRSTUVWXYZabcdefghijklmnopqrstuvwxyz0123456789+/"@
}

/// The character that stands for a value of six bits.
pub open spec fn base64_char(value: int) -> char {
    base64_alphabet()[value]
}

/// Bytes in base64 with the standard alphabet, padded with `=` to a
/// multiple of four characters: three bytes give four characters of six
/// bits each.
pub open spec fn base64(bytes: Seq<u8>) -> Seq<char>
    decreases bytes.len(),
{
    if bytes.len() == 0 {
        Seq::empty()
    } else {
        let b0 = bytes[0] as int;
        if bytes.len() == 1 {
            seq![base64_char(b0 / 4), base64_char((b0 % 4) * 16), '=', '=']
        } else {
            let b1 = bytes[1] as int;
            if bytes.len() == 2 {
                seq![
                    base64_char(b0 / 4),
                    base64_char((b0 % 4) * 16 + b1 / 16),
                    base64_char((b1 % 16) * 4),
                    '=',
                ]
            } else {
                let b2 = bytes[2] as int;
                seq![
                    base64_char(b0 / 4),
                    base64_char((b0 % 4) * 16 + b1 / 16),
                    base64_char((b1 % 16) * 4 + b2 / 64),
                    base64_char(b2 % 64),
                ] + base64(bytes.skip(3))
            }
        }
    }
}

/// So many bytes have a base64 text whose length a `usize` can hold.
pub open spec fn encodable(len: nat) -> bool {
    len / 3 < usize::MAX / 4
}

/// `Engine::encode` of `base64`, on the engine `STANDARD`: the bytes in
/// base64 with the standard alphabet and padding. The bound keeps out the
/// lengths at which the length of the text would overflow.
#[verifier::external_body]
fn encode_base64(bytes: &[u8]) -> (text: String)
    requires
        encodable(bytes@.len()),
    ensures
        text@ == base64(bytes@),
{
    base64::Engine::encode(&base64::engine::general_purpose::STANDARD, bytes)
}

/// What a data URL begins with.
pub open spec fn data_url_head(kind: ImageKind) -> Seq<char> {
    match kind {
        ImageKind::Png => "data:image/png;base64,"@,
        ImageKind::Jpeg => "data:image/jpeg;base64,"@,
    }
}

/// The data URL of an image.
pub open spec fn data_url_text(kind: ImageKind, bytes: Seq<u8>) -> Seq<char> {
    data_url_head(kind) + base64(bytes)
}

/// The data URL of an image; `None` where the image has more bytes than
/// can be written in base64.
pub fn data_url(kind: ImageKind, bytes: &[u8]) -> (url: Option<String>)
    ensures
        match url {
            Some(text) => encodable(bytes@.len()) && text@ == data_url_text(kind, bytes@),
            None => !encodable(bytes@.len()),
        },
{
    if bytes.len() / 3 >= usize::MAX / 4 {
        return None;
    }
    let encoded = encode_base64(bytes);
    let mut text: Vec<char> = Vec::new();
    match kind {
        ImageKind::Png => push_str(&mut text, "data:image/png;base64,"),
        ImageKind::Jpeg => push_str(&mut text, "data:image/jpeg;base64,"),
    }
    push_str(&mut text, encoded.as_str());
    Some(string_from_chars(text.as_slice()))
}

/// What is wrong with the size of an image file: an empty file means that
/// the user gave up, a file of more than ten mebibytes is too large.
pub open spec fn file_size_error(len: nat) -> Option<CaptureErrorView> {
    if len == 0 {
        Some(CaptureErrorView::UserCancelled)
    } else if len > max_file_size() {
        Some(CaptureErrorView::TooLarge)
    } else {
        None
    }
}

/// Checks the size of an image file.
pub fn check_file_size(len: u64) -> (result: Result<(), CaptureError>)
    ensures
        match result {
            Ok(()) => file_size_error(len as nat) is None,
            Err(e) => file_size_error(len as nat) == Some(e@),
        },
{
    if len == 0 {
        Err(CaptureError::UserCancelled)
    } else if len > 10 * 1024 * 1024 {
        Err(CaptureError::TooLarge)
    } else {
        Ok(())
    }
}

/// What is wrong with a region: wider or higher than 4096 pixels.
pub open spec fn region_error(width: u32, height: u32) -> Option<CaptureErrorView> {
    if width > max_dimension() || height > max_dimension() {
        Some(CaptureErrorView::RegionTooLarge)
    } else {
        None
    }
}

/// A region that passes the check takes, at four bytes to the pixel, no
/// more than 64 mebibytes.
pub proof fn lemma_region_fits_memory(width: u32, height: u32)
    requires
        region_error(width, height) is None,
    ensures
        width * height * 4 <= max_memory(),
{
    assert(width * height <= 4096 * 4096) by (nonlinear_arith)
        requires
            width <= 4096,
            height <= 4096,
    ;
}

/// Checks a region before it is captured.
pub fn check_region(width: u32, height: u32) -> (result: Result<(), CaptureError>)
    ensures
        match result {
            Ok(()) => region_error(width, height) is None,
            Err(e) => region_error(width, height) == Some(e@),
        },
{
    if width > 4096 || height > 4096 {
        Err(CaptureError::RegionTooLarge)
    } else {
        Ok(())
    }
}

/// What an interactive capture gave, from how the capture tool ended and
/// the file that it left: the image as a data URL; `UserCancelled` where
/// the tool failed or left no file or an empty one; `TooLarge` where the
/// file has more than ten mebibytes.
pub open spec fn capture_outcome(succeeded: bool, file: Option<Seq<u8>>) -> Result<
    Seq<char>,
    CaptureErrorView,
> {
    if !succeeded {
        Err(CaptureErrorView::UserCancelled)
    } else {
        match file {
            None => Err(CaptureErrorView::UserCancelled),
            Some(bytes) => match file_size_error(bytes.len()) {
                Some(e) => Err(e),
                None => Ok(data_url_text(ImageKind::Png, bytes)),
            },
        }
    }
}

/// What an interactive capture gave.
pub fn interactive_capture(succeeded: bool, file: Option<&[u8]>) -> (result: Result<
    String,
    CaptureError,
>)
    ensures
        match result {
            Ok(url) => capture_outcome(
                succeeded,
                match file {
                    Some(bytes) => Some(bytes@),
                    None => None,
                },
            ) == Ok::<Seq<char>, CaptureErrorView>(url@),
            Err(e) => capture_outcome(
                succeeded,
                match file {
                    Some(bytes) => Some(bytes@),
                    None => None,
                },
            ) == Err::<Seq<char>, CaptureErrorView>(e@),
        },
{
    if !succeeded {
        return Err(CaptureError::UserCancelled);
    }
    let bytes = match file {
        Some(bytes) => bytes,
        None => {
            return Err(CaptureError::UserCancelled);
        },
    };
    if bytes.len() == 0 {
        return Err(CaptureError::UserCancelled);
    }
    if bytes.len() > 10 * 1024 * 1024 {
        return Err(CaptureError::TooLarge);
    }
    match data_url(ImageKind::Png, bytes) {
        Some(url) => Ok(url),
        None => Err(CaptureError::TooLarge),
    }
}

impl CaptureError {
    /// The error in words.
    pub fn message(&self) -> (message: String)
        ensures
            message@ == self@.message(),
    {
        match self {
            CaptureError::UserCancelled => "Screenshot was cancelled".to_string(),
            CaptureError::TooLarge => "Screenshot file too large".to_string(),
            CaptureError::RegionTooLarge => "Screenshot region too large".to_string(),
            CaptureError::Failed(m) => m.clone(),
        }
    }
}

/// The event that a capture stands for in a run: the image, the user's
/// giving up, or the failure in words.
pub open spec fn capture_event(outcome: Result<Seq<char>, CaptureErrorView>) -> DispatchEventView {
    match outcome {
        Ok(image) => DispatchEventView::Captured(image),
        Err(CaptureErrorView::UserCancelled) => DispatchEventView::CaptureCancelled,
        Err(e) => DispatchEventView::CaptureFailed(e.message()),
    }
}

/// The event that a capture stands for in a run.
pub fn capture_event_of(outcome: Result<String, CaptureError>) -> (event: DispatchEvent)
    ensures
        event@ == capture_event(
            match outcome {
                Ok(image) => Ok(image@),
                Err(e) => Err(e@),
            },
        ),
{
    match outcome {
        Ok(image) => DispatchEvent::Captured(image),
        Err(CaptureError::UserCancelled) => DispatchEvent::CaptureCancelled,
        Err(e) => DispatchEvent::CaptureFailed(e.message()),
    }
}

} // verus!
