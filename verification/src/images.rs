//! Images that the document refers to: the names of their files, and the
//! form in which they travel as text.
//!
//! An image arrives as base64 text and is stored as the bytes that the text
//! encodes, in a file named after a fresh identifier. It is handed out as a
//! `data:` URL, with a media type chosen by the file's extension.

use crate::text::{ends_with, has_suffix, same_text};
use base64::Engine;
use vstd::prelude::*;
use vstd::string::*;

verus! {

/// The base64 text of `bytes`, in the standard alphabet and padded.
pub uninterp spec fn base64_text(bytes: Seq<u8>) -> Seq<char>;

/// The bytes that `text` encodes in base64, in the standard alphabet and
/// padded; nothing where `text` is no such encoding.
pub uninterp spec fn base64_bytes(text: Seq<char>) -> Option<Seq<u8>>;

/// Why a text is no base64, as the base64 crate tells it.
#[verifier::external_type_specification]
#[verifier::external_body]
pub struct ExDecodeError(base64::DecodeError);

/// So many bytes have a base64 text that fits in memory: its length is no
/// more than `isize::MAX`, the most that one allocation holds.
pub open spec fn encodable(len: nat) -> bool {
    (len / 3) * 4 + 4 <= isize::MAX
}

/// Whether so many bytes have a base64 text that fits in memory.
pub fn is_encodable(len: usize) -> (r: bool)
    ensures
        r == encodable(len as nat),
{
    len / 3 <= (isize::MAX as usize - 4) / 4
}

/// Calls `Engine::encode` of the base64 crate on its `STANDARD` engine. The
/// contract claims that the text depends on the bytes alone, and gives it its
/// name. The call panics where the length of the text overflows a `usize` or
/// is more than an allocation holds, which the precondition rules out.
#[verifier::external_body]
fn encode_base64(bytes: &[u8]) -> (text: String)
    requires
        encodable(bytes@.len()),
    ensures
        text@ == base64_text(bytes@),
{
    base64::engine::general_purpose::STANDARD.encode(bytes)
}

/// Calls `Engine::decode` of the base64 crate on its `STANDARD` engine. The
/// contract claims that success and the bytes depend on the text alone, and
/// gives them their name.
#[verifier::external_body]
fn decode_base64(text: &str) -> (r: Result<Vec<u8>, base64::DecodeError>)
    ensures
        r matches Ok(bytes) ==> base64_bytes(text@) == Some(bytes@),
        r is Err ==> base64_bytes(text@) is None,
{
    base64::engine::general_purpose::STANDARD.decode(text)
}

/// The words in which the base64 crate's `DecodeError` describes itself,
/// through its `Display`. The contract claims nothing of them.
#[verifier::external_body]
fn describe(error: &base64::DecodeError) -> (words: String) {
    format!("{}", error)
}

/// An image could not be taken in.
#[derive(Debug, Clone, PartialEq, Eq)]
pub enum ImageError {
    /// The text is no base64. The words say why, and are the base64 crate's
    /// own: the engine passes them on and promises nothing of them.
    Decode(String),
}

impl ImageError {
    /// The error in words.
    pub open spec fn message_text(self) -> Seq<char> {
        match self {
            ImageError::Decode(why) => "Failed to decode base64: "@ + why@,
        }
    }

    /// The error in words.
    pub fn message(&self) -> (r: String)
        ensures
            r@ == self.message_text(),
    {
        match self {
            ImageError::Decode(why) => {
                let mut words = "Failed to decode base64: ".to_owned();
                words.append(why.as_str());
                words
            },
        }
    }
}

/// The name of the file of the image with the identifier `id`.
pub fn image_file_name(id: &str, extension: &str) -> (name: String)
    ensures
        name@ == id@ + "."@ + extension@,
{
    let mut name = id.to_owned();
    name.append(".");
    name.append(extension);
    name
}

/// The bytes of an image that arrives as base64 text. Whether the text is
/// base64, and which bytes it encodes, is fixed by the text; the words of the
/// error are not.
pub fn decode_image(base64_data: &str) -> (r: Result<Vec<u8>, ImageError>)
    ensures
        r matches Ok(bytes) ==> base64_bytes(base64_data@) == Some(bytes@),
        r is Err ==> base64_bytes(base64_data@) is None,
{
    match decode_base64(base64_data) {
        Ok(bytes) => Ok(bytes),
        Err(error) => Err(ImageError::Decode(describe(&error))),
    }
}

/// The file's name has the extension `extension`: it ends with a dot and the
/// extension, or is the extension and nothing more. `extension` holds no dot.
pub open spec fn has_extension(filename: Seq<char>, extension: Seq<char>) -> bool {
    filename == extension || ends_with(filename, "."@ + extension)
}

/// The media type of an image, by the extension of its file's name. An
/// extension that is not known counts as PNG. Capital letters are not known.
pub open spec fn media_type_text(filename: Seq<char>) -> Seq<char> {
    if has_extension(filename, "png"@) {
        "image/png"@
    } else if has_extension(filename, "jpg"@) || has_extension(filename, "jpeg"@) {
        "image/jpeg"@
    } else if has_extension(filename, "gif"@) {
        "image/gif"@
    } else if has_extension(filename, "webp"@) {
        "image/webp"@
    } else {
        "image/png"@
    }
}

/// Whether the file's name has the extension, given with its dot and without.
fn is_kind(filename: &str, dotted: &str, extension: &str) -> (r: bool)
    requires
        dotted@ == "."@ + extension@,
    ensures
        r == has_extension(filename@, extension@),
{
    same_text(filename, extension) || has_suffix(filename, dotted)
}

/// The media type of an image, by the extension of its file's name.
pub fn media_type(filename: &str) -> (r: &'static str)
    ensures
        r@ == media_type_text(filename@),
{
    proof {
        reveal_strlit(".");
        reveal_strlit("png");
        reveal_strlit(".png");
        reveal_strlit("jpg");
        reveal_strlit(".jpg");
        reveal_strlit("jpeg");
        reveal_strlit(".jpeg");
        reveal_strlit("gif");
        reveal_strlit(".gif");
        reveal_strlit("webp");
        reveal_strlit(".webp");
        assert(".png"@ =~= "."@ + "png"@);
        assert(".jpg"@ =~= "."@ + "jpg"@);
        assert(".jpeg"@ =~= "."@ + "jpeg"@);
        assert(".gif"@ =~= "."@ + "gif"@);
        assert(".webp"@ =~= "."@ + "webp"@);
    }
    if is_kind(filename, ".png", "png") {
        "image/png"
    } else if is_kind(filename, ".jpg", "jpg") || is_kind(filename, ".jpeg", "jpeg") {
        "image/jpeg"
    } else if is_kind(filename, ".gif", "gif") {
        "image/gif"
    } else if is_kind(filename, ".webp", "webp") {
        "image/webp"
    } else {
        "image/png"
    }
}

/// The `data:` URL of an image whose base64 text is `encoded`.
pub open spec fn data_url_text(filename: Seq<char>, encoded: Seq<char>) -> Seq<char> {
    "data:"@ + media_type_text(filename) + ";base64,"@ + encoded
}

/// The `data:` URL of an image, given the name of its file and its base64 text.
pub fn data_url(filename: &str, encoded: &str) -> (url: String)
    ensures
        url@ == data_url_text(filename@, encoded@),
{
    let mut url = "data:".to_owned();
    url.append(media_type(filename));
    url.append(";base64,");
    url.append(encoded);
    url
}

/// The `data:` URL of an image, given the name of its file and its bytes.
pub fn image_data_url(filename: &str, bytes: &[u8]) -> (url: String)
    requires
        encodable(bytes@.len()),
    ensures
        url@ == data_url_text(filename@, base64_text(bytes@)),
{
    let encoded = encode_base64(bytes);
    data_url(filename, encoded.as_str())
}

} // verus!
