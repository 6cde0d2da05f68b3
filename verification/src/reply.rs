//! The reply of a tool call: text and image content, and whether it reports
//! an error.
use vstd::prelude::*;

use base64::{engine::general_purpose::STANDARD as BASE64_STANDARD, Engine};

use crate::error::{error_message, DeviceError};

verus! {

/// One piece of reply content.
#[derive(Debug)]
pub enum Content {
    /// Plain text.
    Text(String),
    /// An image, as Base64 `data` of the given MIME type.
    Image { data: String, mime_type: String },
}

/// The reply of one tool call.
#[derive(Debug)]
pub struct ToolReply {
    /// Whether the call failed.
    pub is_error: bool,
    /// What the reply shows, in order.
    pub content: Vec<Content>,
}

/// Reply content as character sequences.
pub enum ContentModel {
    Text(Seq<char>),
    Image { data: Seq<char>, mime_type: Seq<char> },
}

/// A reply as character sequences.
pub struct ReplyModel {
    pub is_error: bool,
    pub content: Seq<ContentModel>,
}

impl View for Content {
    type V = ContentModel;

    open spec fn view(&self) -> ContentModel {
        match self {
            Content::Text(text) => ContentModel::Text(text@),
            Content::Image { data, mime_type } => ContentModel::Image {
                data: data@,
                mime_type: mime_type@,
            },
        }
    }
}

impl View for ToolReply {
    type V = ReplyModel;

    open spec fn view(&self) -> ReplyModel {
        ReplyModel { is_error: self.is_error, content: self.content@.map_values(|c: Content| c@) }
    }
}

/// The Base64 text (standard alphabet, with padding) that the `base64`
/// crate's `STANDARD` engine makes of `bytes`.
pub uninterp spec fn base64_standard(bytes: Seq<u8>) -> Seq<char>;

/// A reply that shows one message.
pub open spec fn text_reply(is_error: bool, message: Seq<char>) -> ReplyModel {
    ReplyModel { is_error, content: seq![ContentModel::Text(message)] }
}

/// A successful reply that shows `description` and the PNG image `bytes`.
pub open spec fn image_reply(description: Seq<char>, bytes: Seq<u8>) -> ReplyModel {
    ReplyModel {
        is_error: false,
        content: seq![
            ContentModel::Text(description),
            ContentModel::Image { data: base64_standard(bytes), mime_type: "image/png"@ },
        ],
    }
}

/// `Engine::encode` of the `STANDARD` engine, which panics only when the
/// length of the encoded text would not fit in `usize`.
#[verifier::external_body]
fn encode_base64(bytes: &[u8]) -> (text: String)
    requires
        4 * ((bytes@.len() + 2) / 3) <= usize::MAX,
    ensures
        text@ == base64_standard(bytes@),
{
    BASE64_STANDARD.encode(bytes)
}

/// `Vec::len` for bytes; a vector never holds more than `isize::MAX` bytes.
#[verifier::external_body]
fn byte_count(bytes: &Vec<u8>) -> (n: usize)
    ensures
        n == bytes@.len(),
        n <= isize::MAX,
{
    bytes.len()
}

/// A successful reply showing `message`.
pub fn success(message: String) -> (reply: ToolReply)
    ensures
        reply@ == text_reply(false, message@),
{
    let reply = ToolReply { is_error: false, content: vec![Content::Text(message)] };
    assert(reply@.content =~= seq![ContentModel::Text(message@)]);
    reply
}

/// A failed reply showing the message of `error`.
pub fn failure(error: &DeviceError) -> (reply: ToolReply)
    ensures
        reply@ == text_reply(true, error_message(*error)),
{
    let message = error.message();
    let reply = ToolReply { is_error: true, content: vec![Content::Text(message)] };
    assert(reply@.content =~= seq![ContentModel::Text(error_message(*error))]);
    reply
}

/// A successful reply showing `description` and the PNG image `bytes`.
pub fn image(description: String, bytes: &Vec<u8>) -> (reply: ToolReply)
    ensures
        reply@ == image_reply(description@, bytes@),
{
    let n = byte_count(bytes);
    assert(4 * ((n + 2) / 3) <= usize::MAX) by (nonlinear_arith)
        requires
            n <= isize::MAX,
            isize::MAX == usize::MAX / 2,
            usize::MAX >= 0xffff_ffff,
    ;
    let data = encode_base64(bytes.as_slice());
    let reply = ToolReply {
        is_error: false,
        content: vec![
            Content::Text(description),
            Content::Image { data, mime_type: String::from_str("image/png") },
        ],
    };
    assert(reply@.content =~= image_reply(description@, bytes@).content);
    reply
}

} // verus!
