use vstd::prelude::*;
use vstd::string::*;
use crate::envelope::{
    decode, decode_spec, Envelope, EnvelopeStyle, JsonValue, Payload, PayloadKind,
    PostReference, UploadedMedia,
};
use crate::error::{ErrorKind, LiveblogError};

verus! {

/// The identifier that ties the image block to its attached file.
pub const SCREENSHOT_ID: &'static str = "screenshot";

/// The mime type of every screenshot.
pub const PNG_MIME: &'static str = "image/png";

/// The file name under which the screenshot is attached.
pub const SCREENSHOT_FILE: &'static str = "screenshot.png";

/// The two ways of publishing a post.
#[derive(Clone, Copy, Debug, PartialEq, Eq, Structural)]
pub enum PublishBackend {
    /// One call that creates a rich post with the image attached.
    SingleStepRichPost,
    /// An image upload, then a Markdown post that links to the image.
    TwoStepUpload,
}

/// The envelope shape a backend's responses come in.
pub open spec fn style_spec(b: PublishBackend) -> EnvelopeStyle {
    match b {
        PublishBackend::SingleStepRichPost => EnvelopeStyle::Coded,
        PublishBackend::TwoStepUpload => EnvelopeStyle::Flagged,
    }
}

impl PublishBackend {
    pub fn style(&self) -> (r: EnvelopeStyle)
        ensures
            r == style_spec(*self),
    {
        match self {
            PublishBackend::SingleStepRichPost => EnvelopeStyle::Coded,
            PublishBackend::TwoStepUpload => EnvelopeStyle::Flagged,
        }
    }
}

/// A content block of a rich post.
#[derive(Debug)]
pub enum ContentBlock {
    Image { identifier: String, mime_type: String },
    Text(String),
}

/// A file sent along with a rich post, under the key its image block names.
#[derive(Debug)]
pub struct MediaAttachment {
    pub key: String,
    pub bytes: Vec<u8>,
    pub mime_type: String,
    pub filename: String,
}

/// Everything the single-step backend sends in its one call.
#[derive(Debug)]
pub struct RichPost {
    pub blocks: Vec<ContentBlock>,
    pub attachment: MediaAttachment,
}

/// The image block that refers to the attached screenshot.
pub open spec fn is_screenshot_block(b: ContentBlock) -> bool {
    (b matches ContentBlock::Image { identifier, mime_type } && identifier@ == SCREENSHOT_ID@
        && mime_type@ == PNG_MIME@)
}

/// The blocks of a rich post: the image, then the caption where it is not empty.
pub open spec fn blocks_ok(blocks: Seq<ContentBlock>, caption: Seq<char>) -> bool {
    &&& blocks.len() == (if caption.len() == 0 { 1int } else { 2int })
    &&& is_screenshot_block(blocks[0])
    &&& caption.len() > 0 ==> (blocks[1] matches ContentBlock::Text(t) && t@ == caption)
}

/// Builds the blocks of a rich post for a caption.
pub fn rich_post_blocks(caption: String) -> (r: Vec<ContentBlock>)
    ensures
        blocks_ok(r@, caption@),
{
    let mut blocks: Vec<ContentBlock> = Vec::new();
    blocks.push(
        ContentBlock::Image {
            identifier: String::from_str(SCREENSHOT_ID),
            mime_type: String::from_str(PNG_MIME),
        },
    );
    if !caption.as_str().is_empty() {
        blocks.push(ContentBlock::Text(caption));
    }
    blocks
}

/// Builds the single-step post: the blocks, and the screenshot attached under
/// the identifier of its image block.
pub fn build_rich_post(screenshot: Vec<u8>, caption: String) -> (r: RichPost)
    ensures
        blocks_ok(r.blocks@, caption@),
        r.attachment.key@ == SCREENSHOT_ID@,
        r.attachment.bytes == screenshot,
        r.attachment.mime_type@ == PNG_MIME@,
        r.attachment.filename@ == SCREENSHOT_FILE@,
{
    RichPost {
        blocks: rich_post_blocks(caption),
        attachment: MediaAttachment {
            key: String::from_str(SCREENSHOT_ID),
            bytes: screenshot,
            mime_type: String::from_str(PNG_MIME),
            filename: String::from_str(SCREENSHOT_FILE),
        },
    }
}

/// The Markdown body of a two-step post: the image, a blank line, the caption.
pub open spec fn markdown_body_spec(url: Seq<char>, caption: Seq<char>) -> Seq<char> {
    "![Screenshot]("@ + url + ")\n\n"@ + caption
}

/// Builds the Markdown body that embeds the uploaded image above the caption.
pub fn markdown_body(url: &str, caption: &str) -> (r: String)
    ensures
        r@ == markdown_body_spec(url@, caption@),
{
    let mut body = String::from_str("![Screenshot](");
    body.append(url);
    body.append(")\n\n");
    body.append(caption);
    body
}

/// Reads the answer to an image upload: the uploaded media, an upload error
/// with the backend's message, or a decode error.
pub fn finish_upload(backend: PublishBackend, resp: &JsonValue) -> (r: Result<
    UploadedMedia,
    LiveblogError,
>)
    ensures
        match decode_spec(style_spec(backend), PayloadKind::Media, *resp) {
            Some(Envelope::Success(Payload::Media(m))) => r == Ok::<UploadedMedia, LiveblogError>(m),
            Some(Envelope::Failure(msg)) => (r matches Err(e) && e.kind == ErrorKind::Upload
                && e.message@ == msg@),
            _ => (r matches Err(e) && e.kind == ErrorKind::Decode),
        },
{
    match decode(backend.style(), PayloadKind::Media, resp) {
        Ok(Envelope::Success(Payload::Media(m))) => Ok(m),
        Ok(Envelope::Success(Payload::Post(_))) => Err(
            LiveblogError::new(ErrorKind::Decode, String::from_str("unexpected post payload")),
        ),
        Ok(Envelope::Failure(msg)) => Err(LiveblogError::new(ErrorKind::Upload, msg)),
        Err(e) => Err(e),
    }
}

/// Reads the answer to a post creation: the post's reference, a post error
/// with the backend's message, or a decode error.
pub fn finish_post(backend: PublishBackend, resp: &JsonValue) -> (r: Result<
    PostReference,
    LiveblogError,
>)
    ensures
        match decode_spec(style_spec(backend), PayloadKind::Post, *resp) {
            Some(Envelope::Success(Payload::Post(p))) => r == Ok::<PostReference, LiveblogError>(p),
            Some(Envelope::Failure(msg)) => (r matches Err(e) && e.kind == ErrorKind::Post
                && e.message@ == msg@),
            _ => (r matches Err(e) && e.kind == ErrorKind::Decode),
        },
{
    match decode(backend.style(), PayloadKind::Post, resp) {
        Ok(Envelope::Success(Payload::Post(p))) => Ok(p),
        Ok(Envelope::Success(Payload::Media(_))) => Err(
            LiveblogError::new(ErrorKind::Decode, String::from_str("unexpected media payload")),
        ),
        Ok(Envelope::Failure(msg)) => Err(LiveblogError::new(ErrorKind::Post, msg)),
        Err(e) => Err(e),
    }
}


/// The second step of the two-step backend: from the upload's answer, the
/// Markdown body of the post. A failed upload never yields a body.
pub fn two_step_post_body(upload_resp: &JsonValue, caption: &str) -> (r: Result<
    String,
    LiveblogError,
>)
    ensures
        match decode_spec(EnvelopeStyle::Flagged, PayloadKind::Media, *upload_resp) {
            Some(Envelope::Success(Payload::Media(m))) => (r matches Ok(body) && body@
                == markdown_body_spec(m.url@, caption@)),
            Some(Envelope::Failure(msg)) => (r matches Err(e) && e.kind == ErrorKind::Upload
                && e.message@ == msg@),
            _ => (r matches Err(e) && e.kind == ErrorKind::Decode),
        },
{
    let media = finish_upload(PublishBackend::TwoStepUpload, upload_resp)?;
    Ok(markdown_body(media.url.as_str(), caption))
}


/// A call to a backend's API.
#[derive(Debug)]
pub enum BackendRequest {
    /// The single-step backend's one call.
    CreateRichPost(RichPost),
    /// The two-step backend's image upload.
    UploadImage { bytes: Vec<u8>, mime_type: String, filename: String },
    /// The two-step backend's post, with its Markdown body.
    CreateMarkdownPost(String),
}

/// Where a publication stands after a backend's answer.
#[derive(Debug)]
pub enum PublishProgress {
    /// Send this call next.
    Send(BackendRequest),
    /// The post exists.
    Published(PostReference),
}

/// The first call of a publication, and the caption still to be sent by a
/// later call, if any.
pub fn first_request(backend: PublishBackend, screenshot: Vec<u8>, caption: String) -> (r: (
    BackendRequest,
    Option<String>,
))
    ensures
        backend == PublishBackend::SingleStepRichPost ==> (r.0 matches BackendRequest::CreateRichPost(
            p,
        ) && blocks_ok(p.blocks@, caption@) && p.attachment.key@ == SCREENSHOT_ID@
            && p.attachment.bytes == screenshot && r.1 is None),
        backend == PublishBackend::TwoStepUpload ==> (r.0 matches BackendRequest::UploadImage {
            bytes,
            mime_type,
            filename,
        } && bytes == screenshot && mime_type@ == PNG_MIME@ && filename@ == SCREENSHOT_FILE@
            && r.1 == Some(caption)),
{
    match backend {
        PublishBackend::SingleStepRichPost => (
            BackendRequest::CreateRichPost(build_rich_post(screenshot, caption)),
            None,
        ),
        PublishBackend::TwoStepUpload => (
            BackendRequest::UploadImage {
                bytes: screenshot,
                mime_type: String::from_str(PNG_MIME),
                filename: String::from_str(SCREENSHOT_FILE),
            },
            Some(caption),
        ),
    }
}

/// Reads a backend's answer: an upload answer while a caption is pending
/// leads to the Markdown post, any other answer is that of the post itself.
pub fn after_response(
    backend: PublishBackend,
    pending_caption: Option<String>,
    resp: &JsonValue,
) -> (r: Result<PublishProgress, LiveblogError>)
    ensures
        match pending_caption {
            Some(caption) if backend == PublishBackend::TwoStepUpload => match decode_spec(
                EnvelopeStyle::Flagged,
                PayloadKind::Media,
                *resp,
            ) {
                Some(Envelope::Success(Payload::Media(m))) => (r matches Ok(
                    PublishProgress::Send(BackendRequest::CreateMarkdownPost(body)),
                ) && body@ == markdown_body_spec(m.url@, caption@)),
                Some(Envelope::Failure(msg)) => (r matches Err(e) && e.kind == ErrorKind::Upload
                    && e.message@ == msg@),
                _ => (r matches Err(e) && e.kind == ErrorKind::Decode),
            },
            _ => match decode_spec(style_spec(backend), PayloadKind::Post, *resp) {
                Some(Envelope::Success(Payload::Post(p))) => r == Ok::<
                    PublishProgress,
                    LiveblogError,
                >(PublishProgress::Published(p)),
                Some(Envelope::Failure(msg)) => (r matches Err(e) && e.kind == ErrorKind::Post
                    && e.message@ == msg@),
                _ => (r matches Err(e) && e.kind == ErrorKind::Decode),
            },
        },
{
    match pending_caption {
        Some(caption) => {
            if backend == PublishBackend::TwoStepUpload {
                let body = two_step_post_body(resp, caption.as_str())?;
                return Ok(PublishProgress::Send(BackendRequest::CreateMarkdownPost(body)));
            }
        },
        None => {},
    }
    let p = finish_post(backend, resp)?;
    Ok(PublishProgress::Published(p))
}

} // verus!
