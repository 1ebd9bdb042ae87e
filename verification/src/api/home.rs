//! What the static file endpoints answer for an embedded file.

use vstd::prelude::*;

verus! {

/// The response for an embedded file.
#[derive(Debug)]
pub enum AssetResponse {
    /// 200, the file's bytes with the content type guessed from its path.
    Found { content_type: String, body: Vec<u8> },
    /// 404, a plain message.
    NotFound(String),
}

/// The value of an [`AssetResponse`].
pub enum AssetResponseView {
    Found { content_type: Seq<char>, body: Seq<u8> },
    NotFound(Seq<char>),
}

impl View for AssetResponse {
    type V = AssetResponseView;

    open spec fn view(&self) -> AssetResponseView {
        match self {
            AssetResponse::Found { content_type, body } => AssetResponseView::Found {
                content_type: content_type@,
                body: body@,
            },
            AssetResponse::NotFound(m) => AssetResponseView::NotFound(m@),
        }
    }
}

impl AssetResponse {
    /// The HTTP status code of this response.
    pub fn status(&self) -> (res: u16)
        ensures
            res == (if self@ is Found { 200u16 } else { 404u16 }),
    {
        match self {
            AssetResponse::Found { .. } => 200,
            AssetResponse::NotFound(_) => 404,
        }
    }
}

/// The MIME type that `mime_guess` gives a path, written out.
pub uninterp spec fn guessed_mime(path: Seq<char>) -> Seq<char>;

/// `mime_guess::from_path(path).first_or_octet_stream()`, written out: the
/// first MIME type known for the path's extension, or
/// `application/octet-stream`. The contract only names the result, which
/// depends on the path alone.
#[verifier::external_body]
fn guess_mime(path: &str) -> (res: String)
    ensures
        res@ == guessed_mime(path@),
{
    mime_guess::from_path(path).first_or_octet_stream().to_string()
}

/// The answer for an embedded file whose content type is `content_type`:
/// the file when it is embedded, 404 otherwise.
pub fn file_response(content_type: String, content: Option<Vec<u8>>) -> (res: AssetResponse)
    ensures
        res@ == match content {
            Some(body) => AssetResponseView::Found { content_type: content_type@, body: body@ },
            None => AssetResponseView::NotFound("404 Not Found"@),
        },
{
    match content {
        Some(body) => AssetResponse::Found { content_type, body },
        None => AssetResponse::NotFound("404 Not Found".to_owned()),
    }
}

/// The answer for the embedded file at `path`, given its content if it is
/// embedded: the bytes with the MIME type guessed from the path, or 404.
pub fn handle_embedded_file(path: &str, content: Option<Vec<u8>>) -> (res: AssetResponse)
    ensures
        res@ == match content {
            Some(body) => AssetResponseView::Found {
                content_type: guessed_mime(path@),
                body: body@,
            },
            None => AssetResponseView::NotFound("404 Not Found"@),
        },
{
    match content {
        Some(body) => file_response(guess_mime(path), Some(body)),
        None => file_response(String::new(), None),
    }
}

} // verus!
