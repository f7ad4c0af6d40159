//! Replies for the embedded static assets.
//!
//! The asset table itself is compiled into the program outside this library;
//! here a looked-up blob becomes a reply: the bytes with a content type
//! guessed from the path's extension when the path is known, and a fixed
//! `404 Not Found` body otherwise.

use vstd::prelude::*;

verus! {

/// The media type that `mime_guess` assigns to a path. The guess reads only
/// the path's extension against a table compiled into that crate, so it is a
/// function of the path alone.
pub uninterp spec fn mime_of(path: Seq<char>) -> Seq<char>;

/// Relies on `mime_guess::from_path` followed by
/// `MimeGuess::first_or_octet_stream`: the guess is made from the path's
/// extension against a static table, with no disk access, and falls back to
/// `application/octet-stream`; rendering the `Mime` yields its text form.
#[verifier::external_body]
fn guess_content_type(path: &str) -> (r: String)
    ensures
        r@ == mime_of(path@),
{
    mime_guess::from_path(path).first_or_octet_stream().to_string()
}

/// A reply of the asset server.
pub enum AssetReply {
    /// The asset exists: its bytes, and the content type guessed from the
    /// path.
    Found { content_type: String, body: Vec<u8> },
    /// No asset under the path; the reply body is `404 Not Found`.
    NotFound { body: String },
}

/// Build the reply for an asset request: `content` is what the lookup of
/// `path` in the embedded table yielded. A found blob is served as is, with
/// the content type guessed from the path; a missing path gets the fixed
/// `404 Not Found` body.
pub fn handle_embedded_file(path: &str, content: Option<Vec<u8>>) -> (r: AssetReply)
    ensures
        match content {
            Some(bytes) => r matches AssetReply::Found { content_type, body } && content_type@
                == mime_of(path@) && body == bytes,
            None => r matches AssetReply::NotFound { body } && body@ == "404 Not Found"@,
        },
{
    match content {
        Some(bytes) => AssetReply::Found {
            content_type: guess_content_type(path),
            body: bytes,
        },
        None => AssetReply::NotFound { body: "404 Not Found".to_owned() },
    }
}

} // verus!
