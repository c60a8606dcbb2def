//! What goes out with a post, and what comes back when posting fails.

use crate::names::image_name;
use crate::record::State;
use vstd::prelude::*;
use vstd::string::StringExecFns;

verus! {

/// The description attached to every image.
pub const IMAGE_TITLE: &'static str =
    "A procedurally generated landscape composed of cuboid blocks, rendered in isometric perspective.";

/// The text of every post.
pub const POST_BODY: &'static str = "⛰️";

/// The media type of every image.
pub const IMAGE_MIMETYPE: &'static str = "image/png";

/// What precedes the detail in the text of a `PostingError`.
pub const POSTING_FAILED: &'static str = "Elefren returned an arror: ";

#[verifier::external_type_specification]
#[verifier::external_body]
pub struct ExElefrenError(elefren::Error);

/// Why a post did not go out. This is the one kind of failure after which
/// the same image is tried again.
#[derive(Debug)]
pub enum PostingError {
    ElefrenError(elefren::Error),
}

/// One post, ready to be sent: the image, and the words that go with it.
#[derive(Debug, PartialEq, Eq)]
pub struct Post {
    pub image: Vec<u8>,
    pub description: String,
    pub mimetype: String,
    pub filename: String,
    pub body: String,
}

/// A post as plain data.
pub ghost struct PostView {
    pub image: Seq<u8>,
    pub description: Seq<char>,
    pub mimetype: Seq<char>,
    pub filename: Seq<char>,
    pub body: Seq<char>,
}

impl View for Post {
    type V = PostView;

    open spec fn view(&self) -> PostView {
        PostView {
            image: self.image@,
            description: self.description@,
            mimetype: self.mimetype@,
            filename: self.filename@,
            body: self.body@,
        }
    }
}

/// The post that carries `image` as image number `id`.
pub open spec fn post_of(id: u32, image: Seq<u8>) -> PostView {
    PostView {
        image,
        description: IMAGE_TITLE@,
        mimetype: IMAGE_MIMETYPE@,
        filename: image_name(id),
        body: POST_BODY@,
    }
}

impl State {
    /// Makes up the post that publishes `image` as the image of the
    /// current id.
    pub fn post_status(&self, image: Vec<u8>) -> (post: Post)
        ensures
            post@ == post_of(self.id, image@),
    {
        Post {
            image,
            description: String::from_str(IMAGE_TITLE),
            mimetype: String::from_str(IMAGE_MIMETYPE),
            filename: self.get_filename(),
            body: String::from_str(POST_BODY),
        }
    }
}

impl PostingError {
    /// The error as one line of text: a fixed opening, then what the
    /// client library says of its error.
    pub fn message(&self) -> (text: String)
        ensures
            text@.len() >= POSTING_FAILED@.len(),
            text@.subrange(0, POSTING_FAILED@.len() as int) == POSTING_FAILED@,
    {
        match self {
            PostingError::ElefrenError(cause) => {
                let detail = elefren_error_text(cause);
                let text = String::from_str(POSTING_FAILED).concat(detail.as_str());
                assert(text@.subrange(0, POSTING_FAILED@.len() as int) =~= POSTING_FAILED@);
                text
            },
        }
    }
}

/// Formats an `elefren::Error` with its own `Display`. Nothing is claimed
/// of the text.
#[verifier::external_body]
fn elefren_error_text(cause: &elefren::Error) -> (text: String) {
    format!("{}", cause)
}

} // verus!
