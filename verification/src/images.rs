use vstd::prelude::*;
use vstd::string::*;

use crate::text::{decimal_string, decimal_text};

verus! {

/// Where the copy of a product image resized to a width is kept:
/// `/tmp/{product}_{width}_{image}`.
pub fn resized_image_path(product: &str, image: &str, width: u32) -> (path: String)
    ensures
        path@ == "/tmp/"@ + product@ + "_"@ + decimal_text(width as nat) + "_"@ + image@,
{
    proof {
        reveal_strlit("/tmp/");
        reveal_strlit("_");
    }
    let mut path = String::from_str("/tmp/");
    path.append(product);
    path.append("_");
    let digits = decimal_string(width as u64);
    path.append(digits.as_str());
    path.append("_");
    path.append(image);
    path
}

/// What answering a request for a resized product image takes.
#[derive(Debug, Clone, Copy, PartialEq, Eq, Structural)]
pub enum ImageAction {
    /// The resized copy exists: send it.
    Serve,
    /// Neither the copy nor the source image exists: answer "not found"
    /// with the product's name.
    NotFound,
    /// Only the source exists: resize it into the copy, then send the copy.
    ResizeThenServe,
}

/// Decides how a request for a resized image is answered from whether the
/// resized copy and the source image exist.
pub fn image_action(resized_exists: bool, source_exists: bool) -> (action: ImageAction)
    ensures
        action == (if resized_exists {
            ImageAction::Serve
        } else if source_exists {
            ImageAction::ResizeThenServe
        } else {
            ImageAction::NotFound
        }),
{
    if resized_exists {
        ImageAction::Serve
    } else if !source_exists {
        ImageAction::NotFound
    } else {
        ImageAction::ResizeThenServe
    }
}

} // verus!
