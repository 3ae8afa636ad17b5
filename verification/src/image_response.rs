//! The image generation response: a plain data carrier with getters over
//! the generated images.

use crate::chat_types::{ContentPart, ModelIden, Usage};
use crate::json::Json;
use vstd::prelude::*;

verus! {

/// The response of an image generation request.
#[derive(Debug)]
pub struct ImageResponse {
    /// The generated images.
    pub images: Vec<ContentPart>,
    /// The resolved model identifier used for this request.
    pub model_iden: ModelIden,
    /// The usage of the image generation response, when reported.
    pub usage: Option<Usage>,
    /// The raw response body, for provider-specific features.
    pub captured_raw_body: Option<Json>,
}

impl ImageResponse {
    /// A reference to the first image, when there is one.
    pub fn first_image(&self) -> (r: Option<&ContentPart>)
        ensures
            (match r {
                Some(p) => self.images@.len() > 0 && *p == self.images@[0],
                None => self.images@.len() == 0,
            }),
    {
        if self.images.len() > 0 {
            Some(&self.images[0])
        } else {
            None
        }
    }

    /// References to all images, in order.
    pub fn all_images(&self) -> (r: Vec<&ContentPart>)
        ensures
            r@.len() == self.images@.len(),
            forall|i: int| 0 <= i < r@.len() ==> *(#[trigger] r@[i]) == self.images@[i],
    {
        let mut out: Vec<&ContentPart> = Vec::new();
        let n = self.images.len();
        let mut i: usize = 0;
        while i < n
            invariant
                i <= n,
                n == self.images@.len(),
                out@.len() == i,
                forall|k: int| 0 <= k < i ==> *(#[trigger] out@[k]) == self.images@[k],
            decreases n - i,
        {
            out.push(&self.images[i]);
            i = i + 1;
        }
        out
    }

    /// Consumes the response and returns all images.
    pub fn into_images(self) -> (r: Vec<ContentPart>)
        ensures
            r == self.images,
    {
        self.images
    }
}

} // verus!
