//! The image generation request: a plain data carrier built with chainable
//! setters.

use vstd::prelude::*;
use vstd::string::*;

verus! {

/// The request for generating images from a text prompt.
#[derive(Debug, Clone, PartialEq)]
pub struct ImageRequest {
    /// A text description of the desired image(s).
    pub prompt: String,
    /// The number of images to generate.
    pub n: Option<i32>,
    /// The size of the generated images, such as `1024x1024`.
    pub size: Option<String>,
    /// The quality of the generated images, `standard` or `hd`.
    pub quality: Option<String>,
    /// The style of the generated images, `vivid` or `natural`.
    pub style: Option<String>,
    /// The response format, `url` or `b64_json`.
    pub response_format: Option<String>,
}

impl Default for ImageRequest {
    /// A request with an empty prompt and every option unset.
    fn default() -> (r: Self)
        ensures
            r.prompt@ == Seq::<char>::empty(),
            r.n is None,
            r.size is None,
            r.quality is None,
            r.style is None,
            r.response_format is None,
    {
        ImageRequest {
            prompt: String::new(),
            n: None,
            size: None,
            quality: None,
            style: None,
            response_format: None,
        }
    }
}

impl ImageRequest {
    /// A new request with the given prompt and every option unset.
    pub fn new(prompt: String) -> (r: Self)
        ensures
            r.prompt == prompt,
            r.n is None,
            r.size is None,
            r.quality is None,
            r.style is None,
            r.response_format is None,
    {
        Self { prompt, n: None, size: None, quality: None, style: None, response_format: None }
    }

    /// A new request built from a prompt alone.
    pub fn from_prompt(prompt: String) -> (r: Self)
        ensures
            r.prompt == prompt,
            r.n is None,
            r.size is None,
            r.quality is None,
            r.style is None,
            r.response_format is None,
    {
        Self::new(prompt)
    }

    /// Sets the number of images to generate.
    pub fn with_n(self, n: i32) -> (r: Self)
        ensures
            r.n == Some(n),
            r.prompt == self.prompt,
            r.size == self.size,
            r.quality == self.quality,
            r.style == self.style,
            r.response_format == self.response_format,
    {
        let mut this = self;
        this.n = Some(n);
        this
    }

    /// Sets the size of the generated images.
    pub fn with_size(self, size: String) -> (r: Self)
        ensures
            r.size == Some(size),
            r.prompt == self.prompt,
            r.n == self.n,
            r.quality == self.quality,
            r.style == self.style,
            r.response_format == self.response_format,
    {
        let mut this = self;
        this.size = Some(size);
        this
    }

    /// Sets the quality of the generated images.
    pub fn with_quality(self, quality: String) -> (r: Self)
        ensures
            r.quality == Some(quality),
            r.prompt == self.prompt,
            r.n == self.n,
            r.size == self.size,
            r.style == self.style,
            r.response_format == self.response_format,
    {
        let mut this = self;
        this.quality = Some(quality);
        this
    }

    /// Sets the style of the generated images.
    pub fn with_style(self, style: String) -> (r: Self)
        ensures
            r.style == Some(style),
            r.prompt == self.prompt,
            r.n == self.n,
            r.size == self.size,
            r.quality == self.quality,
            r.response_format == self.response_format,
    {
        let mut this = self;
        this.style = Some(style);
        this
    }

    /// Sets the response format for the generated images.
    pub fn with_response_format(self, response_format: String) -> (r: Self)
        ensures
            r.response_format == Some(response_format),
            r.prompt == self.prompt,
            r.n == self.n,
            r.size == self.size,
            r.quality == self.quality,
            r.style == self.style,
    {
        let mut this = self;
        this.response_format = Some(response_format);
        this
    }
}

} // verus!
