//! What a response says about itself before its body is read.

use crate::headers::{content_type_in, first_content_type, header_values};
use crate::media::{audio_wav, is_audio_wav};
use reqwest::header::HeaderMap;
use vstd::prelude::*;

verus! {

/// The part of a response that decides how its body is read: the status code
/// and the value of the `Content-Type` header, if the response has one.
#[derive(Debug, PartialEq, Eq)]
pub struct ResponseHead {
    pub status: u16,
    pub content_type: Option<Vec<u8>>,
}

/// A [`ResponseHead`] with its header value as a sequence of bytes.
pub struct HeadView {
    pub status: u16,
    pub content_type: Option<Seq<u8>>,
}

impl View for ResponseHead {
    type V = HeadView;

    open spec fn view(&self) -> HeadView {
        HeadView {
            status: self.status,
            content_type: match self.content_type {
                Some(value) => Some(value@),
                None => None,
            },
        }
    }
}

impl HeadView {
    /// The status is one of 200 to 299.
    pub open spec fn is_success(self) -> bool {
        200 <= self.status < 300
    }

    /// The response has a `Content-Type` and it is exactly `audio/wav`.
    pub open spec fn has_audio_media_type(self) -> bool {
        self.content_type == Some(audio_wav())
    }

    /// The body is audio: the status is a success and the media type is
    /// exactly `audio/wav`. A response without a `Content-Type` is not audio.
    pub open spec fn is_audio(self) -> bool {
        self.is_success() && self.has_audio_media_type()
    }
}

impl ResponseHead {
    /// Takes the head of a response from its status code and its headers. Of
    /// several `Content-Type` values the first one counts.
    pub fn from_parts(status: u16, headers: &HeaderMap) -> (head: ResponseHead)
        ensures
            head@ == (HeadView { status, content_type: content_type_in(header_values(*headers)) }),
    {
        ResponseHead { status, content_type: first_content_type(headers) }
    }

    /// Whether the status is one of 200 to 299.
    pub fn is_success(&self) -> (yes: bool)
        ensures
            yes == self@.is_success(),
    {
        200 <= self.status && self.status < 300
    }

    /// Whether the response has a `Content-Type` that is exactly `audio/wav`.
    pub fn has_audio_media_type(&self) -> (yes: bool)
        ensures
            yes == self@.has_audio_media_type(),
    {
        match &self.content_type {
            Some(value) => is_audio_wav(value.as_slice()),
            None => false,
        }
    }

    /// Whether the body is audio and is to be handed on as bytes.
    pub fn is_audio(&self) -> (yes: bool)
        ensures
            yes == self@.is_audio(),
    {
        self.is_success() && self.has_audio_media_type()
    }
}

} // verus!
