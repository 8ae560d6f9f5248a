//! The abstract response that is handed back to the caller.
use vstd::prelude::*;
use crate::extensions::{Extensions, Scalar};
use crate::streaming::{Bridge, ByteStream, ItemView, SyncByteStream};

verus! {

/// The body of a response: its content, or the stream that will yield it.
/// A response never carries both.
pub enum ResponseBody {
    /// The whole body.
    Content(Vec<u8>),
    /// The stream of an asynchronous response.
    Stream(ByteStream),
    /// The stream of a blocking response.
    SyncStream(SyncByteStream),
}

/// The model of a [`ResponseBody`].
pub enum BodyView {
    Content(Seq<u8>),
    Stream(Bridge),
    SyncStream(Seq<ItemView>),
}

impl View for ResponseBody {
    type V = BodyView;

    open spec fn view(&self) -> BodyView {
        match self {
            ResponseBody::Content(bytes) => BodyView::Content(bytes@),
            ResponseBody::Stream(stream) => BodyView::Stream(stream@),
            ResponseBody::SyncStream(stream) => BodyView::SyncStream(stream@),
        }
    }
}

/// The model of texts in pairs.
pub open spec fn text_pairs_view(pairs: Seq<(String, String)>) -> Seq<(Seq<char>, Seq<char>)> {
    Seq::new(pairs.len(), |i: int| (pairs[i].0@, pairs[i].1@))
}

/// A response as the caller sees it.
pub struct AbstractResponse {
    /// The status code, from 100 to 599.
    pub status: u16,
    /// The headers, in the order in which they were received.
    pub headers: Vec<(String, String)>,
    /// The content, or the stream.
    pub body: ResponseBody,
    /// The extensions of the request, echoed.
    pub extensions: Extensions,
}

/// The model of an [`AbstractResponse`].
pub struct ResponseView {
    pub status: u16,
    pub headers: Seq<(Seq<char>, Seq<char>)>,
    pub body: BodyView,
    pub extensions: Seq<(Seq<char>, Scalar)>,
}

impl View for AbstractResponse {
    type V = ResponseView;

    open spec fn view(&self) -> ResponseView {
        ResponseView {
            status: self.status,
            headers: text_pairs_view(self.headers@),
            body: self.body@,
            extensions: self.extensions@,
        }
    }
}

/// The status codes of a response.
pub open spec fn is_status(status: u16) -> bool {
    100 <= status <= 599
}

impl AbstractResponse {
    /// The status code is one of a response.
    pub open spec fn wf(&self) -> bool {
        is_status(self.status)
    }

    /// Whether the response is streamed rather than buffered.
    pub fn is_streamed(&self) -> (streamed: bool)
        ensures
            streamed == !(self@.body is Content),
    {
        match &self.body {
            ResponseBody::Content(_) => false,
            _ => true,
        }
    }
}

} // verus!
