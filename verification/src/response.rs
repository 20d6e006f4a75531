//! The outbound handshake reply, bound to the same connection as the
//! request it answers.

use vstd::prelude::*;

use crate::header::{headers_empty, Headers};
use crate::http::StatusCode;
use crate::request::Request;

verus! {

/// A server-side (outgoing) response. It owns the connection halves
/// that the originating request owned; no handle to them remains
/// behind.
pub struct Response<R, W> {
    /// The response status. `None` while the decision is still pending,
    /// left to the surrounding response-construction logic.
    pub status: Option<StatusCode>,
    /// The outbound header collection.
    pub headers: Headers,
    reader: R,
    writer: W,
}

impl<R, W> Response<R, W> {
    /// The response status.
    pub closed spec fn spec_status(&self) -> Option<StatusCode> {
        self.status
    }

    /// The outbound header collection.
    pub closed spec fn spec_headers(&self) -> Headers {
        self.headers
    }

    /// The read half of the connection this response owns.
    pub closed spec fn spec_reader(&self) -> R {
        self.reader
    }

    /// The write half of the connection this response owns.
    pub closed spec fn spec_writer(&self) -> W {
        self.writer
    }

    /// Build a response bound to the connection of the given request,
    /// consuming the request. The status stays pending and the outbound
    /// header collection starts empty.
    pub fn new(request: Request<R, W>) -> (r: Response<R, W>)
        ensures
            r.spec_status() is None,
            headers_empty(r.spec_headers()),
            r.spec_reader() == request.spec_reader(),
            r.spec_writer() == request.spec_writer(),
    {
        let (reader, writer) = request.into_inner();
        Response { status: None, headers: Headers::new(), reader, writer }
    }

    /// Set the response status, leaving everything else as it was.
    pub fn set_status(&mut self, status: Option<StatusCode>)
        ensures
            final(self).spec_status() == status,
            final(self).spec_headers() == old(self).spec_headers(),
            final(self).spec_reader() == old(self).spec_reader(),
            final(self).spec_writer() == old(self).spec_writer(),
    {
        self.status = status;
    }

    /// Replace the outbound header collection, leaving everything else
    /// as it was.
    pub fn set_headers(&mut self, headers: Headers)
        ensures
            final(self).spec_headers() == headers,
            final(self).spec_status() == old(self).spec_status(),
            final(self).spec_reader() == old(self).spec_reader(),
            final(self).spec_writer() == old(self).spec_writer(),
    {
        self.headers = headers;
    }

    /// A reference to the inner reader.
    pub fn get_reader(&self) -> (r: &R)
        ensures
            *r == self.spec_reader(),
    {
        &self.reader
    }

    /// A reference to the inner writer.
    pub fn get_writer(&self) -> (r: &W)
        ensures
            *r == self.spec_writer(),
    {
        &self.writer
    }

    /// Give up the response and hand the connection halves back.
    pub fn into_inner(self) -> (r: (R, W))
        ensures
            r.0 == self.spec_reader(),
            r.1 == self.spec_writer(),
    {
        (self.reader, self.writer)
    }
}

} // verus!
