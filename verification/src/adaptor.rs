//! The request as it crosses from the server to a worker, and the request
//! as the handler sees it.
//!
//! A [`RequestInfo`] is an owned snapshot of an inbound request that can be
//! moved to another thread. On the worker a [`ConduitRequest`] is built from
//! it, once, and handed to the handler.

use crate::header_map::{header_values, host_in, host_of};
use crate::path::{decode_path, decoded_path};
use vstd::prelude::*;
use vstd::utf8::*;

verus! {

/// `http::Method`, the method of a request. The library carries it and
/// never looks inside.
#[verifier::external_type_specification]
#[verifier::external_body]
pub struct ExMethod(http::Method);

/// `http::Version`, the protocol version of a request. The library carries
/// it and never looks inside.
#[verifier::external_type_specification]
#[verifier::external_body]
pub struct ExVersion(http::Version);

/// `http::Extensions`, a set of values with one slot for each type. The
/// library fills the slot of the start instant and leaves the others to the
/// application.
#[verifier::external_type_specification]
#[verifier::external_body]
pub struct ExExtensions(http::Extensions);

/// `conduit::StartInstant`, the moment the headers of a request were
/// received. The library carries it and never looks inside.
#[verifier::external_type_specification]
#[verifier::external_body]
pub struct ExStartInstant(conduit::StartInstant);

/// The scheme of the request URL.
#[derive(Clone, Copy, Debug, PartialEq, Eq, Structural)]
pub enum Scheme {
    Http,
    Https,
}

/// An IP address.
#[derive(Clone, Copy, Debug, PartialEq, Eq, Structural)]
pub enum IpAddress {
    V4(u8, u8, u8, u8),
    V6(u16, u16, u16, u16, u16, u16, u16, u16),
}

/// The address of the peer of a connection.
#[derive(Clone, Copy, Debug, PartialEq, Eq, Structural)]
pub struct RemoteAddr {
    pub ip: IpAddress,
    pub port: u16,
}

impl RemoteAddr {
    /// The address that stands in where the peer is not known: `0.0.0.0:0`.
    pub open spec fn placeholder_spec() -> RemoteAddr {
        RemoteAddr { ip: IpAddress::V4(0, 0, 0, 0), port: 0 }
    }

    /// The address that stands in where the peer is not known: `0.0.0.0:0`.
    #[verifier::when_used_as_spec(placeholder_spec)]
    pub fn placeholder() -> (addr: RemoteAddr)
        ensures
            addr == Self::placeholder_spec(),
    {
        RemoteAddr { ip: IpAddress::V4(0, 0, 0, 0), port: 0 }
    }

    /// The address the server supplied, or the placeholder where it could
    /// supply none.
    pub fn or_placeholder(known: Option<RemoteAddr>) -> (addr: RemoteAddr)
        ensures
            addr == match known {
                Some(a) => a,
                None => Self::placeholder_spec(),
            },
    {
        match known {
            Some(a) => a,
            None => RemoteAddr::placeholder(),
        }
    }
}

/// Whether the slot that an extension set has for the start instant holds
/// this instant.
pub uninterp spec fn holds_start(
    extensions: http::Extensions,
    instant: conduit::StartInstant,
) -> bool;

/// Whether two extension sets hold the same in every slot but the one for
/// the start instant.
pub uninterp spec fn same_but_start(before: http::Extensions, after: http::Extensions) -> bool;

/// Stores the start instant with `http::Extensions::insert`.
///
/// Trusted: the set has one slot for each type, and `insert` fills the slot
/// of the value's type with the value, replacing what was there, and touches
/// no other slot.
#[verifier::external_body]
fn put_start(extensions: &mut http::Extensions, now: conduit::StartInstant)
    ensures
        holds_start(*final(extensions), now),
        same_but_start(*old(extensions), *final(extensions)),
{
    extensions.insert(now);
}

/// The head of a request: everything but the body.
#[derive(Debug)]
pub struct Parts {
    /// The request method.
    pub method: http::Method,
    /// The path of the request URI as it came, percent-encoded.
    pub path: String,
    /// The query of the request URI, without the `?`.
    pub query: Option<String>,
    /// The protocol version.
    pub version: http::Version,
    /// The request headers.
    pub headers: http::HeaderMap<http::HeaderValue>,
    /// The extensions attached to the request.
    pub extensions: http::Extensions,
}

impl Parts {
    /// The request headers.
    pub fn headers(&self) -> (headers: &http::HeaderMap<http::HeaderValue>)
        ensures
            *headers == self.headers,
    {
        &self.headers
    }
}

/// Owned data of a request, made on the server's thread and taken by the
/// worker that serves the request. It can be taken once.
pub struct RequestInfo(Option<(Parts, Vec<u8>)>);

impl RequestInfo {
    /// What is left to take: the head and the body, or nothing once they
    /// were taken.
    pub closed spec fn content(&self) -> Option<(Parts, Vec<u8>)> {
        self.0
    }

    /// The head of the request, while it is there to take.
    pub open spec fn parts(&self) -> Parts {
        self.content().unwrap().0
    }

    /// The body of the request, while it is there to take.
    pub open spec fn body(&self) -> Seq<u8> {
        self.content().unwrap().1@
    }

    /// Whether the request is still there to take.
    pub open spec fn is_pending(&self) -> bool {
        self.content() is Some
    }

    /// Saves the head and the fully read body of a request.
    pub fn new(parts: Parts, body: Vec<u8>) -> (info: RequestInfo)
        ensures
            info.content() == Some((parts, body)),
    {
        RequestInfo(Some((parts, body)))
    }

    /// Whether the request was taken already.
    pub fn is_taken(&self) -> (taken: bool)
        ensures
            taken == !self.is_pending(),
    {
        self.0.is_none()
    }

    /// Takes the request out, leaving nothing behind. The request must
    /// still be there: it can be taken once.
    pub fn take(&mut self) -> (request: (Parts, Vec<u8>))
        requires
            old(self).is_pending(),
        ensures
            old(self).content() == Some(request),
            !final(self).is_pending(),
    {
        self.0.take().expect("called take multiple times")
    }
}

/// A body reader as plain values: the bytes of the body and how many of
/// them were read.
pub ghost struct BodyView {
    pub bytes: Seq<u8>,
    pub position: nat,
}

/// A blocking reader over the buffered body of a request. It hands the body
/// out front to back and never fails.
pub struct BodyReader {
    bytes: Vec<u8>,
    position: usize,
}

impl View for BodyReader {
    type V = BodyView;

    closed spec fn view(&self) -> BodyView {
        BodyView { bytes: self.bytes@, position: self.position as nat }
    }
}

impl BodyReader {
    #[verifier::type_invariant]
    spec fn position_in_body(&self) -> bool {
        self.position <= self.bytes@.len()
    }

    /// A reader at the start of the body.
    pub fn new(bytes: Vec<u8>) -> (reader: BodyReader)
        ensures
            reader@ == (BodyView { bytes: bytes@, position: 0 }),
    {
        BodyReader { bytes, position: 0 }
    }

    /// The length of the whole body.
    pub fn len(&self) -> (length: usize)
        ensures
            length == self@.bytes.len(),
    {
        self.bytes.len()
    }

    /// The number of bytes not read yet.
    pub fn remaining(&self) -> (left: usize)
        ensures
            self@.position <= self@.bytes.len(),
            left == self@.bytes.len() - self@.position,
    {
        proof {
            use_type_invariant(self);
        }
        self.bytes.len() - self.position
    }

    /// Reads into the front of the buffer as many of the next bytes as the
    /// buffer holds, or all that are left where they are fewer, and returns
    /// their number. The rest of the buffer keeps what it held.
    pub fn read(&mut self, buf: &mut [u8]) -> (count: usize)
        ensures
            old(self)@.position <= old(self)@.bytes.len(),
            count == vstd::math::min(
                old(buf)@.len() as int,
                old(self)@.bytes.len() - old(self)@.position,
            ),
            final(self)@ == (BodyView {
                bytes: old(self)@.bytes,
                position: (old(self)@.position + count) as nat,
            }),
            final(buf)@ == old(self)@.bytes.subrange(
                old(self)@.position as int,
                old(self)@.position + count,
            ) + old(buf)@.skip(count as int),
    {
        proof {
            use_type_invariant(&*self);
        }
        let left = self.bytes.len() - self.position;
        let count = if buf.len() < left {
            buf.len()
        } else {
            left
        };
        let start = self.position;
        let mut done: usize = 0;
        while done < count
            invariant
                done <= count,
                start + count <= self.bytes.len(),
                buf@.len() == old(buf)@.len(),
                count <= buf@.len(),
                buf@ == self.bytes@.subrange(start as int, start + done) + old(buf)@.skip(
                    done as int,
                ),
            decreases count - done,
        {
            buf[done] = self.bytes[start + done];
            done += 1;
        }
        self.position = start + count;
        count
    }
}

/// A request as plain values.
pub ghost struct RequestView {
    pub method: http::Method,
    pub version: http::Version,
    pub headers: http::HeaderMap<http::HeaderValue>,
    pub extensions: http::Extensions,
    pub raw_path: Seq<char>,
    pub path: Seq<char>,
    pub query: Option<Seq<char>>,
    pub remote_addr: RemoteAddr,
    pub body: Seq<u8>,
    pub position: nat,
}

/// The request handed to the handler.
pub struct ConduitRequest {
    parts: Parts,
    path: String,
    remote_addr: RemoteAddr,
    body: BodyReader,
}

impl View for ConduitRequest {
    type V = RequestView;

    closed spec fn view(&self) -> RequestView {
        RequestView {
            method: self.parts.method,
            version: self.parts.version,
            headers: self.parts.headers,
            extensions: self.parts.extensions,
            raw_path: self.parts.path@,
            path: self.path@,
            query: match self.parts.query {
                Some(q) => Some(q@),
                None => None,
            },
            remote_addr: self.remote_addr,
            body: self.body@.bytes,
            position: self.body@.position,
        }
    }
}

impl ConduitRequest {
    /// Builds the handler's request from the snapshot, which it takes: the
    /// snapshot must not have been taken before. The path is decoded, the
    /// start instant goes into its extension slot while every other
    /// extension stays as it came, and the body is ready to be read from its
    /// first byte.
    pub fn new(
        info: &mut RequestInfo,
        remote_addr: RemoteAddr,
        now: conduit::StartInstant,
    ) -> (request: ConduitRequest)
        requires
            old(info).is_pending(),
        ensures
            !final(info).is_pending(),
            request@.method == old(info).parts().method,
            request@.version == old(info).parts().version,
            request@.headers == old(info).parts().headers,
            holds_start(request@.extensions, now),
            same_but_start(old(info).parts().extensions, request@.extensions),
            request@.raw_path == old(info).parts().path@,
            request@.path == decoded_path(encode_utf8(old(info).parts().path@)),
            request@.query == old(info).parts().query.deep_view(),
            request@.remote_addr == remote_addr,
            request@.body == old(info).body(),
            request@.position == 0,
    {
        let (mut parts, body) = info.take();
        let path = decode_path(parts.path.as_str());
        put_start(&mut parts.extensions, now);
        ConduitRequest { parts, path, remote_addr, body: BodyReader::new(body) }
    }

    /// The protocol version of the request.
    pub fn http_version(&self) -> (version: http::Version)
        ensures
            version == self@.version,
    {
        self.parts.version
    }

    /// The request method.
    pub fn method(&self) -> (method: &http::Method)
        ensures
            *method == self@.method,
    {
        &self.parts.method
    }

    /// The scheme, which is always plain HTTP: where TLS is terminated, it is
    /// terminated before the request gets here.
    pub fn scheme(&self) -> (scheme: Scheme)
        ensures
            scheme == Scheme::Http,
    {
        Scheme::Http
    }

    /// The request headers.
    pub fn headers(&self) -> (headers: &http::HeaderMap<http::HeaderValue>)
        ensures
            *headers == self@.headers,
    {
        self.parts.headers()
    }

    /// The length of the body, all of which is buffered.
    pub fn content_length(&self) -> (length: Option<u64>)
        ensures
            length == Some(self@.body.len() as u64),
    {
        Some(self.body.len() as u64)
    }

    /// The address of the peer, as the server gave it.
    pub fn remote_addr(&self) -> (addr: RemoteAddr)
        ensures
            addr == self@.remote_addr,
    {
        self.remote_addr
    }

    /// The virtual root, of which there is none.
    pub fn virtual_root(&self) -> (root: Option<&str>)
        ensures
            root is None,
    {
        None
    }

    /// The decoded path.
    pub fn path(&self) -> (path: &str)
        ensures
            path@ == self@.path,
    {
        self.path.as_str()
    }

    /// The value of the `Host` header, or the empty string where the header
    /// is absent or is not text.
    pub fn host(&self) -> (host: &str)
        ensures
            host@ == host_of(header_values(self@.headers)),
    {
        host_in(self.parts.headers())
    }

    /// The query of the request URI, if it has one.
    pub fn query_string(&self) -> (query: Option<&str>)
        ensures
            query.deep_view() == self@.query,
    {
        match &self.parts.query {
            Some(q) => Some(q.as_str()),
            None => None,
        }
    }

    /// The extensions of the request.
    pub fn extensions(&self) -> (extensions: &http::Extensions)
        ensures
            *extensions == self@.extensions,
    {
        &self.parts.extensions
    }

    /// The decoded path, open to be rewritten.
    pub fn path_mut(&mut self) -> (path: &mut String)
        ensures
            path@ == old(self)@.path,
            final(self)@ == (RequestView { path: final(path)@, ..old(self)@ }),
    {
        &mut self.path
    }

    /// The extensions of the request, open to be changed.
    pub fn mut_extensions(&mut self) -> (extensions: &mut http::Extensions)
        ensures
            *extensions == old(self)@.extensions,
            final(self)@ == (RequestView { extensions: *final(extensions), ..old(self)@ }),
    {
        &mut self.parts.extensions
    }

    /// The reader of the body.
    pub fn body(&mut self) -> (body: &mut BodyReader)
        ensures
            body@ == (BodyView { bytes: old(self)@.body, position: old(self)@.position }),
            final(self)@ == (RequestView {
                body: final(body)@.bytes,
                position: final(body)@.position,
                ..old(self)@
            }),
    {
        &mut self.body
    }
}

} // verus!
