//! The fixed-capacity buffers that topics and state payloads are written into: heapless
//! strings and vectors, whose contents are named by the spec functions below.

use vstd::prelude::*;
use vstd::string::StringSliceAdditionalSpecFns;

verus! {

/// The size in bytes of each topic buffer.
pub const TOPIC_CAPACITY: usize = 128;

/// The size in bytes of the buffer that a state payload is published from.
pub const PUBLISH_CAPACITY: usize = 2048;

/// A topic, held in a `heapless::String` of `TOPIC_CAPACITY` bytes.
#[verifier::external_body]
#[derive(Debug)]
pub struct TopicBuffer {
    inner: heapless::String<TOPIC_CAPACITY>,
}

/// The UTF-8 bytes that a topic buffer holds.
pub uninterp spec fn topic_buffer_bytes(b: TopicBuffer) -> Seq<u8>;

/// A state payload, held in a `heapless::Vec` of `PUBLISH_CAPACITY` bytes.
#[verifier::external_body]
#[derive(Debug)]
pub struct PublishBuffer {
    inner: heapless::Vec<u8, PUBLISH_CAPACITY>,
}

/// The bytes that a publish buffer holds.
pub uninterp spec fn publish_buffer_bytes(b: PublishBuffer) -> Seq<u8>;

impl TopicBuffer {
    /// `heapless::String::new`: an empty string.
    #[verifier::external_body]
    pub(crate) fn empty() -> (b: TopicBuffer)
        ensures
            topic_buffer_bytes(b) == Seq::<u8>::empty(),
    {
        TopicBuffer { inner: heapless::String::new() }
    }

    /// `heapless::String::push_str`: appends the text when it fits in the remaining
    /// capacity and reports success; otherwise the string is left unchanged and failure is
    /// reported.
    #[verifier::external_body]
    pub(crate) fn push_str(&mut self, s: &str) -> (r: bool)
        ensures
            r == (topic_buffer_bytes(*old(self)).len() + s.spec_bytes().len() <= TOPIC_CAPACITY),
            r ==> topic_buffer_bytes(*final(self)) == topic_buffer_bytes(*old(self)) + s.spec_bytes(),
            !r ==> topic_buffer_bytes(*final(self)) == topic_buffer_bytes(*old(self)),
    {
        self.inner.push_str(s).is_ok()
    }

    /// `heapless::String::as_str`: the text held, whose UTF-8 bytes are the buffer's bytes.
    #[verifier::external_body]
    pub(crate) fn text(&self) -> (s: &str)
        ensures
            s.spec_bytes() == topic_buffer_bytes(*self),
    {
        self.inner.as_str()
    }

    /// The topic as text.
    pub fn as_str(&self) -> (s: &str)
        ensures
            s.spec_bytes() == topic_buffer_bytes(*self),
    {
        self.text()
    }
}

impl PublishBuffer {
    /// `heapless::Vec::new`: an empty vector.
    #[verifier::external_body]
    pub(crate) fn empty() -> (b: PublishBuffer)
        ensures
            publish_buffer_bytes(b) == Seq::<u8>::empty(),
    {
        PublishBuffer { inner: heapless::Vec::new() }
    }

    /// `heapless::Vec::extend_from_slice`: appends the bytes when they fit in the remaining
    /// capacity and reports success; otherwise the vector is left unchanged and failure is
    /// reported.
    #[verifier::external_body]
    pub(crate) fn extend_from_slice(&mut self, bytes: &[u8]) -> (r: bool)
        ensures
            r == (publish_buffer_bytes(*old(self)).len() + bytes@.len() <= PUBLISH_CAPACITY),
            r ==> publish_buffer_bytes(*final(self)) == publish_buffer_bytes(*old(self)) + bytes@,
            !r ==> publish_buffer_bytes(*final(self)) == publish_buffer_bytes(*old(self)),
    {
        self.inner.extend_from_slice(bytes).is_ok()
    }

    /// `heapless::Vec::as_slice`: the bytes held.
    #[verifier::external_body]
    pub(crate) fn bytes(&self) -> (s: &[u8])
        ensures
            s@ == publish_buffer_bytes(*self),
    {
        self.inner.as_slice()
    }

    /// The payload's bytes.
    pub fn as_slice(&self) -> (s: &[u8])
        ensures
            s@ == publish_buffer_bytes(*self),
    {
        self.bytes()
    }
}

} // verus!
