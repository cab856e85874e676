//! What the contract hands back to the host after a state-changing call.

use vstd::prelude::*;

verus! {

/// A message for another contract or module. This contract sends none, so
/// the type has no value: its only variant holds an `Infallible`.
#[derive(Debug)]
pub enum Message {
    Never(core::convert::Infallible),
}

/// A key and a value that the host logs with the call.
#[derive(Clone, Debug, PartialEq)]
pub struct Attribute {
    pub key: String,
    pub value: String,
}

/// The mathematical content of an [`Attribute`].
#[verifier::ext_equal]
pub struct AttributeView {
    pub key: Seq<char>,
    pub value: Seq<char>,
}

impl View for Attribute {
    type V = AttributeView;

    open spec fn view(&self) -> AttributeView {
        AttributeView { key: self.key@, value: self.value@ }
    }
}

/// The outcome of a successful call: messages to send on and attributes to
/// log, each in order.
#[derive(Debug)]
pub struct Response {
    pub messages: Vec<Message>,
    pub attributes: Vec<Attribute>,
}

/// The mathematical content of a [`Response`]: how many messages it holds,
/// and its attributes.
#[verifier::ext_equal]
pub struct ResponseView {
    pub messages: nat,
    pub attributes: Seq<AttributeView>,
}

impl View for Response {
    type V = ResponseView;

    open spec fn view(&self) -> ResponseView {
        ResponseView {
            messages: self.messages@.len(),
            attributes: Seq::new(self.attributes@.len(), |i: int| self.attributes@[i]@),
        }
    }
}

impl Response {
    /// A response without messages or attributes.
    pub fn new() -> (r: Response)
        ensures
            r@.messages == 0,
            r@.attributes == Seq::<AttributeView>::empty(),
    {
        Response { messages: Vec::new(), attributes: Vec::new() }
    }

    /// The same response with one more attribute at the end.
    pub fn add_attribute(self, key: String, value: String) -> (r: Response)
        ensures
            r@.messages == self@.messages,
            r@.attributes == self@.attributes.push(AttributeView { key: key@, value: value@ }),
    {
        let mut r = self;
        r.attributes.push(Attribute { key, value });
        r
    }
}

} // verus!
