//! Persistence for trainable model values.
//!
//! A model type that implements [`Transform`] can be normalized with its
//! `before` hook, structurally encoded to bytes, and later decoded and
//! rehydrated with its `after` hook.  The byte-level halves of the save and
//! load operations live in [`io`]; opening, writing and reading the durable
//! store itself is left to the caller, who hands this crate plain byte
//! buffers.

use vstd::prelude::*;

pub mod io;
pub mod models;

verus! {

/// The stage at which a persistence operation failed.
///
/// Each variant carries the lower-level cause as an opaque message, so that
/// diagnostics survive without coupling this taxonomy to any particular
/// encoder's error type.
#[derive(Debug)]
pub enum ErrorKind {
    /// The durable store could not be opened, read or written.
    IO(String),
    /// The value could not be structurally encoded to, or decoded from, bytes.
    Encoding(String),
    /// The value could not be rendered as text.
    Json(String),
}

impl ErrorKind {
    /// The cause message carried by this error.
    pub open spec fn cause(self) -> Seq<char> {
        match self {
            ErrorKind::IO(m) => m@,
            ErrorKind::Encoding(m) => m@,
            ErrorKind::Json(m) => m@,
        }
    }

    /// Whether this error came from the durable store.
    pub fn is_io(&self) -> (b: bool)
        ensures
            b == (self is IO),
    {
        match self {
            ErrorKind::IO(_) => true,
            _ => false,
        }
    }

    /// Whether this error came from the structural byte encoding.
    pub fn is_encoding(&self) -> (b: bool)
        ensures
            b == (self is Encoding),
    {
        match self {
            ErrorKind::Encoding(_) => true,
            _ => false,
        }
    }

    /// Whether this error came from the text rendering.
    pub fn is_json(&self) -> (b: bool)
        ensures
            b == (self is Json),
    {
        match self {
            ErrorKind::Json(_) => true,
            _ => false,
        }
    }

    /// The cause message, for diagnostics.
    pub fn message(&self) -> (m: &String)
        ensures
            m@ == self.cause(),
    {
        match self {
            ErrorKind::IO(m) => m,
            ErrorKind::Encoding(m) => m,
            ErrorKind::Json(m) => m,
        }
    }
}

/// A value that can be structurally encoded: losslessly turned into bytes,
/// recovered from those bytes, and rendered as text.
///
/// The spec functions fix, per type, which values can be encoded and what
/// their byte and text forms are, as functions of the value's abstract view
/// `Self::V`; the executable methods are contracted against them.  Decoding
/// must recover exactly the structural content that was encoded, which is
/// what makes the save/load round trip provable.
pub trait Encodable: View + Sized {
    /// Whether a value with this view has a structural byte encoding.
    spec fn encodable(v: Self::V) -> bool;

    /// The structural byte encoding of a value with this view.
    spec fn enc(v: Self::V) -> Seq<u8>;

    /// Whether a value with this view can be rendered as text.
    spec fn text_encodable(v: Self::V) -> bool;

    /// The text rendering of a value with this view.
    spec fn text_enc(v: Self::V) -> Seq<char>;

    /// Encode this value into a byte buffer.
    fn encode(&self) -> (r: Result<Vec<u8>, ErrorKind>)
        ensures
            Self::encodable(self@) ==> (r matches Ok(b) && b@ == Self::enc(self@)),
            !Self::encodable(self@) ==> (r matches Err(e) && e is Encoding),
    ;

    /// Decode a value of this type from a byte buffer.  Bytes that are the
    /// encoding of some value must decode to a value of exactly that
    /// structural content; any failure is an encoding failure, never an
    /// I/O one.
    fn decode(bytes: &[u8]) -> (r: Result<Self, ErrorKind>)
        ensures
            forall|v: Self::V|
                (Self::encodable(v) && (#[trigger] Self::enc(v)) == bytes@) ==> (r matches Ok(w)
                    && w@ == v),
            r matches Err(e) ==> e is Encoding,
    ;

    /// Render this value as text.
    fn encode_text(&self) -> (r: Result<String, ErrorKind>)
        ensures
            Self::text_encodable(self@) ==> (r matches Ok(t) && t@ == Self::text_enc(self@)),
            !Self::text_encodable(self@) ==> (r matches Err(e) && e is Json),
    ;
}

/// The capability a model must offer to be saved and loaded: structural
/// encodability plus two infallible lifecycle hooks.
///
/// `before` normalizes the model in place ahead of encoding (for instance,
/// flushing cached derived state); `after` rebuilds such state on a freshly
/// decoded model.  Each hook's effect on the model's structural content is
/// pinned to a spec function of the old view, so the contracts of the save
/// and load operations can say precisely which value is encoded and which
/// value is returned.
pub trait Transform: Encodable {
    /// The view of the model as `before` leaves it.
    spec fn before_view(v: Self::V) -> Self::V;

    /// The view of the model as `after` leaves it.
    spec fn after_view(v: Self::V) -> Self::V;

    /// Normalize the model for serialization.
    fn before(&mut self)
        ensures
            final(self)@ == Self::before_view(old(self)@),
    ;

    /// Rebuild derived state after deserialization.
    fn after(&mut self)
        ensures
            final(self)@ == Self::after_view(old(self)@),
    ;
}

} // verus!
