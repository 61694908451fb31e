//! Concrete model types that carry the [`Transform`] capability.
//!
//! [`Network`] is a small feed-forward model — layer widths, integer
//! connection parameters and a derived cache — whose structural encoding is
//! `bincode`'s byte form and whose text rendering is `serde_json`'s.  Its
//! lifecycle hooks keep the cache out of the canonical persisted form:
//! `before` clears it and `after` recomputes it.
//!
//! [`Unencodable`] is a model with no structural encoding at all; saving or
//! exporting it exercises the encoding-failure paths.

use vstd::prelude::*;

use crate::Encodable;
use crate::ErrorKind;
use crate::Transform;

verus! {

/// The byte form that `bincode::serialize` gives a model with these layer
/// widths, parameters and cache word.
pub uninterp spec fn net_enc(layout: Seq<u64>, weights: Seq<i64>, cache: u64) -> Seq<u8>;

/// The text that `serde_json::to_string` gives a model with these layer
/// widths, parameters and cache word.
pub uninterp spec fn net_json(layout: Seq<u64>, weights: Seq<i64>, cache: u64) -> Seq<char>;

/// Relies on `bincode::serialize`: with its fixed-width integer encoding
/// and no byte limit, serializing a triple of two integer sequences and one
/// integer writes plain little-endian words and length-prefixed sequences
/// and cannot fail, and the bytes depend on the field values alone.
#[verifier::external_body]
fn net_encode(layout: &Vec<u64>, weights: &Vec<i64>, cache: u64) -> (r: Result<Vec<u8>, String>)
    ensures
        r is Ok,
        r matches Ok(b) ==> b@ == net_enc(layout@, weights@, cache),
{
    bincode::serialize(&(layout, weights, cache)).map_err(|e| e.to_string())
}

/// Relies on `bincode::deserialize`: decoding bytes that
/// `bincode::serialize` produced for this triple of field types recovers
/// exactly the field values that were serialized.
#[verifier::external_body]
fn net_decode(bytes: &[u8]) -> (r: Result<Network, String>)
    ensures
        forall|l: Seq<u64>, w: Seq<i64>, c: u64|
            bytes@ == (#[trigger] net_enc(l, w, c)) ==> r is Ok,
        forall|l: Seq<u64>, w: Seq<i64>, c: u64|
            bytes@ == (#[trigger] net_enc(l, w, c)) ==> (r matches Ok(n) ==> n.layout@ == l),
        forall|l: Seq<u64>, w: Seq<i64>, c: u64|
            bytes@ == (#[trigger] net_enc(l, w, c)) ==> (r matches Ok(n) ==> n.weights@ == w),
        forall|l: Seq<u64>, w: Seq<i64>, c: u64|
            bytes@ == (#[trigger] net_enc(l, w, c)) ==> (r matches Ok(n) ==> n.cache == c),
{
    match bincode::deserialize::<(Vec<u64>, Vec<i64>, u64)>(bytes) {
        Ok((layout, weights, cache)) => Ok(Network { layout, weights, cache }),
        Err(e) => Err(e.to_string()),
    }
}

/// Relies on `serde_json::to_string`: it fails only when a `Serialize`
/// implementation errs or a map has non-string keys, so rendering a triple
/// of two integer sequences and one integer always succeeds, and the text
/// depends on the field values alone.
#[verifier::external_body]
fn net_render(layout: &Vec<u64>, weights: &Vec<i64>, cache: u64) -> (r: Result<String, String>)
    ensures
        r is Ok,
        r matches Ok(t) ==> t@ == net_json(layout@, weights@, cache),
{
    serde_json::to_string(&(layout, weights, cache)).map_err(|e| e.to_string())
}

/// The structural content of a [`Network`].
pub struct NetworkView {
    /// Widths of the layers, input layer first.
    pub layout: Seq<u64>,
    /// Connection parameters, in a fixed order.
    pub weights: Seq<i64>,
    /// Derived state: the cached connection count.
    pub cache: u64,
}

/// A small feed-forward model: layer widths, integer connection parameters,
/// and a cache of derived state.
///
/// The cache is recomputable from the parameters, so it is kept out of the
/// canonical persisted form: the `before` hook clears it ahead of encoding
/// and the `after` hook rebuilds it on a freshly decoded model.
#[derive(Debug)]
pub struct Network {
    /// Widths of the layers, input layer first.
    pub layout: Vec<u64>,
    /// Connection parameters, in a fixed order.
    pub weights: Vec<i64>,
    /// Derived state: the cached connection count, rebuilt on load.
    pub cache: u64,
}

impl View for Network {
    type V = NetworkView;

    open spec fn view(&self) -> NetworkView {
        NetworkView { layout: self.layout@, weights: self.weights@, cache: self.cache }
    }
}

impl Encodable for Network {
    open spec fn encodable(v: NetworkView) -> bool {
        true
    }

    open spec fn enc(v: NetworkView) -> Seq<u8> {
        net_enc(v.layout, v.weights, v.cache)
    }

    open spec fn text_encodable(v: NetworkView) -> bool {
        true
    }

    open spec fn text_enc(v: NetworkView) -> Seq<char> {
        net_json(v.layout, v.weights, v.cache)
    }

    fn encode(&self) -> (r: Result<Vec<u8>, ErrorKind>) {
        match net_encode(&self.layout, &self.weights, self.cache) {
            Ok(b) => Ok(b),
            Err(m) => Err(ErrorKind::Encoding(m)),
        }
    }

    fn decode(bytes: &[u8]) -> (r: Result<Network, ErrorKind>) {
        match net_decode(bytes) {
            Ok(n) => Ok(n),
            Err(m) => Err(ErrorKind::Encoding(m)),
        }
    }

    fn encode_text(&self) -> (r: Result<String, ErrorKind>) {
        match net_render(&self.layout, &self.weights, self.cache) {
            Ok(t) => Ok(t),
            Err(m) => Err(ErrorKind::Json(m)),
        }
    }
}

impl Transform for Network {
    open spec fn before_view(v: NetworkView) -> NetworkView {
        NetworkView { cache: 0, ..v }
    }

    open spec fn after_view(v: NetworkView) -> NetworkView {
        NetworkView { cache: v.weights.len() as u64, ..v }
    }

    fn before(&mut self) {
        self.cache = 0;
    }

    fn after(&mut self) {
        self.cache = self.weights.len() as u64;
    }
}

/// A model value that has no structural encoding.
///
/// It stands in for model types whose encoder refuses them; asking to save
/// or export such a value exercises the encoding-failure path, on which no
/// byte buffer is ever produced.
#[derive(Debug)]
pub struct Unencodable {
    /// An arbitrary payload, never persisted.
    pub tag: u64,
}

impl View for Unencodable {
    type V = u64;

    open spec fn view(&self) -> u64 {
        self.tag
    }
}

impl Encodable for Unencodable {
    open spec fn encodable(v: u64) -> bool {
        false
    }

    open spec fn enc(v: u64) -> Seq<u8> {
        Seq::empty()
    }

    open spec fn text_encodable(v: u64) -> bool {
        false
    }

    open spec fn text_enc(v: u64) -> Seq<char> {
        Seq::empty()
    }

    fn encode(&self) -> (r: Result<Vec<u8>, ErrorKind>) {
        Err(ErrorKind::Encoding(String::from_str("the value has no structural encoding")))
    }

    fn decode(_bytes: &[u8]) -> (r: Result<Unencodable, ErrorKind>) {
        Err(ErrorKind::Encoding(String::from_str("no bytes encode a value of this type")))
    }

    fn encode_text(&self) -> (r: Result<String, ErrorKind>) {
        Err(ErrorKind::Json(String::from_str("the value has no text rendering")))
    }
}

impl Transform for Unencodable {
    open spec fn before_view(v: u64) -> u64 {
        v
    }

    open spec fn after_view(v: u64) -> u64 {
        v
    }

    fn before(&mut self) {
    }

    fn after(&mut self) {
    }
}

} // verus!
