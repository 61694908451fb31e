//! The byte-level save and load operations, and the auxiliary text export.
//!
//! Saving runs the model's `before` hook and then encodes the normalized
//! model; loading decodes a model from bytes and then runs its `after` hook.
//! The caller owns the durable store: it writes the buffer a save hands back
//! and reads the buffer a load consumes, mapping any failure there to an
//! [`ErrorKind::IO`].  Every error produced here is an encoding-stage error,
//! never an I/O one.

use vstd::prelude::*;

use crate::Encodable;
use crate::ErrorKind;
use crate::Transform;

verus! {

/// Normalize a model with its `before` hook and encode it into the byte
/// buffer to be written to the durable store.
///
/// The hook runs exactly once, before any byte of the buffer exists, so the
/// returned bytes are the encoding of the normalized model.  If that model
/// cannot be encoded, no buffer is produced at all — there is nothing a
/// caller could have partially written — and the error is an encoding
/// failure.  The model keeps its normalized state either way.
pub fn save_bytes<T: Transform>(obj: &mut T) -> (r: Result<Vec<u8>, ErrorKind>)
    ensures
        final(obj)@ == T::before_view(old(obj)@),
        T::encodable(T::before_view(old(obj)@)) ==> (r matches Ok(b) && b@ == T::enc(
            T::before_view(old(obj)@),
        )),
        !T::encodable(T::before_view(old(obj)@)) ==> (r matches Err(e) && e is Encoding),
{
    obj.before();
    obj.encode()
}

/// Decode a model from the bytes read out of the durable store and rehydrate
/// it with its `after` hook.
///
/// Bytes that are the encoding of some model yield exactly that model with
/// `after` applied — the hook runs once, after all bytes have been consumed
/// and before the model is returned.  Any failure is an encoding failure
/// (malformed, truncated or mismatched bytes), never an I/O one.
pub fn load_bytes<T: Transform>(bytes: &[u8]) -> (r: Result<T, ErrorKind>)
    ensures
        forall|v: T::V|
            (T::encodable(v) && (#[trigger] T::enc(v)) == bytes@) ==> (r matches Ok(w) && w@
                == T::after_view(v)),
        r matches Err(e) ==> e is Encoding,
{
    match T::decode(bytes) {
        Ok(mut obj) => {
            obj.after();
            Ok(obj)
        },
        Err(e) => Err(e),
    }
}

/// Render any structurally encodable value as text.
///
/// No lifecycle hook runs: the value is exported as it stands.  A successful
/// export is exactly the value's text rendering, a function of the value's
/// structural content alone, so exporting the same value twice yields
/// identical text.
pub fn to_json<T: Encodable>(obj: &T) -> (r: Result<String, ErrorKind>)
    ensures
        T::text_encodable(obj@) ==> (r matches Ok(t) && t@ == T::text_enc(obj@)),
        !T::text_encodable(obj@) ==> (r matches Err(e) && e is Json),
{
    obj.encode_text()
}

/// Reserved text-import surface.
///
/// Declared for symmetry with [`to_json`], but deliberately not an
/// operation: it performs no decoding and yields nothing.  Callers must not
/// treat it as the inverse of the text export.
pub fn from_json(_s: &str) {
}

/// Round-trip law: saving a model and loading the saved bytes yields the
/// model with `before` and then `after` applied to its structural content —
/// every field the hooks do not touch comes back structurally equal.
///
/// `loaded` stands for the content of a successful load of `saved`: by the
/// contract of [`load_bytes`], it equals `T::after_view(v)` for any view `v`
/// whose encoding the bytes are.  Since [`save_bytes`] hands back exactly
/// the encoding of `T::before_view(m)`, the loaded content is
/// `T::after_view(T::before_view(m))`.
pub proof fn lemma_round_trip<T: Transform>(m: T::V, saved: Seq<u8>, loaded: T::V)
    requires
        T::encodable(T::before_view(m)),
        saved == T::enc(T::before_view(m)),
        forall|v: T::V|
            (T::encodable(v) && (#[trigger] T::enc(v)) == saved) ==> loaded == T::after_view(v),
    ensures
        loaded == T::after_view(T::before_view(m)),
{
    assert(T::enc(T::before_view(m)) == saved);
}

/// Text-export determinism: the text rendering is a function of the value's
/// structural content alone, so two successful exports of the same value —
/// each pinned to `T::text_enc(v)` by the contract of [`to_json`] — are
/// identical.
pub proof fn lemma_text_export_deterministic<T: Encodable>(v: T::V, t1: Seq<char>, t2: Seq<char>)
    requires
        t1 == T::text_enc(v),
        t2 == T::text_enc(v),
    ensures
        t1 == t2,
{
}

} // verus!
