//! Declarations that let the failure types of the subsystems underneath
//! stand in this crate's signatures, and the renderings relied on for them.
//!
//! Every type here is opaque to the rest of the crate: nothing reads into a
//! value of one; each is carried through and, at most, rendered to text.
use vstd::prelude::*;

verus! {

/// The storage engine's failure value.
#[verifier::external_type_specification]
#[verifier::external_body]
pub struct ExLmdbError(lmdb::Error);

/// The binary document codec's failure value.
#[verifier::external_type_specification]
#[verifier::external_body]
pub struct ExCborError(serde_cbor::Error);

/// The configuration and dump format's failure value.
#[verifier::external_type_specification]
#[verifier::external_body]
pub struct ExRonError(ron::Error);

/// The standard library's filesystem and stream failure value.
#[verifier::external_type_specification]
#[verifier::external_body]
pub struct ExIoError(std::io::Error);

/// The standard library's text-decoding failure value.
#[verifier::external_type_specification]
#[verifier::external_body]
pub struct ExUtf8Error(core::str::Utf8Error);

/// The standard library's poisoned-lock failure value, over any guarded type.
#[verifier::external_type_specification]
#[verifier::external_body]
#[verifier::reject_recursive_types(T)]
pub struct ExPoisonError<T>(std::sync::PoisonError<T>);

/// The text that a `ron::Error` renders to, a function of the value alone:
/// every variant of `ron::Error` holds plain data, and its `Display`
/// implementation writes fixed words and those fields.
pub uninterp spec fn ron_error_text(e: ron::Error) -> Seq<char>;

/// The text that a `core::str::Utf8Error` renders to, a function of the
/// value alone: its `Display` implementation writes its two fields.
pub uninterp spec fn utf8_error_text(e: core::str::Utf8Error) -> Seq<char>;

/// Relies on `Display for ron::Error`: the rendering depends on the value
/// alone, so it has a name that contracts can share.
#[verifier::external_body]
pub(crate) fn render_ron_error(e: &ron::Error) -> (s: String)
    ensures
        s@ == ron_error_text(*e),
{
    format!("{}", e)
}

/// Relies on `Display for core::str::Utf8Error`: the rendering depends on
/// the value alone, so it has a name that contracts can share.
#[verifier::external_body]
pub(crate) fn render_utf8_error(e: &core::str::Utf8Error) -> (s: String)
    ensures
        s@ == utf8_error_text(*e),
{
    format!("{}", e)
}

} // verus!
