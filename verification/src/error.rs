//! The unified error type of the database: a closed set of failure variants,
//! each renderable to a diagnostic string of the shape `"<Category>: <payload>"`,
//! with a total conversion from every failure type of the subsystems
//! underneath and an adapter that normalizes any convertible result.
use crate::foreign::{render_ron_error, render_utf8_error, ron_error_text, utf8_error_text};
use vstd::prelude::*;
use vstd::std_specs::convert::FromSpec;
use vstd::string::to_string_from_display_ensures;
use vstd::string::StringExecFns;

verus! {

/// One failure of the database, tagged by the subsystem it came from.
///
/// Exactly one variant is active per value; a value is immutable once made
/// and is consumed by rendering or by matching on its kind.
#[derive(Debug)]
pub enum LedbError {
    /// A document broke a structural or content rule of this database layer
    /// itself; the payload is the message.
    DocError(String),
    /// The key-value storage engine underneath reported a failure; the
    /// payload is the engine's own failure value, unmodified.
    DbError(lmdb::Error),
    /// A byte sequence that should have been valid text was not; the payload
    /// is the decoding failure, unmodified.
    StrError(core::str::Utf8Error),
    /// The binary document codec failed to encode or decode a value; the
    /// payload is the codec's failure value, unmodified.
    DataError(serde_cbor::Error),
    /// The human-readable configuration and dump format failed; only the
    /// text of the underlying cause is kept.
    StorageError(String),
    /// A filesystem or stream operation failed; the payload is the I/O
    /// failure value, unmodified.
    IoError(std::io::Error),
    /// A mutual-exclusion primitive was found poisoned after a failure on
    /// another execution path; the payload is the text of its description.
    SyncError(String),
}

/// The database's result type: a success value, or one unified [`LedbError`].
pub type Result<T> = core::result::Result<T, LedbError>;

/// The fixed category label of each variant of [`LedbError`].
pub open spec fn category(e: LedbError) -> Seq<char> {
    match e {
        LedbError::DocError(_) => "Document error"@,
        LedbError::DbError(_) => "Database error"@,
        LedbError::StrError(_) => "String error"@,
        LedbError::DataError(_) => "Data coding error"@,
        LedbError::StorageError(_) => "Storage error"@,
        LedbError::IoError(_) => "I/O Error"@,
        LedbError::SyncError(_) => "Sync error"@,
    }
}

/// A category label followed by `": "` and a payload: the shape of every
/// diagnostic string this crate produces.
pub open spec fn labeled(label: Seq<char>, payload: Seq<char>) -> Seq<char> {
    label + ": "@ + payload
}

/// The variants whose payload text this crate's model pins to one exact
/// sequence: the message-carrying ones, and the decoding failure, whose
/// rendering is a function of the value alone.  The renderings of the
/// storage engine's, the codec's and the I/O failure may consult the
/// machine's error-string tables, so their text is only tied to the
/// standard library's to-string relation on the payload, not pinned.
pub open spec fn text_pinned(e: LedbError) -> bool {
    !(e is DbError || e is DataError || e is IoError)
}

/// What rendering a [`LedbError`] `e` promises of the string `s` it yields:
/// `s` is the category label of `e`'s variant, then `": "`, then the
/// payload's own text — pinned exactly wherever `text_pinned` holds, and
/// otherwise a text that the standard library's rendering of the payload
/// value itself produced.
pub open spec fn rendered(e: LedbError, s: Seq<char>) -> bool {
    &&& exists|p: Seq<char>| s == labeled(category(e), p)
    &&& match e {
        LedbError::DocError(m) => s == labeled(category(e), m@),
        LedbError::DbError(x) => exists|t: String|
            #[trigger] to_string_from_display_ensures::<lmdb::Error>(&x, t)
                && s == labeled(category(e), t@),
        LedbError::StrError(u) => s == labeled(category(e), utf8_error_text(u)),
        LedbError::DataError(x) => exists|t: String|
            #[trigger] to_string_from_display_ensures::<serde_cbor::Error>(&x, t)
                && s == labeled(category(e), t@),
        LedbError::StorageError(m) => s == labeled(category(e), m@),
        LedbError::IoError(x) => exists|t: String|
            #[trigger] to_string_from_display_ensures::<std::io::Error>(&x, t)
                && s == labeled(category(e), t@),
        LedbError::SyncError(m) => s == labeled(category(e), m@),
    }
}

/// The label, `": "`, and the payload, joined into one fresh string.
fn join(label: &str, payload: &str) -> (s: String)
    ensures
        s@ == labeled(label@, payload@),
{
    let mut s = String::from_str(label);
    s.append(": ");
    s.append(payload);
    s
}

impl LedbError {
    /// The diagnostic rendering: the category label of the active variant,
    /// `": "`, and the payload's own text.  Total: every variant renders,
    /// whatever its payload holds, and the result is never empty.
    pub fn to_text(&self) -> (s: String)
        ensures
            rendered(*self, s@),
    {
        match self {
            LedbError::DocError(m) => {
                let s = join("Document error", m.as_str());
                proof {
                    assert(s@ == labeled(category(*self), m@));
                }
                s
            },
            LedbError::DbError(e) => {
                let p = e.to_string();
                let s = join("Database error", p.as_str());
                proof {
                    assert(to_string_from_display_ensures::<lmdb::Error>(e, p)
                        && s@ == labeled(category(*self), p@));
                }
                s
            },
            LedbError::StrError(u) => {
                let p = render_utf8_error(u);
                let s = join("String error", p.as_str());
                proof {
                    assert(s@ == labeled(category(*self), utf8_error_text(*u)));
                }
                s
            },
            LedbError::DataError(e) => {
                let p = e.to_string();
                let s = join("Data coding error", p.as_str());
                proof {
                    assert(to_string_from_display_ensures::<serde_cbor::Error>(e, p)
                        && s@ == labeled(category(*self), p@));
                }
                s
            },
            LedbError::StorageError(m) => {
                let s = join("Storage error", m.as_str());
                proof {
                    assert(s@ == labeled(category(*self), m@));
                }
                s
            },
            LedbError::IoError(e) => {
                let p = e.to_string();
                let s = join("I/O Error", p.as_str());
                proof {
                    assert(to_string_from_display_ensures::<std::io::Error>(e, p)
                        && s@ == labeled(category(*self), p@));
                }
                s
            },
            LedbError::SyncError(m) => {
                let s = join("Sync error", m.as_str());
                proof {
                    assert(s@ == labeled(category(*self), m@));
                }
                s
            },
        }
    }
}

impl From<String> for LedbError {
    /// A plain message, raised when this database layer itself finds a
    /// document invalid, becomes a document error with that exact message.
    fn from(e: String) -> (r: LedbError)
        ensures
            r == LedbError::DocError(e),
    {
        LedbError::DocError(e)
    }
}

impl vstd::std_specs::convert::FromSpecImpl<String> for LedbError {
    open spec fn obeys_from_spec() -> bool {
        true
    }

    open spec fn from_spec(v: String) -> LedbError {
        LedbError::DocError(v)
    }
}

impl<'a> From<&'a str> for LedbError {
    /// A message given as a text slice becomes a document error whose
    /// payload holds that exact text.
    fn from(e: &'a str) -> (r: LedbError)
        ensures
            r is DocError,
            r->DocError_0@ == e@,
    {
        LedbError::DocError(String::from_str(e))
    }
}

impl<'a> vstd::std_specs::convert::FromSpecImpl<&'a str> for LedbError {
    open spec fn obeys_from_spec() -> bool {
        false
    }

    open spec fn from_spec(v: &'a str) -> LedbError {
        choose|r: LedbError| r is DocError && r->DocError_0@ == v@
    }
}

impl From<lmdb::Error> for LedbError {
    /// A failure of the key-value storage engine becomes a database error
    /// holding the engine's value unmodified.
    fn from(e: lmdb::Error) -> (r: LedbError)
        ensures
            r == LedbError::DbError(e),
    {
        LedbError::DbError(e)
    }
}

impl vstd::std_specs::convert::FromSpecImpl<lmdb::Error> for LedbError {
    open spec fn obeys_from_spec() -> bool {
        true
    }

    open spec fn from_spec(v: lmdb::Error) -> LedbError {
        LedbError::DbError(v)
    }
}

impl From<core::str::Utf8Error> for LedbError {
    /// A text-decoding failure becomes a string error holding the failure
    /// unmodified.
    fn from(e: core::str::Utf8Error) -> (r: LedbError)
        ensures
            r == LedbError::StrError(e),
    {
        LedbError::StrError(e)
    }
}

impl vstd::std_specs::convert::FromSpecImpl<core::str::Utf8Error> for LedbError {
    open spec fn obeys_from_spec() -> bool {
        true
    }

    open spec fn from_spec(v: core::str::Utf8Error) -> LedbError {
        LedbError::StrError(v)
    }
}

impl From<serde_cbor::Error> for LedbError {
    /// A failure of the binary document codec becomes a data coding error
    /// holding the codec's value unmodified.
    fn from(e: serde_cbor::Error) -> (r: LedbError)
        ensures
            r == LedbError::DataError(e),
    {
        LedbError::DataError(e)
    }
}

impl vstd::std_specs::convert::FromSpecImpl<serde_cbor::Error> for LedbError {
    open spec fn obeys_from_spec() -> bool {
        true
    }

    open spec fn from_spec(v: serde_cbor::Error) -> LedbError {
        LedbError::DataError(v)
    }
}

impl From<std::io::Error> for LedbError {
    /// A filesystem or stream failure becomes an I/O error holding the
    /// failure unmodified.
    fn from(e: std::io::Error) -> (r: LedbError)
        ensures
            r == LedbError::IoError(e),
    {
        LedbError::IoError(e)
    }
}

impl vstd::std_specs::convert::FromSpecImpl<std::io::Error> for LedbError {
    open spec fn obeys_from_spec() -> bool {
        true
    }

    open spec fn from_spec(v: std::io::Error) -> LedbError {
        LedbError::IoError(v)
    }
}

impl From<ron::Error> for LedbError {
    /// A failure of the human-readable configuration and dump format becomes
    /// a storage error.  This is the one information-reducing conversion:
    /// only the text of the cause is carried forward, because the format
    /// library's failure type is not meant to reach the database's public
    /// error surface.
    fn from(e: ron::Error) -> (r: LedbError)
        ensures
            r is StorageError,
            r->StorageError_0@ == ron_error_text(e),
    {
        LedbError::StorageError(render_ron_error(&e))
    }
}

impl vstd::std_specs::convert::FromSpecImpl<ron::Error> for LedbError {
    open spec fn obeys_from_spec() -> bool {
        false
    }

    open spec fn from_spec(v: ron::Error) -> LedbError {
        choose|r: LedbError| r is StorageError && r->StorageError_0@ == ron_error_text(v)
    }
}

impl<E> From<std::sync::PoisonError<E>> for LedbError {
    /// A poisoned mutual-exclusion primitive, whatever value it protected,
    /// becomes a sync error whose payload is the very text that the standard
    /// library's rendering of the poisoning produced, captured here: the
    /// structured value is not consulted again.
    fn from(e: std::sync::PoisonError<E>) -> (r: LedbError)
        ensures
            r is SyncError,
            exists|t: String|
                #[trigger] to_string_from_display_ensures::<std::sync::PoisonError<E>>(&e, t)
                    && r == LedbError::SyncError(t),
    {
        let t = e.to_string();
        LedbError::SyncError(t)
    }
}

impl<E> vstd::std_specs::convert::FromSpecImpl<std::sync::PoisonError<E>> for LedbError {
    open spec fn obeys_from_spec() -> bool {
        false
    }

    open spec fn from_spec(v: std::sync::PoisonError<E>) -> LedbError {
        LedbError::SyncError(arbitrary())
    }
}

impl From<LedbError> for String {
    /// The lossy conversion of an error into a plain string: exactly its
    /// diagnostic rendering, with nothing added and nothing cut.
    fn from(e: LedbError) -> (s: String)
        ensures
            rendered(e, s@),
    {
        e.to_text()
    }
}

impl vstd::std_specs::convert::FromSpecImpl<LedbError> for String {
    open spec fn obeys_from_spec() -> bool {
        false
    }

    open spec fn from_spec(v: LedbError) -> String {
        choose|s: String| rendered(v, s@)
    }
}

/// The helper for converting results with different error types into the
/// database's generic result: success passes through unchanged, a failure
/// is remapped by the static type of its error.
pub trait ResultWrap<T>: Sized {
    /// The same result, with the failure normalized to [`LedbError`].
    fn wrap_err(self) -> Result<T>;
}

impl<T, E> ResultWrap<T> for core::result::Result<T, E> where LedbError: From<E> {
    /// Wrapping a success is a no-op on the value; wrapping a failure
    /// converts it, and the converted error satisfies everything that the
    /// conversion for `E` promises.
    fn wrap_err(self) -> (r: Result<T>)
        ensures
            self is Ok ==> r == Ok::<T, LedbError>(self->Ok_0),
            self is Err ==> r is Err && call_ensures(
                <LedbError as From<E>>::from,
                (self->Err_0,),
                r->Err_0,
            ),
    {
        match self {
            Ok(v) => Ok(v),
            Err(e) => Err(LedbError::from(e)),
        }
    }
}

/// Law: every rendering of an error is the category label of its variant,
/// then `": "`, then a payload text — so it is never empty, whatever the
/// payload holds.
pub proof fn lemma_rendering_shape(e: LedbError, s: Seq<char>)
    requires
        rendered(e, s),
    ensures
        exists|p: Seq<char>| s == labeled(category(e), p),
        s.len() >= category(e).len() + 2,
{
    reveal_strlit(": ");
    let p = choose|p: Seq<char>| s == labeled(category(e), p);
    assert(s.len() == category(e).len() + 2 + p.len());
}

/// Law: rendering is a function of the error value alone — two renderings
/// of one error agree — for every variant whose payload text is pinned.
/// (The payloads of the remaining variants are rendered by the machine's
/// own error-string tables, which this model does not relate across calls.)
pub proof fn lemma_rendering_deterministic(e: LedbError, s1: Seq<char>, s2: Seq<char>)
    requires
        rendered(e, s1),
        rendered(e, s2),
        text_pinned(e),
    ensures
        s1 == s2,
{
}

/// Law: converting an outside failure and rendering the converted error
/// yields the fixed category label of the variant that failure maps to,
/// `": "`, and the payload's own text — the message itself for the
/// message-carrying variants, the named rendering for the decoding failure,
/// and, for the three variants whose text is not pinned, a text that the
/// standard library's rendering of the payload value itself produced.
pub proof fn lemma_conversion_rendering(e: LedbError, s: Seq<char>)
    requires
        rendered(e, s),
    ensures
        e is DocError ==> s == labeled("Document error"@, e->DocError_0@),
        e is DbError ==> exists|t: String|
            #[trigger] to_string_from_display_ensures::<lmdb::Error>(&e->DbError_0, t)
                && s == labeled("Database error"@, t@),
        e is StrError ==> s == labeled("String error"@, utf8_error_text(e->StrError_0)),
        e is DataError ==> exists|t: String|
            #[trigger] to_string_from_display_ensures::<serde_cbor::Error>(&e->DataError_0, t)
                && s == labeled("Data coding error"@, t@),
        e is StorageError ==> s == labeled("Storage error"@, e->StorageError_0@),
        e is IoError ==> exists|t: String|
            #[trigger] to_string_from_display_ensures::<std::io::Error>(&e->IoError_0, t)
                && s == labeled("I/O Error"@, t@),
        e is SyncError ==> s == labeled("Sync error"@, e->SyncError_0@),
{
    if e is DbError {
        let t = choose|t: String|
            #[trigger] to_string_from_display_ensures::<lmdb::Error>(&e->DbError_0, t)
                && s == labeled(category(e), t@);
        assert(s == labeled("Database error"@, t@));
    }
    if e is DataError {
        let t = choose|t: String|
            #[trigger] to_string_from_display_ensures::<serde_cbor::Error>(&e->DataError_0, t)
                && s == labeled(category(e), t@);
        assert(s == labeled("Data coding error"@, t@));
    }
    if e is IoError {
        let t = choose|t: String|
            #[trigger] to_string_from_display_ensures::<std::io::Error>(&e->IoError_0, t)
                && s == labeled(category(e), t@);
        assert(s == labeled("I/O Error"@, t@));
    }
}

/// Law: converting a poisoning and rendering the result yields the fixed
/// sync-error label and the very text that the poisoning's own rendering
/// produced when it was converted — the structured value is not consulted
/// again, whatever type the poisoned primitive protected.
pub proof fn lemma_poison_conversion_rendering<E>(
    p: std::sync::PoisonError<E>,
    r: LedbError,
    s: Seq<char>,
)
    requires
        call_ensures(<LedbError as From<std::sync::PoisonError<E>>>::from, (p,), r),
        rendered(r, s),
    ensures
        exists|t: String|
            #[trigger] to_string_from_display_ensures::<std::sync::PoisonError<E>>(&p, t)
                && s == labeled("Sync error"@, t@),
{
    let t = choose|t: String|
        #[trigger] to_string_from_display_ensures::<std::sync::PoisonError<E>>(&p, t)
            && r == LedbError::SyncError(t);
    assert(s == labeled("Sync error"@, t@));
}

/// Law: the mapping table of the conversion layer, for the failure types
/// whose conversion embeds the original value unmodified.  Each such type
/// maps to exactly one variant, and the conversion obeys its stated
/// specification, so `wrap_err` pins the wrapped failure exactly.
pub proof fn lemma_conversion_table(
    m: String,
    db: lmdb::Error,
    u: core::str::Utf8Error,
    cb: serde_cbor::Error,
    io: std::io::Error,
)
    ensures
        <LedbError as FromSpec<String>>::obeys_from_spec(),
        <LedbError as FromSpec<String>>::from_spec(m) == LedbError::DocError(m),
        <LedbError as FromSpec<lmdb::Error>>::obeys_from_spec(),
        <LedbError as FromSpec<lmdb::Error>>::from_spec(db) == LedbError::DbError(db),
        <LedbError as FromSpec<core::str::Utf8Error>>::obeys_from_spec(),
        <LedbError as FromSpec<core::str::Utf8Error>>::from_spec(u) == LedbError::StrError(u),
        <LedbError as FromSpec<serde_cbor::Error>>::obeys_from_spec(),
        <LedbError as FromSpec<serde_cbor::Error>>::from_spec(cb) == LedbError::DataError(cb),
        <LedbError as FromSpec<std::io::Error>>::obeys_from_spec(),
        <LedbError as FromSpec<std::io::Error>>::from_spec(io) == LedbError::IoError(io),
{
}

/// Law: a message given as an owned string and the same text given as a
/// slice normalize identically: both conversions yield a document error
/// whose payload is exactly that text.
pub proof fn lemma_doc_sources_agree(m: String, t: &str, r1: LedbError, r2: LedbError)
    requires
        m@ == t@,
        call_ensures(<LedbError as From<String>>::from, (m,), r1),
        call_ensures(<LedbError as From<&str>>::from, (t,), r2),
    ensures
        r1 is DocError && r1->DocError_0@ == m@,
        r2 is DocError && r2->DocError_0@ == m@,
{
}

} // verus!
