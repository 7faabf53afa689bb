//! Session identifiers: 128-bit random values, carried as their canonical
//! hyphenated string rendering, which is also the cache-map key, the cookie
//! value, and the persisted primary key.
use vstd::prelude::*;
use crate::error::SessionError;

verus! {

/// Whether a string is accepted by the UUID parser.
pub uninterp spec fn uuid_accepts(s: Seq<char>) -> bool;

/// The canonical (hyphenated, lower-case) rendering of the UUID a string
/// parses to. Meaningful only where `uuid_accepts` holds.
pub uninterp spec fn uuid_canon(s: Seq<char>) -> Seq<char>;

/// Relies on `uuid::Uuid::parse_str` and `uuid::Uuid`'s `Display` rendering:
/// parsing succeeds exactly on strings the UUID grammar accepts, and the
/// rendering is the canonical 36-character hyphenated form, which the parser
/// accepts and renders back unchanged.
#[verifier::external_body]
fn canonicalize_uuid(value: &str) -> (r: Option<String>)
    ensures
        r is Some <==> uuid_accepts(value@),
        r matches Some(c) ==> {
            &&& c@ == uuid_canon(value@)
            &&& c@.len() == 36
            &&& uuid_accepts(c@)
            &&& uuid_canon(c@) == c@
        },
{
    match uuid::Uuid::parse_str(value) {
        Ok(u) => Some(u.to_string()),
        Err(_) => None,
    }
}

/// Relies on `uuid::Uuid::new_v4` and `uuid::Uuid`'s `Display` rendering: the
/// result renders a (random) UUID in the canonical 36-character hyphenated
/// form. Nothing relates two calls: the value is random.
#[verifier::external_body]
fn generate_uuid_string() -> (r: String)
    ensures
        r@.len() == 36,
        uuid_accepts(r@),
        uuid_canon(r@) == r@,
{
    uuid::Uuid::new_v4().to_string()
}

/// The identifier of one session: a canonically rendered UUID string. It
/// names the session in the cache map, in the client's cookie, and in the
/// persisted table.
#[derive(Debug)]
pub struct SqlxSessionID(String);

impl View for SqlxSessionID {
    type V = Seq<char>;

    closed spec fn view(&self) -> Seq<char> {
        self.0@
    }
}

impl Clone for SqlxSessionID {
    fn clone(&self) -> (r: Self)
        ensures
            r@ == self@,
    {
        SqlxSessionID(self.0.clone())
    }
}

impl SqlxSessionID {
    /// A well-formed identifier is a string the UUID parser accepts, already
    /// in canonical form.
    pub open spec fn wf(self) -> bool {
        &&& uuid_accepts(self@)
        &&& uuid_canon(self@) == self@
    }

    /// Wrap an identifier string that is already canonical.
    pub fn new(id: String) -> (r: SqlxSessionID)
        requires
            uuid_accepts(id@),
            uuid_canon(id@) == id@,
        ensures
            r@ == id@,
            r.wf(),
    {
        SqlxSessionID(id)
    }

    /// Parse a client-supplied identifier string. Returns the identifier in
    /// canonical form exactly when the string is a valid UUID rendering;
    /// malformed input is an `IdentifierParse` error.
    pub fn parse(value: &str) -> (r: Result<SqlxSessionID, SessionError>)
        ensures
            uuid_accepts(value@) ==> (r matches Ok(id) && id@ == uuid_canon(value@) && id.wf()),
            !uuid_accepts(value@) ==> r == Err::<SqlxSessionID, SessionError>(
                SessionError::IdentifierParse,
            ),
    {
        match canonicalize_uuid(value) {
            Some(c) => Ok(SqlxSessionID::new(c)),
            None => Err(SessionError::IdentifierParse),
        }
    }

    /// Generate a fresh random identifier.
    pub fn generate() -> (r: SqlxSessionID)
        ensures
            r.wf(),
            r@.len() == 36,
    {
        SqlxSessionID::new(generate_uuid_string())
    }

    /// The identifier as a string.
    pub fn inner(&self) -> (r: String)
        ensures
            r@ == self@,
    {
        self.0.clone()
    }
}

} // verus!
