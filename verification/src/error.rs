use vstd::prelude::*;

verus! {

/// What a failed call into the repository engine reported, reduced to the
/// distinctions the core's rules depend on.
#[derive(Clone, Copy, PartialEq, Eq, Structural, Debug)]
pub enum GitErrorKind {
    /// The requested object or reference does not exist.
    NotFound,
    /// The supplied input was syntactically unusable.
    Invalid,
    /// A reference with the requested name already exists.
    Exists,
    /// Any other engine failure (I/O, corruption, traversal setup).
    Other,
}

/// A failed call into the repository engine: its kind plus the engine's
/// human-readable message.
pub struct GitError {
    pub kind: GitErrorKind,
    pub message: String,
}

/// The typed error a caller receives: a category plus a detail string.
#[derive(Debug)]
pub enum ApiError {
    /// A revision, commit, tag or branch does not exist.
    NotFound(String),
    /// Malformed revision syntax, or a name collision on create without
    /// the overwrite flag.
    BadRequest(String),
    /// Unexpected failure in the underlying repository engine.
    InternalServerError(String),
}

impl ApiError {
    /// The human-readable detail string carried by any category.
    pub open spec fn detail(&self) -> Seq<char> {
        match self {
            ApiError::NotFound(s) => s@,
            ApiError::BadRequest(s) => s@,
            ApiError::InternalServerError(s) => s@,
        }
    }

    /// Executable view of the detail string.
    pub fn detail_str(&self) -> (r: &str)
        ensures
            r@ == self.detail(),
    {
        match self {
            ApiError::NotFound(s) => s.as_str(),
            ApiError::BadRequest(s) => s.as_str(),
            ApiError::InternalServerError(s) => s.as_str(),
        }
    }

    /// Whether this is the NotFound category.
    pub fn is_not_found(&self) -> (r: bool)
        ensures
            r == (self is NotFound),
    {
        match self {
            ApiError::NotFound(_) => true,
            _ => false,
        }
    }

    /// Whether this is the BadRequest category.
    pub fn is_bad_request(&self) -> (r: bool)
        ensures
            r == (self is BadRequest),
    {
        match self {
            ApiError::BadRequest(_) => true,
            _ => false,
        }
    }

    /// Whether this is the InternalServerError category.
    pub fn is_internal_server_error(&self) -> (r: bool)
        ensures
            r == (self is InternalServerError),
    {
        match self {
            ApiError::InternalServerError(_) => true,
            _ => false,
        }
    }
}

/// Classify a failed revision resolution or commit lookup.
///
/// A missing object is the caller's NotFound; unusable syntax is the
/// caller's BadRequest; everything else is an engine-side failure.
pub fn classify_lookup_error(kind: GitErrorKind, detail: String) -> (r: ApiError)
    ensures
        r is NotFound <==> kind is NotFound,
        r is BadRequest <==> kind is Invalid,
        r is InternalServerError <==> (kind is Exists || kind is Other),
        r.detail() == detail@,
{
    match kind {
        GitErrorKind::NotFound => ApiError::NotFound(detail),
        GitErrorKind::Invalid => ApiError::BadRequest(detail),
        GitErrorKind::Exists => ApiError::InternalServerError(detail),
        GitErrorKind::Other => ApiError::InternalServerError(detail),
    }
}

/// Classify a failed reference creation.
///
/// A name collision is the caller's BadRequest, as is unusable syntax; a
/// missing target is NotFound; everything else is an engine-side failure.
pub fn classify_ref_create_error(kind: GitErrorKind, detail: String) -> (r: ApiError)
    ensures
        r is NotFound <==> kind is NotFound,
        r is BadRequest <==> (kind is Invalid || kind is Exists),
        r is InternalServerError <==> kind is Other,
        r.detail() == detail@,
{
    match kind {
        GitErrorKind::NotFound => ApiError::NotFound(detail),
        GitErrorKind::Invalid => ApiError::BadRequest(detail),
        GitErrorKind::Exists => ApiError::BadRequest(detail),
        GitErrorKind::Other => ApiError::InternalServerError(detail),
    }
}

/// Wrap an engine failure that has no caller-facing reading other than an
/// internal error (traversal setup, tree lookup, diff computation).
pub fn internal_error(detail: String) -> (r: ApiError)
    ensures
        r is InternalServerError,
        r.detail() == detail@,
{
    ApiError::InternalServerError(detail)
}

} // verus!
