//! Logical SDK producer identities attached to EVP requests.
use vstd::prelude::*;
use vstd::string::*;
use vstd::utf8::{encode_utf8, is_ascii_chars, is_ascii_chars_encode_utf8};
use crate::text::{decimal_digits, u64_to_decimal, trim, str_eq, is_trim_of, is_unicode_whitespace, is_valid_header_value, valid_header_value, is_header_value_byte};
use crate::version::SIDECAR_VERSION;

verus! {

/// Longest producer origin or version, in bytes.
pub const MAX_EVP_PRODUCER_IDENTITY_LENGTH: usize = 256;
/// Longest FFE producer origin or version, in bytes.
pub const MAX_FFE_EVP_PRODUCER_IDENTITY_LENGTH: usize = 256;

/// Every character of `s` is white space (so `s.trim()` is empty).
pub open spec fn all_whitespace(s: Seq<char>) -> bool {
    forall|i: int| 0 <= i < s.len() ==> is_unicode_whitespace(#[trigger] s[i])
}

/// `s` begins or ends with white space (so `s.trim() != s`).
pub open spec fn has_outer_whitespace(s: Seq<char>) -> bool {
    s.len() > 0 && (is_unicode_whitespace(s[0]) || is_unicode_whitespace(s[s.len() - 1]))
}

/// What is wrong with one identity field.
#[derive(Debug, Clone, Copy, PartialEq, Eq, Structural)]
pub enum FieldProblem {
    Empty,
    TooLong { length: usize },
    Invalid,
}

/// The first problem of an identity field, checked in this order: empty after
/// trimming, longer than 256 bytes, surrounded by white space or not a valid
/// HTTP header value.
pub open spec fn field_problem(s: Seq<char>) -> Option<FieldProblem> {
    if all_whitespace(s) {
        Some(FieldProblem::Empty)
    } else if encode_utf8(s).len() > 256 {
        Some(FieldProblem::TooLong { length: encode_utf8(s).len() as usize })
    } else if has_outer_whitespace(s) || !valid_header_value(encode_utf8(s)) {
        Some(FieldProblem::Invalid)
    } else {
        None
    }
}

proof fn lemma_trim_facts(t: Seq<char>, s: Seq<char>)
    requires
        is_trim_of(t, s),
    ensures
        (t.len() == 0) == all_whitespace(s),
        (t == s) == !has_outer_whitespace(s),
{
    let (a, b) = choose|a: int, b: int|
        #![trigger s.subrange(a, b)]
        0 <= a <= b <= s.len() && t == s.subrange(a, b) && (forall|i: int|
            0 <= i < a ==> is_unicode_whitespace(#[trigger] s[i])) && (forall|i: int|
            b <= i < s.len() ==> is_unicode_whitespace(#[trigger] s[i])) && (a < b ==> (
        !is_unicode_whitespace(s[a]) && !is_unicode_whitespace(s[b - 1])));
    if a == b {
        assert forall|i: int| 0 <= i < s.len() implies is_unicode_whitespace(#[trigger] s[i]) by {
            if i < a {
            } else {
            }
        }
    } else {
        assert(!is_unicode_whitespace(s[a]));
    }
    if t == s {
        assert(t.len() == s.len());
        if s.len() > 0 {
            assert(a == 0 && b == s.len());
        }
    } else {
        if a == 0 && b == s.len() {
            assert(t =~= s);
        }
        if a > 0 {
            assert(is_unicode_whitespace(s[0]));
        } else {
            assert(is_unicode_whitespace(s[s.len() - 1]));
        }
    }
}

/// Checks one identity field (see [`field_problem`]).
pub fn check_identity_field(value: &str) -> (res: Option<FieldProblem>)
    ensures
        res == field_problem(value@),
{
    let trimmed = trim(value);
    proof {
        lemma_trim_facts(trimmed@, value@);
    }
    if trimmed.is_empty() {
        return Some(FieldProblem::Empty);
    }
    let length = value.as_bytes().len();
    assert(value.spec_bytes() == encode_utf8(value@));
    assert(length == encode_utf8(value@).len());
    if length > MAX_EVP_PRODUCER_IDENTITY_LENGTH {
        return Some(FieldProblem::TooLong { length });
    }
    if !str_eq(trimmed, value) || !is_valid_header_value(value) {
        return Some(FieldProblem::Invalid);
    }
    None
}

/// Why a producer identity was refused.
#[derive(Debug, PartialEq, Eq, Structural)]
pub enum EvpProducerIdentityError {
    EmptyOrigin,
    EmptyVersion,
    OriginTooLong { length: usize },
    VersionTooLong { length: usize },
    InvalidOrigin,
    InvalidVersion,
}

/// The message of a field that is too long.
pub open spec fn too_long_message(field: Seq<char>, length: usize, maximum: usize) -> Seq<char> {
    "EVP producer "@ + field + " is "@ + decimal_digits(length as nat) + " bytes; maximum is "@
        + decimal_digits(maximum as nat)
}

/// The text of each identity error.
pub open spec fn identity_error_message(e: EvpProducerIdentityError) -> Seq<char> {
    match e {
        EvpProducerIdentityError::EmptyOrigin => "EVP producer origin must not be empty"@,
        EvpProducerIdentityError::EmptyVersion => "EVP producer version must not be empty"@,
        EvpProducerIdentityError::OriginTooLong { length } => too_long_message(
            "origin"@,
            length,
            MAX_EVP_PRODUCER_IDENTITY_LENGTH,
        ),
        EvpProducerIdentityError::VersionTooLong { length } => too_long_message(
            "version"@,
            length,
            MAX_EVP_PRODUCER_IDENTITY_LENGTH,
        ),
        EvpProducerIdentityError::InvalidOrigin => "EVP producer origin is not a valid HTTP header value"@,
        EvpProducerIdentityError::InvalidVersion => "EVP producer version is not a valid HTTP header value"@,
    }
}

/// Builds the message of a field that is too long.
pub fn too_long_text(field: &str, length: usize, maximum: usize) -> (res: String)
    ensures
        res@ == too_long_message(field@, length, maximum),
{
    let mut out = String::new();
    out.append("EVP producer ");
    out.append(field);
    out.append(" is ");
    let n = u64_to_decimal(length as u64);
    out.append(n.as_str());
    out.append(" bytes; maximum is ");
    let m = u64_to_decimal(maximum as u64);
    out.append(m.as_str());
    out
}

impl EvpProducerIdentityError {
    /// The error's text, as a user reads it.
    pub fn message(&self) -> (res: String)
        ensures
            res@ == identity_error_message(*self),
    {
        match self {
            EvpProducerIdentityError::EmptyOrigin => "EVP producer origin must not be empty".to_owned(),
            EvpProducerIdentityError::EmptyVersion => "EVP producer version must not be empty".to_owned(),
            EvpProducerIdentityError::OriginTooLong { length } => too_long_text(
                "origin",
                *length,
                MAX_EVP_PRODUCER_IDENTITY_LENGTH,
            ),
            EvpProducerIdentityError::VersionTooLong { length } => too_long_text(
                "version",
                *length,
                MAX_EVP_PRODUCER_IDENTITY_LENGTH,
            ),
            EvpProducerIdentityError::InvalidOrigin => "EVP producer origin is not a valid HTTP header value".to_owned(),
            EvpProducerIdentityError::InvalidVersion => "EVP producer version is not a valid HTTP header value".to_owned(),
        }
    }
}

/// The error for a field problem, for the origin or for the version.
pub open spec fn identity_error(p: FieldProblem, is_origin: bool) -> EvpProducerIdentityError {
    match p {
        FieldProblem::Empty => if is_origin {
            EvpProducerIdentityError::EmptyOrigin
        } else {
            EvpProducerIdentityError::EmptyVersion
        },
        FieldProblem::TooLong { length } => if is_origin {
            EvpProducerIdentityError::OriginTooLong { length }
        } else {
            EvpProducerIdentityError::VersionTooLong { length }
        },
        FieldProblem::Invalid => if is_origin {
            EvpProducerIdentityError::InvalidOrigin
        } else {
            EvpProducerIdentityError::InvalidVersion
        },
    }
}

/// The outcome of building an identity from `origin` and `version`: the
/// origin is checked first.
pub open spec fn identity_check(origin: Seq<char>, version: Seq<char>) -> Result<
    (Seq<char>, Seq<char>),
    EvpProducerIdentityError,
> {
    match field_problem(origin) {
        Some(p) => Err(identity_error(p, true)),
        None => match field_problem(version) {
            Some(p) => Err(identity_error(p, false)),
            None => Ok((origin, version)),
        },
    }
}

fn to_identity_error(p: FieldProblem, is_origin: bool) -> (res: EvpProducerIdentityError)
    ensures
        res == identity_error(p, is_origin),
{
    match p {
        FieldProblem::Empty => if is_origin {
            EvpProducerIdentityError::EmptyOrigin
        } else {
            EvpProducerIdentityError::EmptyVersion
        },
        FieldProblem::TooLong { length } => if is_origin {
            EvpProducerIdentityError::OriginTooLong { length }
        } else {
            EvpProducerIdentityError::VersionTooLong { length }
        },
        FieldProblem::Invalid => if is_origin {
            EvpProducerIdentityError::InvalidOrigin
        } else {
            EvpProducerIdentityError::InvalidVersion
        },
    }
}

/// Logical SDK identity attached to EVP requests: which tracer produced the
/// events, not which helper process sent them.
#[derive(Debug)]
pub struct EvpProducerIdentity {
    origin: String,
    version: String,
}

impl View for EvpProducerIdentity {
    type V = (Seq<char>, Seq<char>);

    closed spec fn view(&self) -> (Seq<char>, Seq<char>) {
        (self.origin@, self.version@)
    }
}

impl EvpProducerIdentity {
    /// Builds an identity; both fields must be non-empty after trimming, at
    /// most 256 bytes, free of surrounding white space and valid HTTP header
    /// values.
    pub fn new(origin: &str, version: &str) -> (res: Result<Self, EvpProducerIdentityError>)
        ensures
            match res {
                Ok(id) => identity_check(origin@, version@) == Ok::<_, EvpProducerIdentityError>(id@),
                Err(e) => identity_check(origin@, version@) == Err::<(Seq<char>, Seq<char>), _>(e),
            },
    {
        if let Some(p) = check_identity_field(origin) {
            return Err(to_identity_error(p, true));
        }
        if let Some(p) = check_identity_field(version) {
            return Err(to_identity_error(p, false));
        }
        Ok(EvpProducerIdentity { origin: origin.to_owned(), version: version.to_owned() })
    }

    /// The producer's origin (SDK name).
    pub fn origin(&self) -> (res: &str)
        ensures
            res@ == self@.0,
    {
        self.origin.as_str()
    }

    /// The producer's version.
    pub fn version(&self) -> (res: &str)
        ensures
            res@ == self@.1,
    {
        self.version.as_str()
    }

    /// The identity of the sidecar itself, used by consumers that predate
    /// producer identities.
    pub fn legacy_sidecar() -> (res: Self)
        ensures
            res@ == ("ddtrace-sidecar"@, SIDECAR_VERSION@),
    {
        EvpProducerIdentity { origin: "ddtrace-sidecar".to_owned(), version: SIDECAR_VERSION.to_owned() }
    }

    /// A copy of this identity.
    pub fn duplicate(&self) -> (res: Self)
        ensures
            res@ == self@,
    {
        EvpProducerIdentity { origin: self.origin.clone(), version: self.version.clone() }
    }

    /// Whether two identities are equal.
    pub fn same_as(&self, other: &Self) -> (res: bool)
        ensures
            res == (self@ == other@),
    {
        str_eq(self.origin.as_str(), other.origin.as_str()) && str_eq(
            self.version.as_str(),
            other.version.as_str(),
        )
    }
}

/// A field of visible ASCII characters (no space) that fits the limit has
/// no problem.
pub proof fn lemma_visible_ascii_field_ok(s: Seq<char>)
    requires
        0 < s.len() <= MAX_EVP_PRODUCER_IDENTITY_LENGTH,
        forall|i: int| 0 <= i < s.len() ==> '!' <= #[trigger] s[i] && s[i] <= '~',
    ensures
        field_problem(s) is None,
{
    assert(is_ascii_chars(s));
    is_ascii_chars_encode_utf8(s);
    let enc = encode_utf8(s);
    assert(!is_unicode_whitespace(s[0]));
    assert(!is_unicode_whitespace(s[s.len() - 1]));
    assert forall|i: int| 0 <= i < enc.len() implies is_header_value_byte(#[trigger] enc[i]) by {
        assert(s[i] as u8 == enc[i]);
    }
}

/// The identity used for consumers that predate producer identities,
/// `ddtrace-sidecar` at the sidecar's version, is a valid identity.
pub proof fn lemma_legacy_identity_is_valid()
    ensures
        identity_check("ddtrace-sidecar"@, SIDECAR_VERSION@) == Ok::<
            (Seq<char>, Seq<char>),
            EvpProducerIdentityError,
        >(("ddtrace-sidecar"@, SIDECAR_VERSION@)),
{
    reveal_strlit("ddtrace-sidecar");
    reveal_strlit("0.1.0");
    let o = "ddtrace-sidecar"@;
    let v = SIDECAR_VERSION@;
    assert(o.len() == 15);
    assert(v.len() == 5);
    assert forall|i: int| 0 <= i < o.len() implies '!' <= #[trigger] o[i] && o[i] <= '~' by {}
    assert forall|i: int| 0 <= i < v.len() implies '!' <= #[trigger] v[i] && v[i] <= '~' by {}
    lemma_visible_ascii_field_ok(o);
    lemma_visible_ascii_field_ok(v);
}

} // verus!
