//! Verification of the shared secret that authenticates inbound requests.
//!
//! A request may carry the secret in a header. The header is first checked for
//! shape: a malformed value is rejected on its own, whatever secret is
//! configured. A well-formed value is then compared with the configured secret
//! byte by byte, looking at every position so that the time taken does not
//! depend on where the first difference lies.

use vstd::prelude::*;

verus! {

/// Longest secret, in bytes, that a request header may carry.
pub const MAX_SECRET_LEN: usize = 256;

/// Whether `b` is one of `A-Z`, `a-z`, `0-9`, `_` or `-`.
pub open spec fn allowed_byte(b: u8) -> bool {
    ||| 0x41 <= b <= 0x5a
    ||| 0x61 <= b <= 0x7a
    ||| 0x30 <= b <= 0x39
    ||| b == 0x5f
    ||| b == 0x2d
}

/// Whether `bytes` has the shape of a secret: at most [`MAX_SECRET_LEN`] bytes,
/// each of them allowed.
pub open spec fn well_formed(bytes: Seq<u8>) -> bool {
    &&& bytes.len() <= MAX_SECRET_LEN
    &&& forall|i: int| 0 <= i < bytes.len() ==> allowed_byte(#[trigger] bytes[i])
}

/// Why a header value does not have the shape of a secret.
#[derive(Clone, Copy, Debug, PartialEq, Eq, Structural)]
pub enum SecretError {
    /// The value is longer than [`MAX_SECRET_LEN`] bytes.
    TooLong,
    /// The value is short enough but holds a byte outside `A-Z`, `a-z`, `0-9`, `_`, `-`.
    ForbiddenByte,
}

impl SecretError {
    /// A sentence that says what is wrong with the value.
    pub fn message(&self) -> (s: &'static str)
        ensures
            s@ == match *self {
                SecretError::TooLong => "secret token must not be longer than 256 bytes"@,
                SecretError::ForbiddenByte => "secret token must only contain `a-z`, `A-Z`, `0-9`, `_` and `-` characters"@,
            },
    {
        match self {
            SecretError::TooLong => "secret token must not be longer than 256 bytes",
            SecretError::ForbiddenByte => "secret token must only contain `a-z`, `A-Z`, `0-9`, `_` and `-` characters",
        }
    }
}

/// The decision taken on a request's secret.
#[derive(Clone, Copy, Debug, PartialEq, Eq, Structural)]
pub enum Verdict {
    /// The request carries what is configured: the same secret, or none where none is set.
    Accepted,
    /// The header is well-formed (or absent) but is not what is configured.
    Mismatch,
    /// The header does not have the shape of a secret.
    Malformed,
}

/// The decision that a header and a configured secret call for.
///
/// A malformed header is malformed whatever the secret; otherwise the request
/// is accepted exactly when header and secret are both absent or both present
/// and equal byte for byte.
pub open spec fn verdict(header: Option<Seq<u8>>, secret: Option<Seq<u8>>) -> Verdict {
    if header is Some && !well_formed(header->0) {
        Verdict::Malformed
    } else if header == secret {
        Verdict::Accepted
    } else {
        Verdict::Mismatch
    }
}

/// The bytes behind an optional slice.
pub open spec fn bytes_of(value: Option<&[u8]>) -> Option<Seq<u8>> {
    match value {
        Some(bytes) => Some(bytes@),
        None => None,
    }
}

/// Executable form of [`allowed_byte`].
pub fn is_allowed_byte(b: u8) -> (r: bool)
    ensures
        r == allowed_byte(b),
{
    (0x41 <= b && b <= 0x5a) || (0x61 <= b && b <= 0x7a) || (0x30 <= b && b <= 0x39) || b == 0x5f
        || b == 0x2d
}

/// Checks that `bytes` has the shape of a secret and hands the same bytes back.
///
/// The length is looked at first: a value that is too long is reported as such
/// even if it also holds a forbidden byte.
pub fn check_secret(bytes: &[u8]) -> (r: Result<&[u8], SecretError>)
    ensures
        well_formed(bytes@) <==> r is Ok,
        r matches Ok(same) ==> same@ == bytes@,
        r == Err::<&[u8], SecretError>(SecretError::TooLong) <==> bytes@.len() > MAX_SECRET_LEN,
        r == Err::<&[u8], SecretError>(SecretError::ForbiddenByte) <==> (bytes@.len()
            <= MAX_SECRET_LEN && exists|i: int| 0 <= i < bytes@.len() && !allowed_byte(bytes@[i])),
{
    if bytes.len() > MAX_SECRET_LEN {
        return Err(SecretError::TooLong);
    }
    let mut all_allowed = true;
    let mut i: usize = 0;
    while i < bytes.len()
        invariant
            i <= bytes.len(),
            all_allowed <==> forall|j: int| 0 <= j < i ==> allowed_byte(#[trigger] bytes@[j]),
        decreases bytes.len() - i,
    {
        if !is_allowed_byte(bytes[i]) {
            all_allowed = false;
        }
        i += 1;
    }
    if all_allowed {
        Ok(bytes)
    } else {
        Err(SecretError::ForbiddenByte)
    }
}

/// Folding one more pair of bytes into the running difference keeps it zero
/// exactly when it was zero and the two bytes are equal.
proof fn lemma_fold_difference(diff: u8, x: u8, y: u8)
    ensures
        (diff | (x ^ y)) == 0 <==> (diff == 0 && x == y),
{
    assert((diff | (x ^ y)) == 0 <==> (diff == 0 && x == y)) by (bit_vector);
}

/// Whether `a` and `b` hold the same bytes.
///
/// Every position that both inputs have is examined, whether or not an earlier
/// one already differed, and a difference in length is folded into the same
/// accumulator: nothing here branches on the bytes compared.
pub fn constant_time_eq(a: &[u8], b: &[u8]) -> (r: bool)
    ensures
        r == (a@ == b@),
{
    let common = if a.len() < b.len() {
        a.len()
    } else {
        b.len()
    };
    let mut diff: u8 = if a.len() == b.len() {
        0
    } else {
        1
    };
    let mut i: usize = 0;
    while i < common
        invariant
            i <= common,
            common <= a.len(),
            common <= b.len(),
            diff == 0 <==> (a.len() == b.len() && forall|j: int|
                0 <= j < i ==> a@[j] == b@[j]),
        decreases common - i,
    {
        proof {
            lemma_fold_difference(diff, a@[i as int], b@[i as int]);
        }
        diff = diff | (a[i] ^ b[i]);
        i += 1;
    }
    proof {
        if diff == 0 {
            assert(a@ =~= b@);
        }
    }
    diff == 0
}

/// Whether header and secret are both absent, or both present and equal byte
/// for byte. Present values are compared in full: see [`constant_time_eq`].
pub fn matches_secret(header: Option<&[u8]>, secret: Option<&[u8]>) -> (r: bool)
    ensures
        r == (bytes_of(header) == bytes_of(secret)),
{
    match header {
        Some(sent) => match secret {
            Some(expected) => constant_time_eq(sent, expected),
            None => false,
        },
        None => secret.is_none(),
    }
}

/// Decides on a request's secret: see [`verdict`].
///
/// A malformed header never reaches the comparison.
pub fn verify_secret(header: Option<&[u8]>, secret: Option<&[u8]>) -> (v: Verdict)
    ensures
        v == verdict(bytes_of(header), bytes_of(secret)),
{
    if let Some(sent) = header {
        if check_secret(sent).is_err() {
            return Verdict::Malformed;
        }
    }
    if matches_secret(header, secret) {
        Verdict::Accepted
    } else {
        Verdict::Mismatch
    }
}

} // verus!
