//! Bearer-token authentication for the protected routes
//! (`POST /upload` and `DELETE /{bucket}/{image_id}`).

use vstd::prelude::*;
use vstd::string::*;

use crate::error::AppError;
use crate::text::strip_prefix;

verus! {

/// The header value that grants access with the configured `token`.
pub open spec fn bearer_header(token: Seq<char>) -> Seq<char> {
    "Bearer "@ + token
}

/// Compares two byte slices for equality in constant time (independent of
/// where the first differing byte is), to avoid leaking information about
/// the configured API token via response-time side channels.
pub fn constant_time_eq(a: &[u8], b: &[u8]) -> (res: bool)
    ensures
        res == (a@ == b@),
{
    if a.len() != b.len() {
        return false;
    }
    let mut diff: u8 = 0;
    let mut i: usize = 0;
    while i < a.len()
        invariant
            i <= a@.len(),
            a@.len() == b@.len(),
            diff == 0 <==> forall|j: int| 0 <= j < i ==> a@[j] == b@[j],
        decreases a@.len() - i,
    {
        let x = a[i];
        let y = b[i];
        assert((diff | (x ^ y)) == 0 <==> (diff == 0 && x == y)) by (bit_vector);
        diff = diff | (x ^ y);
        i += 1;
    }
    if diff == 0 {
        assert(a@ =~= b@);
        true
    } else {
        false
    }
}

/// Equal strings are exactly those with equal UTF-8 bytes.
proof fn lemma_bytes_eq(a: &str, b: &str)
    ensures
        (a.spec_bytes() == b.spec_bytes()) == (a@ == b@),
{
    vstd::utf8::encode_utf8_decode_utf8(a@);
    vstd::utf8::encode_utf8_decode_utf8(b@);
}

/// Decides access to a protected route from the request's `Authorization`
/// header (`None` when it is absent or not visible ASCII) and the
/// configured API token: access is granted exactly when the header is
/// `Bearer ` followed by the token. The token is compared in constant
/// time.
pub fn authorize(header: Option<&str>, api_token: &str) -> (res: Result<(), AppError>)
    ensures
        res is Ok <==> (header matches Some(h) && h@ == bearer_header(api_token@)),
        res matches Err(e) ==> e == AppError::Unauthorized,
{
    match header {
        None => Err(AppError::Unauthorized),
        Some(h) => match strip_prefix(h, "Bearer ") {
            None => {
                proof {
                    let t = "Bearer "@;
                    if h@ == bearer_header(api_token@) {
                        assert(h@.subrange(0, t.len() as int) =~= t);
                    }
                }
                Err(AppError::Unauthorized)
            },
            Some(token) => {
                proof {
                    lemma_bytes_eq(token, api_token);
                    let t = "Bearer "@;
                    if h@ == bearer_header(api_token@) {
                        assert(token@ =~= h@.subrange(t.len() as int, h@.len() as int));
                        assert(api_token@ =~= h@.subrange(t.len() as int, h@.len() as int));
                    }
                }
                if constant_time_eq(token.as_bytes(), api_token.as_bytes()) {
                    Ok(())
                } else {
                    Err(AppError::Unauthorized)
                }
            },
        },
    }
}

} // verus!
