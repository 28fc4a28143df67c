//! Bearer-token authorisation of the requests that change what is stored.
use vstd::prelude::*;
use vstd::string::StringSliceAdditionalSpecFns;

verus! {

/// The bytes of `Bearer ` (with its trailing space), which must open the
/// `Authorization` header.
pub open spec fn bearer_prefix() -> Seq<u8> {
    seq![66u8, 101u8, 97u8, 114u8, 101u8, 114u8, 32u8]
}

/// A request may change what is stored when no token is configured, or when its
/// `Authorization` header is `Bearer ` followed by exactly the configured token.
pub open spec fn authorized(token: Option<Seq<u8>>, authorization: Option<Seq<u8>>) -> bool {
    match token {
        None => true,
        Some(t) => authorization == Some(bearer_prefix() + t),
    }
}

/// Without a token everyone is authorised; with one, exactly the header made of
/// the bytes of `Bearer ` followed by the token is.
pub proof fn law_bearer_token(token: Option<Seq<u8>>, authorization: Option<Seq<u8>>)
    ensures
        token is None ==> authorized(token, authorization),
        token matches Some(t) ==> (authorized(token, authorization) <==> authorization == Some(
            seq![66u8, 101u8, 97u8, 114u8, 101u8, 114u8, 32u8] + t,
        )),
{
}

/// Checks the `Authorization` header (when it is present and readable as text)
/// against the configured token.
pub fn is_authorized(token: Option<&str>, authorization: Option<&str>) -> (ok: bool)
    ensures
        ok == authorized(
            match token { Some(t) => Some(t.spec_bytes()), None => None },
            match authorization { Some(h) => Some(h.spec_bytes()), None => None },
        ),
{
    let tok = match token {
        None => return true,
        Some(tok) => tok,
    };
    let hdr = match authorization {
        None => return false,
        Some(hdr) => hdr,
    };
    let t = tok.as_bytes();
    let h = hdr.as_bytes();
    let prefix: [u8; 7] = [66u8, 101u8, 97u8, 114u8, 101u8, 114u8, 32u8];
    let ghost expected = bearer_prefix() + t@;
    assert(prefix@ =~= bearer_prefix());
    if h.len() < 7 || h.len() - 7 != t.len() {
        proof {
            assert(expected.len() == t@.len() + 7);
        }
        return false;
    }
    let mut i: usize = 0;
    while i < h.len()
        invariant
            h@.len() == expected.len(),
            token == Some(tok),
            authorization == Some(hdr),
            t@ == tok.spec_bytes(),
            h@ == hdr.spec_bytes(),
            expected == bearer_prefix() + t@,
            prefix@ == bearer_prefix(),
            i <= h@.len(),
            forall|j: int| 0 <= j < i ==> h@[j] == expected[j],
        decreases h@.len() - i,
    {
        let want = if i < 7 { prefix[i] } else { t[i - 7] };
        assert(want == expected[i as int]);
        if h[i] != want {
            assert(h@[i as int] != expected[i as int]);
            assert(h@ != expected);
            return false;
        }
        i = i + 1;
    }
    assert(h@ =~= expected);
    true
}

} // verus!
