//! The credential-extraction stage: strict, case-sensitive parsing of the
//! `authorization` header value as `Bearer <token>`.

use vstd::prelude::*;

use crate::errors::Error;

verus! {

/// The bytes of the literal scheme `Bearer`, as ASCII values.
pub open spec fn scheme_bytes() -> Seq<u8> {
    seq![66u8, 101u8, 97u8, 114u8, 101u8, 114u8]
}

/// A header value is acceptable exactly when it starts with the literal
/// ASCII sequence `Bearer`, the byte right after that prefix is a single
/// ASCII space, and at least one byte follows the space.
pub open spec fn bearer_form(h: Seq<u8>) -> bool {
    &&& h.len() > 7
    &&& h.subrange(0, 6) == scheme_bytes()
    &&& h[6] == 32
}

/// The raw token of an acceptable header value: everything after the space.
pub open spec fn bearer_token_bytes(h: Seq<u8>) -> Seq<u8> {
    h.subrange(7, h.len() as int)
}

/// Whether an `authorization` header, possibly absent, carries a credential
/// the pipeline will hand to the verification stage.
pub open spec fn header_accepted(h: Option<Seq<u8>>) -> bool {
    match h {
        Some(v) => bearer_form(v),
        None => false,
    }
}

/// What the token bytes decode to as UTF-8 with every invalid sequence
/// replaced by the replacement character.
pub uninterp spec fn lossy_utf8(b: Seq<u8>) -> Seq<char>;

/// Relies on String::from_utf8_lossy: decodes the bytes as UTF-8, replacing
/// invalid sequences with U+FFFD; the result depends on the bytes alone.
#[verifier::external_body]
fn utf8_lossy(b: &Vec<u8>) -> (s: String)
    ensures
        s@ == lossy_utf8(b@),
{
    String::from_utf8_lossy(b.as_slice()).into_owned()
}

/// Parses a present header value, returning the raw token bytes exactly when
/// the value has the `Bearer <token>` form.
pub fn parse_bearer_value(header: &Vec<u8>) -> (r: Option<Vec<u8>>)
    ensures
        bearer_form(header@) ==> (r matches Some(t) && t@ == bearer_token_bytes(header@)),
        !bearer_form(header@) ==> r is None,
{
    if header.len() <= 7 {
        return None;
    }
    if header[0] != 66 || header[1] != 101 || header[2] != 97 || header[3] != 114
        || header[4] != 101 || header[5] != 114 || header[6] != 32 {
        proof {
            if bearer_form(header@) {
                assert(header@.subrange(0, 6)[0] == header@[0]);
                assert(header@.subrange(0, 6)[1] == header@[1]);
                assert(header@.subrange(0, 6)[2] == header@[2]);
                assert(header@.subrange(0, 6)[3] == header@[3]);
                assert(header@.subrange(0, 6)[4] == header@[4]);
                assert(header@.subrange(0, 6)[5] == header@[5]);
            }
        }
        return None;
    }
    proof {
        assert(header@.subrange(0, 6) =~= scheme_bytes());
    }
    let mut token: Vec<u8> = Vec::new();
    let mut i: usize = 7;
    while i < header.len()
        invariant
            7 <= i <= header@.len(),
            token@ == header@.subrange(7, i as int),
        decreases header@.len() - i,
    {
        token.push(header[i]);
        proof {
            assert(token@ =~= header@.subrange(7, i + 1 as int));
        }
        i = i + 1;
    }
    proof {
        assert(token@ =~= bearer_token_bytes(header@));
    }
    Some(token)
}

/// The whole extraction stage: locate the header, enforce the scheme, and
/// decode the token bytes to a string, lossily. Fails with `MissingToken`
/// exactly when the header is absent or not of the `Bearer <token>` form.
pub fn extract_token(header: Option<&Vec<u8>>) -> (r: Result<String, Error>)
    ensures
        match header {
            Some(h) => if bearer_form(h@) {
                r matches Ok(t) && t@ == lossy_utf8(bearer_token_bytes(h@))
            } else {
                r matches Err(e) && e is MissingToken
            },
            None => r matches Err(e) && e is MissingToken,
        },
{
    match header {
        Some(h) => match parse_bearer_value(h) {
            Some(token) => Ok(utf8_lossy(&token)),
            None => Err(Error::MissingToken),
        },
        None => Err(Error::MissingToken),
    }
}

} // verus!
