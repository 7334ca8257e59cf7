//! Decoding of the scene name from a fixed-size byte buffer.
use vstd::prelude::*;
use vstd::utf8::{decode_utf8, valid_utf8};
use std::string::FromUtf8Error;

verus! {

#[verifier::external_type_specification]
#[verifier::external_body]
pub struct ExFromUtf8Error(FromUtf8Error);

/// The number of bytes read for a scene name; longer names are cut short.
pub const SCENE_BUFFER_LEN: usize = 255;

/// The text put in place of a scene name that is not valid UTF-8.
pub const INVALID_SCENE: &'static str = "null";

/// The position of the first zero byte, or the length if there is none.
pub open spec fn nul_position(b: Seq<u8>) -> int
    decreases b.len(),
{
    if b.len() == 0 {
        0
    } else if b[0] == 0 {
        0
    } else {
        1 + nul_position(b.drop_first())
    }
}

/// The bytes before the first zero byte.
pub open spec fn before_nul(b: Seq<u8>) -> Seq<u8> {
    b.take(nul_position(b))
}

/// The scene name that a buffer holds: its bytes before the first zero,
/// decoded, or the placeholder where they are not valid UTF-8.
pub open spec fn scene_text(b: Seq<u8>) -> Seq<char> {
    let t = before_nul(b);
    if valid_utf8(t) {
        decode_utf8(t)
    } else {
        INVALID_SCENE@
    }
}

proof fn lemma_nul_position(b: Seq<u8>)
    ensures
        0 <= nul_position(b) <= b.len(),
        forall|i: int| 0 <= i < nul_position(b) ==> b[i] != 0,
        nul_position(b) < b.len() ==> b[nul_position(b)] == 0,
    decreases b.len(),
{
    if b.len() > 0 && b[0] != 0 {
        let rest = b.drop_first();
        lemma_nul_position(rest);
        assert forall|i: int| 0 <= i < nul_position(b) implies b[i] != 0 by {
            if i > 0 {
                assert(b[i] == rest[i - 1]);
            }
        }
    }
}

proof fn lemma_nul_position_unique(b: Seq<u8>, n: int)
    requires
        0 <= n <= b.len(),
        forall|i: int| 0 <= i < n ==> b[i] != 0,
        n < b.len() ==> b[n] == 0,
    ensures
        nul_position(b) == n,
    decreases b.len(),
{
    if b.len() > 0 && b[0] != 0 {
        lemma_nul_position_unique(b.drop_first(), n - 1);
    }
}

/// Relies on `String::from_utf8`: `Ok` with the decoded text exactly when
/// the bytes are valid UTF-8.
#[verifier::external_body]
fn string_from_utf8(bytes: Vec<u8>) -> (r: Result<String, FromUtf8Error>)
    ensures
        r is Ok <==> valid_utf8(bytes@),
        r is Ok ==> r->Ok_0@ == decode_utf8(bytes@),
{
    String::from_utf8(bytes)
}

/// Decodes the bytes before the first zero byte (all of them if there is
/// none) as UTF-8.
pub fn bytes_to_string(utf8_src: &[u8]) -> (r: Result<String, FromUtf8Error>)
    ensures
        r is Ok <==> valid_utf8(before_nul(utf8_src@)),
        r is Ok ==> r->Ok_0@ == decode_utf8(before_nul(utf8_src@)),
{
    let mut prefix: Vec<u8> = Vec::new();
    let mut i: usize = 0;
    while i < utf8_src.len() && utf8_src[i] != 0
        invariant
            i <= utf8_src@.len(),
            prefix@ == utf8_src@.take(i as int),
            forall|j: int| 0 <= j < i ==> utf8_src@[j] != 0,
        decreases utf8_src@.len() - i,
    {
        prefix.push(utf8_src[i]);
        i = i + 1;
        assert(prefix@ =~= utf8_src@.take(i as int));
    }
    proof {
        lemma_nul_position_unique(utf8_src@, i as int);
    }
    string_from_utf8(prefix)
}

/// The scene name that a buffer holds, with the placeholder in place of
/// text that is not valid UTF-8.
pub fn extract_scene(buf: &[u8]) -> (r: String)
    ensures
        r@ == scene_text(buf@),
{
    match bytes_to_string(buf) {
        Ok(s) => s,
        Err(_) => INVALID_SCENE.to_owned(),
    }
}

/// Extracting from a buffer already cut at its first zero byte gives the
/// same text as extracting from the whole buffer.
pub proof fn lemma_extract_idempotent(buf: Seq<u8>)
    ensures
        before_nul(before_nul(buf)) == before_nul(buf),
        scene_text(before_nul(buf)) == scene_text(buf),
{
    lemma_nul_position(buf);
    let t = before_nul(buf);
    lemma_nul_position_unique(t, t.len() as int);
    assert(t.take(t.len() as int) =~= t);
}

} // verus!
