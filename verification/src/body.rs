//! Interpretation of the response bodies.
//!
//! Both endpoints answer with a text body that must read as a boolean
//! literal: exactly the ASCII bytes `true` or `false`.  The wake
//! signal is set when the polled body is `true`.  Any other body — a
//! different spelling or case, extra bytes, an empty body, or bytes
//! that are not valid text — parses as no boolean at all, and a parse
//! failure aborts the patrol like any other failure.  (Reading the
//! body leniently as text and then parsing a boolean literal accepts
//! exactly these two byte strings, because every byte of both is
//! ASCII.)

use vstd::prelude::*;

verus! {

/// The four ASCII bytes of the boolean literal `true`.
pub open spec fn spec_true_literal() -> Seq<u8> {
    seq![116u8, 114u8, 117u8, 101u8]
}

/// The five ASCII bytes of the boolean literal `false`.
pub open spec fn spec_false_literal() -> Seq<u8> {
    seq![102u8, 97u8, 108u8, 115u8, 101u8]
}

/// The boolean a response body reads as, or nothing when it is
/// neither literal.
pub open spec fn spec_parse_signal(body: Seq<u8>) -> Option<bool> {
    if body == spec_true_literal() {
        Some(true)
    } else if body == spec_false_literal() {
        Some(false)
    } else {
        None
    }
}

/// Whether a response body sets the wake signal: only the literal
/// `true` does.
pub open spec fn spec_wake_requested(body: Seq<u8>) -> bool {
    spec_parse_signal(body) == Some(true)
}

/// Reads a response body as a boolean literal: `true` and `false` are
/// the only bodies accepted, and every other body is a parse failure.
pub fn parse_signal(body: &[u8]) -> (r: Option<bool>)
    ensures
        r == spec_parse_signal(body@),
{
    if body.len() == 4 && body[0] == 116 && body[1] == 114 && body[2] == 117 && body[3] == 101 {
        proof {
            assert(body@ =~= spec_true_literal());
        }
        Some(true)
    } else if body.len() == 5 && body[0] == 102 && body[1] == 97 && body[2] == 108
        && body[3] == 115 && body[4] == 101 {
        proof {
            assert(body@ =~= spec_false_literal());
        }
        Some(false)
    } else {
        None
    }
}

/// Decides whether the fetched body sets the wake signal: true exactly
/// when the body is the byte string `true`.
pub fn wake_requested(body: &[u8]) -> (r: bool)
    ensures
        r == spec_wake_requested(body@),
{
    match parse_signal(body) {
        Some(true) => true,
        _ => false,
    }
}

/// How far the body grows when a chunk arrives: the whole chunk while
/// it fits, its head up to the cap otherwise, and nothing once the
/// body has reached the cap.
pub open spec fn spec_capped_extension(body: Seq<u8>, chunk: Seq<u8>, cap: int) -> Seq<u8> {
    if body.len() >= cap {
        body
    } else if body.len() + chunk.len() <= cap {
        body + chunk
    } else {
        body + chunk.take(cap - body.len())
    }
}

/// Appends a chunk of the response to the body being collected, never
/// letting the body grow past `cap` bytes.
pub fn append_capped(body: &mut Vec<u8>, chunk: &[u8], cap: usize)
    ensures
        final(body)@ == spec_capped_extension(old(body)@, chunk@, cap as int),
{
    let mut i: usize = 0;
    while i < chunk.len() && body.len() < cap
        invariant
            i <= chunk@.len(),
            body@.len() == old(body)@.len() + i,
            body@ == old(body)@ + chunk@.take(i as int),
            body@.len() <= cap || i == 0,
        decreases chunk@.len() - i,
    {
        let b = chunk[i];
        body.push(b);
        i = i + 1;
        proof {
            assert(body@ =~= old(body)@ + chunk@.take(i as int));
        }
    }
    proof {
        assert(body@ =~= spec_capped_extension(old(body)@, chunk@, cap as int));
    }
}

} // verus!
