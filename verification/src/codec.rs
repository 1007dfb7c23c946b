//! Wire framing for the stream transport.
//!
//! Inbound bytes arrive in arbitrary chunks; a frame is the text before a
//! single line-feed delimiter.  `decode` consumes at most one full frame per
//! call and leaves everything after the delimiter buffered, so that several
//! frames arriving in one read are handed out one at a time, in order.
//! `encode` is symmetric: it appends the payload and the delimiter.

use vstd::prelude::*;

verus! {

/// The frame delimiter of the stream transport: one ASCII line feed.
pub const DELIMITER: u8 = 10;

/// Index of the first delimiter byte in `s`, or `s.len()` when none occurs.
pub open spec fn first_delimiter(s: Seq<u8>) -> int
    decreases s.len(),
{
    if s.len() == 0 {
        0
    } else if s[0] == DELIMITER {
        0
    } else {
        1 + first_delimiter(s.skip(1))
    }
}

/// Whether some byte of `s` is the frame delimiter.
pub open spec fn contains_delimiter(s: Seq<u8>) -> bool {
    exists|i: int| 0 <= i < s.len() && s[i] == DELIMITER
}

/// `first_delimiter` names the least index holding the delimiter, and runs off
/// the end exactly when no delimiter occurs.
pub proof fn lemma_first_delimiter(s: Seq<u8>)
    ensures
        0 <= first_delimiter(s) <= s.len(),
        first_delimiter(s) < s.len() ==> s[first_delimiter(s)] == DELIMITER,
        forall|k: int| 0 <= k < first_delimiter(s) ==> s[k] != DELIMITER,
        contains_delimiter(s) <==> first_delimiter(s) < s.len(),
    decreases s.len(),
{
    if s.len() == 0 {
    } else if s[0] == DELIMITER {
    } else {
        let t = s.skip(1);
        lemma_first_delimiter(t);
        assert forall|k: int| 0 <= k < first_delimiter(s) implies s[k] != DELIMITER by {
            if k > 0 {
                assert(t[k - 1] == s[k]);
            }
        }
        if contains_delimiter(s) {
            let i = choose|i: int| 0 <= i < s.len() && s[i] == DELIMITER;
            assert(t[i - 1] == DELIMITER);
            assert(contains_delimiter(t));
        }
        if contains_delimiter(t) {
            let j = choose|j: int| 0 <= j < t.len() && t[j] == DELIMITER;
            assert(s[j + 1] == DELIMITER);
            assert(contains_delimiter(s));
        }
    }
}

/// Law of framing: a buffer that starts with one delimited frame decodes to
/// exactly that frame, and everything after the delimiter stays buffered.
/// Applied twice, it says that two frames arriving in one write are handed
/// out one at a time, in order.
pub proof fn lemma_frame_round_trip(payload: Seq<u8>, rest: Seq<u8>)
    requires
        !contains_delimiter(payload),
    ensures
        ({
            let s = payload + seq![DELIMITER] + rest;
            &&& contains_delimiter(s)
            &&& first_delimiter(s) == payload.len()
            &&& s.subrange(0, payload.len() as int) == payload
            &&& s.skip(payload.len() as int + 1) == rest
        }),
{
    let s = payload + seq![DELIMITER] + rest;
    assert(s[payload.len() as int] == DELIMITER);
    assert(contains_delimiter(s));
    lemma_first_delimiter(s);
    let f = first_delimiter(s);
    if f < payload.len() {
        assert(s[f] == payload[f]);
        assert(payload[f] == DELIMITER);
        assert(false);
    }
    assert(f == payload.len());
    assert(s.subrange(0, payload.len() as int) =~= payload);
    assert(s.skip(payload.len() as int + 1) =~= rest);
}

/// Turns a byte stream into discrete frames and frames outbound payloads.
pub struct FrameCodec {}

impl FrameCodec {
    /// One framing step: when a full frame is buffered, consume it together
    /// with its delimiter and return the bytes before the delimiter; when no
    /// delimiter is buffered yet, consume nothing and report that more data
    /// is needed.
    pub fn decode(&mut self, src: &mut Vec<u8>) -> (r: Option<Vec<u8>>)
        ensures
            contains_delimiter(old(src)@) ==> {
                let i = first_delimiter(old(src)@);
                &&& r matches Some(line) && line@ == old(src)@.subrange(0, i)
                    && !contains_delimiter(line@)
                &&& final(src)@ == old(src)@.skip(i + 1)
            },
            !contains_delimiter(old(src)@) ==> r is None && final(src)@ == old(src)@,
    {
        proof {
            lemma_first_delimiter(src@);
        }
        let n = src.len();
        let mut i: usize = 0;
        while i < n && src[i] != DELIMITER
            invariant
                i <= n,
                n == src@.len(),
                forall|k: int| 0 <= k < i ==> src@[k] != DELIMITER,
            decreases n - i,
        {
            i = i + 1;
        }
        if i == n {
            return None;
        }
        assert(first_delimiter(src@) == i);
        let mut line: Vec<u8> = Vec::new();
        let mut j: usize = 0;
        while j < i
            invariant
                j <= i,
                i < src@.len(),
                line@ == src@.subrange(0, j as int),
            decreases i - j,
        {
            line.push(src[j]);
            j = j + 1;
            assert(line@ =~= src@.subrange(0, j as int));
        }
        let mut rest: Vec<u8> = Vec::new();
        let mut k: usize = i + 1;
        while k < n
            invariant
                i + 1 <= k <= n,
                n == src@.len(),
                rest@ == src@.subrange(i + 1, k as int),
            decreases n - k,
        {
            rest.push(src[k]);
            k = k + 1;
            assert(rest@ =~= src@.subrange(i + 1, k as int));
        }
        assert(rest@ =~= src@.skip(i + 1));
        *src = rest;
        Some(line)
    }

    /// Frames one outbound payload: appends it to `dst`, followed by the
    /// delimiter the decoder looks for.
    pub fn encode(&mut self, item: &Vec<u8>, dst: &mut Vec<u8>)
        ensures
            final(dst)@ == old(dst)@ + item@ + seq![DELIMITER],
    {
        let n = item.len();
        let mut j: usize = 0;
        while j < n
            invariant
                j <= n,
                n == item@.len(),
                dst@ == old(dst)@ + item@.subrange(0, j as int),
            decreases n - j,
        {
            dst.push(item[j]);
            j = j + 1;
            assert(dst@ =~= old(dst)@ + item@.subrange(0, j as int));
        }
        dst.push(DELIMITER);
        assert(dst@ =~= old(dst)@ + item@ + seq![DELIMITER]);
    }
}

} // verus!
