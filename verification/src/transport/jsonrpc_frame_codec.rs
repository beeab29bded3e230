//! Splits a byte stream into lines, one message each.

use crate::game_design::lookup::{
    first_index, lemma_first_index_absent, lemma_first_index_found, lemma_first_index_is_first,
};
use vstd::prelude::*;

verus! {

/// The byte that ends a frame.
pub const NEWLINE: u8 = 10;

/// The frame at the head of a buffer and what is left behind it: the bytes
/// before the first newline, and the bytes after it. A buffer without a
/// newline holds no whole frame.
pub open spec fn split_frame(buffer: Seq<u8>) -> Option<(Seq<u8>, Seq<u8>)> {
    match first_index(buffer, NEWLINE) {
        Some(end) => Some((buffer.subrange(0, end), buffer.subrange(end + 1, buffer.len() as int))),
        None => None,
    }
}

/// A decoder that takes newline-terminated frames off the head of a buffer.
#[derive(Debug, Clone, Copy, PartialEq, Eq, Default)]
pub struct JsonRpcFrameCodec;

impl JsonRpcFrameCodec {
    /// Where the first frame of `buffer` ends: the place of its first newline,
    /// if it holds one.
    pub fn frame_end(buffer: &[u8]) -> (end: Option<usize>)
        ensures
            match end {
                Some(at) => first_index(buffer@, NEWLINE) == Some(at as int) && at < buffer@.len(),
                None => first_index(buffer@, NEWLINE) is None,
            },
    {
        let mut at: usize = 0;
        while at < buffer.len()
            invariant
                at <= buffer@.len(),
                forall|j: int| 0 <= j < at ==> buffer@[j] != NEWLINE,
            decreases buffer@.len() - at,
        {
            if buffer[at] == NEWLINE {
                proof {
                    lemma_first_index_found(buffer@, NEWLINE, at as int);
                }
                return Some(at);
            }
            at += 1;
        }
        proof {
            lemma_first_index_absent(buffer@, NEWLINE);
        }
        None
    }

    /// Takes the first frame off `src`: the bytes before the first newline are
    /// returned, and `src` keeps what follows that newline. Where `src` holds
    /// no newline nothing is returned and `src` stays as it is.
    pub fn decode(&mut self, src: &mut Vec<u8>) -> (frame: Option<Vec<u8>>)
        ensures
            match split_frame(old(src)@) {
                Some((line, rest)) => frame is Some && frame->0@ == line && final(src)@ == rest,
                None => frame is None && final(src)@ == old(src)@,
            },
    {
        let length = src.len();
        match Self::frame_end(src.as_slice()) {
            Some(end) => {
                assert(end < length);
                let mut line = src.split_off(end + 1);
                src.pop();
                std::mem::swap(src, &mut line);
                assert(line@ =~= old(src)@.subrange(0, end as int));
                assert(src@ =~= old(src)@.subrange(end + 1, old(src)@.len() as int));
                Some(line)
            },
            None => None,
        }
    }
}

/// A frame holds no newline, and the frame, a newline and the rest make up the
/// buffer again.
pub proof fn lemma_split_frame(buffer: Seq<u8>)
    requires
        split_frame(buffer) is Some,
    ensures
        ({
            let (line, rest) = split_frame(buffer)->0;
            &&& buffer == line.push(NEWLINE) + rest
            &&& forall|j: int| 0 <= j < line.len() ==> line[j] != NEWLINE
        }),
{
    lemma_first_index_is_first(buffer, NEWLINE);
    let (line, rest) = split_frame(buffer)->0;
    assert(buffer =~= line.push(NEWLINE) + rest);
}

} // verus!
