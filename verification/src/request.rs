//! The one decision the page consumer takes from a received request:
//! whether its first line is shaped like a request line, that is, holds
//! at least a method word and a path word. Sockets and page rendering
//! stay with the consumer; the rule lives here.

use vstd::prelude::*;

verus! {

/// ASCII whitespace, as a request line separates its words.
pub open spec fn spec_is_ws(b: u8) -> bool {
    b == 32 || (9 <= b && b <= 13)
}

/// Length of the first line: the bytes before the first line feed, or
/// all of them if no line feed occurs.
pub open spec fn spec_line_len(s: Seq<u8>) -> nat
    decreases s.len(),
{
    if s.len() == 0 {
        0
    } else if s[0] == 10 {
        0
    } else {
        (1 + spec_line_len(s.drop_first())) as nat
    }
}

/// The first line of a request, line feed excluded.
pub open spec fn spec_first_line(s: Seq<u8>) -> Seq<u8> {
    s.take(spec_line_len(s) as int)
}

/// A word starts wherever a non-whitespace byte follows the start of
/// the sequence or a whitespace byte.
pub open spec fn spec_word_start(s: Seq<u8>, i: int) -> bool {
    &&& 0 <= i < s.len()
    &&& !spec_is_ws(s[i])
    &&& (i == 0 || spec_is_ws(s[i - 1]))
}

/// How many whitespace-separated words the sequence holds.
pub open spec fn spec_word_count(s: Seq<u8>) -> nat
    decreases s.len(),
{
    if s.len() == 0 {
        0
    } else {
        spec_word_count(s.drop_last()) + if spec_word_start(s, s.len() - 1) {
            1nat
        } else {
            0nat
        }
    }
}

/// Extending a sequence by one byte adds one word exactly when a word
/// starts at the new byte.
proof fn lemma_word_count_step(s: Seq<u8>, i: int)
    requires
        0 <= i < s.len(),
    ensures
        spec_word_start(s, i) ==> spec_word_count(s.take(i + 1)) == spec_word_count(s.take(i))
            + 1,
        !spec_word_start(s, i) ==> spec_word_count(s.take(i + 1)) == spec_word_count(s.take(i)),
{
    assert(s.take(i + 1).drop_last() =~= s.take(i));
    assert(spec_word_start(s.take(i + 1), i) == spec_word_start(s, i));
}

fn byte_is_ws(b: u8) -> (r: bool)
    ensures
        r == spec_is_ws(b),
{
    b == 32 || (9 <= b && b <= 13)
}

/// Count the whitespace-separated words of the request's first line.
pub fn request_line_word_count(buf: &Vec<u8>) -> (n: usize)
    ensures
        n == spec_word_count(spec_first_line(buf@)),
{
    let mut end: usize = 0;
    proof {
        assert(buf@.skip(0) =~= buf@);
    }
    while end < buf.len() && buf[end] != 10
        invariant
            end <= buf.len(),
            spec_line_len(buf@) == end + spec_line_len(buf@.skip(end as int)),
        decreases buf.len() - end,
    {
        proof {
            assert(buf@.skip(end as int).drop_first() =~= buf@.skip(end as int + 1));
            assert(buf@.skip(end as int)[0] == buf@[end as int]);
        }
        end = end + 1;
    }
    proof {
        if end < buf@.len() {
            assert(buf@.skip(end as int)[0] == buf@[end as int]);
        }
        assert(spec_line_len(buf@.skip(end as int)) == 0);
        assert(spec_line_len(buf@) == end);
    }
    let ghost line = spec_first_line(buf@);
    let mut n: usize = 0;
    let mut i: usize = 0;
    proof {
        assert(line.take(0) =~= Seq::<u8>::empty());
    }
    while i < end
        invariant
            i <= end <= buf.len(),
            n <= i,
            line == spec_first_line(buf@),
            end == spec_line_len(buf@),
            line.len() == end,
            n as nat == spec_word_count(line.take(i as int)),
        decreases end - i,
    {
        proof {
            lemma_word_count_step(line, i as int);
            assert(line[i as int] == buf@[i as int]);
            if i > 0 {
                assert(line[i as int - 1] == buf@[i as int - 1]);
            }
        }
        let here_ws = byte_is_ws(buf[i]);
        let starts = if here_ws {
            false
        } else if i == 0 {
            true
        } else {
            byte_is_ws(buf[i - 1])
        };
        if starts {
            n = n + 1;
        }
        i = i + 1;
    }
    proof {
        assert(line.take(end as int) =~= line);
    }
    n
}

/// Whether the received bytes open with a plausible request line:
/// at least two words, the method and the path.
pub fn is_request_line(buf: &Vec<u8>) -> (r: bool)
    ensures
        r == (spec_word_count(spec_first_line(buf@)) >= 2),
{
    request_line_word_count(buf) >= 2
}

} // verus!
