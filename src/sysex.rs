use vstd::prelude::*;

verus! {

/// First byte of a system-exclusive frame.
pub const START: u8 = 0xF0;

/// Last byte of a system-exclusive frame.
pub const END: u8 = 0xF7;

/// Bytes from `SYSTEM_MIN` upward open a system message.
pub const SYSTEM_MIN: u8 = 0xF0;

/// `i` is the position of the first system-message byte of `s`.
pub open spec fn first_system_byte(s: Seq<u8>, i: int) -> bool {
    &&& 0 <= i < s.len()
    &&& s[i] >= SYSTEM_MIN
    &&& forall|k: int| 0 <= k < i ==> s[k] < SYSTEM_MIN
}

/// `s[i..=j]` is the frame of `s`: the first system byte is `START` at `i`,
/// and `j` is the first `END` after it.
pub open spec fn is_frame(s: Seq<u8>, i: int, j: int) -> bool {
    &&& first_system_byte(s, i)
    &&& s[i] == START
    &&& i < j < s.len()
    &&& s[j] == END
    &&& forall|k: int| i < k < j ==> s[k] != END
}

/// The frame of `s` with the bytes around it dropped; `None` where `s` has no
/// frame, or where the frame is all of `s` (nothing to trim).
pub open spec fn sysex_frame(s: Seq<u8>) -> Option<Seq<u8>> {
    if exists|p: (int, int)| is_frame(s, p.0, p.1) {
        let p = choose|p: (int, int)| is_frame(s, p.0, p.1);
        if p.0 == 0 && p.1 == s.len() - 1 {
            None
        } else {
            Some(s.subrange(p.0, p.1 + 1))
        }
    } else {
        None
    }
}

/// A sequence has at most one frame.
pub proof fn lemma_frame_unique(s: Seq<u8>, i1: int, j1: int, i2: int, j2: int)
    requires
        is_frame(s, i1, j1),
        is_frame(s, i2, j2),
    ensures
        i1 == i2,
        j1 == j2,
{
    if i1 < i2 {
        assert(s[i1] < SYSTEM_MIN);
    } else if i2 < i1 {
        assert(s[i2] < SYSTEM_MIN);
    }
    if j1 < j2 {
        assert(s[j1] != END);
    } else if j2 < j1 {
        assert(s[j2] != END);
    }
}

/// A buffer without any system-message byte holds no frame to cut out.
pub proof fn lemma_no_system_byte_no_frame(s: Seq<u8>)
    requires
        forall|k: int| 0 <= k < s.len() ==> s[k] < SYSTEM_MIN,
    ensures
        sysex_frame(s) is None,
{
    if exists|p: (int, int)| is_frame(s, p.0, p.1) {
        let p = choose|p: (int, int)| is_frame(s, p.0, p.1);
        assert(s[p.0] >= SYSTEM_MIN);
    }
}

/// One frame with bytes before it (none of them a system byte) and/or bytes
/// after it comes out exactly, from `START` to `END`.
pub proof fn lemma_frame_in_noise(pre: Seq<u8>, payload: Seq<u8>, post: Seq<u8>)
    requires
        forall|k: int| 0 <= k < pre.len() ==> pre[k] < SYSTEM_MIN,
        forall|k: int| 0 <= k < payload.len() ==> payload[k] != END,
        pre.len() + post.len() > 0,
    ensures
        sysex_frame(pre + seq![START] + payload + seq![END] + post) == Some(
            seq![START] + payload + seq![END],
        ),
{
    let frame = seq![START] + payload + seq![END];
    let s = pre + frame + post;
    assert(s == pre + seq![START] + payload + seq![END] + post);
    let i = pre.len() as int;
    let j = i + payload.len() + 1;
    assert(s[i] == START);
    assert(s[j] == END);
    assert forall|k: int| 0 <= k < i implies s[k] < SYSTEM_MIN by {
        assert(s[k] == pre[k]);
    }
    assert forall|k: int| i < k < j implies s[k] != END by {
        assert(s[k] == payload[k - i - 1]);
    }
    let w = (i, j);
    assert(is_frame(s, w.0, w.1));
    let p = choose|p: (int, int)| is_frame(s, p.0, p.1);
    lemma_frame_unique(s, p.0, p.1, i, j);
    assert(s.subrange(i, j + 1) =~= frame);
}

/// What the extractor cuts out is already minimal: cutting again finds
/// nothing to trim.
pub proof fn lemma_frame_idempotent(s: Seq<u8>)
    requires
        sysex_frame(s) is Some,
    ensures
        sysex_frame(sysex_frame(s)->0) is None,
{
    let p = choose|p: (int, int)| is_frame(s, p.0, p.1);
    let out = s.subrange(p.0, p.1 + 1);
    assert(sysex_frame(s) == Some(out));
    let last = p.1 - p.0;
    assert forall|k: int| 0 < k < last implies out[k] != END by {
        assert(out[k] == s[p.0 + k]);
    }
    let w = (0int, last);
    assert(is_frame(out, w.0, w.1));
    let q = choose|q: (int, int)| is_frame(out, q.0, q.1);
    lemma_frame_unique(out, q.0, q.1, 0, last);
}

/// Cuts the system-exclusive frame out of `buf`, dropping the bytes before
/// and after it. `None` where there is no frame, where the first system byte
/// is not `START`, or where the frame already spans the whole buffer.
pub fn sysex_filter(buf: &[u8]) -> (r: Option<&[u8]>)
    ensures
        match r {
            Some(out) => sysex_frame(buf@) == Some(out@),
            None => sysex_frame(buf@) is None,
        },
{
    let len = buf.len();
    let mut first = len;
    let mut i: usize = 0;
    while i < len
        invariant_except_break
            first == len,
        invariant
            i <= len == buf@.len(),
            forall|k: int| 0 <= k < i ==> buf@[k] < SYSTEM_MIN,
        ensures
            first <= len,
            first == len ==> i == len,
            first < len ==> first == i && buf@[i as int] >= SYSTEM_MIN,
            forall|k: int| 0 <= k < first ==> buf@[k] < SYSTEM_MIN,
        decreases len - i,
    {
        if buf[i] >= SYSTEM_MIN {
            first = i;
            break;
        }
        i = i + 1;
    }
    if first == len || buf[first] != START {
        proof {
            if exists|p: (int, int)| is_frame(buf@, p.0, p.1) {
                let p = choose|p: (int, int)| is_frame(buf@, p.0, p.1);
                if first == len {
                    assert(buf@[p.0] < SYSTEM_MIN);
                } else {
                    assert(first_system_byte(buf@, first as int));
                    assert(buf@[p.0] >= SYSTEM_MIN);
                    if p.0 < first {
                        assert(buf@[p.0] < SYSTEM_MIN);
                    } else if (first as int) < p.0 {
                        assert(buf@[first as int] < SYSTEM_MIN);
                    }
                }
            }
        }
        return None;
    }
    assert(first_system_byte(buf@, first as int));
    let mut last = len;
    let mut j: usize = first + 1;
    while j < len
        invariant_except_break
            last == len,
        invariant
            first < j <= len == buf@.len(),
            forall|k: int| first < k < j ==> buf@[k] != END,
        ensures
            last <= len,
            last == len ==> j == len,
            last < len ==> last == j && buf@[j as int] == END,
            forall|k: int| first < k < last ==> buf@[k] != END,
        decreases len - j,
    {
        if buf[j] == END {
            last = j;
            break;
        }
        j = j + 1;
    }
    if last == len {
        proof {
            if exists|p: (int, int)| is_frame(buf@, p.0, p.1) {
                let p = choose|p: (int, int)| is_frame(buf@, p.0, p.1);
                assert(p.0 == first) by {
                    if p.0 < first {
                        assert(buf@[p.0] < SYSTEM_MIN);
                    } else if (first as int) < p.0 {
                        assert(buf@[first as int] < SYSTEM_MIN);
                    }
                }
                assert(buf@[p.1] != END);
            }
        }
        return None;
    }
    proof {
        let q = (first as int, last as int);
        assert(is_frame(buf@, q.0, q.1));
        let p = choose|p: (int, int)| is_frame(buf@, p.0, p.1);
        lemma_frame_unique(buf@, p.0, p.1, q.0, q.1);
    }
    if first > 0 || last < len - 1 {
        let out = &buf[first..last + 1];
        assert(out@ == buf@.subrange(first as int, last as int + 1));
        return Some(out);
    }
    None
}

} // verus!
