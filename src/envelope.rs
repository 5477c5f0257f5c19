//! Recognition of end-to-end encrypted message bodies: `v1:<seg>:<seg>:<seg>`.
use vstd::prelude::*;
use vstd::string::*;

verus! {

/// Whether a byte may appear in one segment of an encrypted body:
/// `[A-Za-z0-9+/=\-_]`, the standard and the URL-safe base64 alphabets.
pub open spec fn is_segment_byte(b: u8) -> bool {
    (0x41 <= b && b <= 0x5a) || (0x61 <= b && b <= 0x7a) || (0x30 <= b && b <= 0x39) || b == 0x2b
        || b == 0x2f || b == 0x3d || b == 0x2d || b == 0x5f
}

/// A nonempty run of segment bytes.
pub open spec fn is_segment(s: Seq<u8>) -> bool {
    s.len() > 0 && forall|i: int| 0 <= i < s.len() ==> is_segment_byte(#[trigger] s[i])
}

/// `b` is `v1:` followed by three segments separated by `:`.
pub open spec fn is_envelope(b: Seq<u8>) -> bool {
    &&& b.len() >= 3
    &&& b[0] == 0x76u8 && b[1] == 0x31u8 && b[2] == 0x3au8
    &&& exists|i: int, j: int|
        #![trigger b[i], b[j]]
        3 <= i < j < b.len() && b[i] == 0x3au8 && b[j] == 0x3au8 && is_segment(b.subrange(3, i))
            && is_segment(b.subrange(i + 1, j)) && is_segment(b.subrange(j + 1, b.len() as int))
}

/// Whether `b[lo..hi]` is a segment.
fn segment_ok(b: &[u8], lo: usize, hi: usize) -> (r: bool)
    requires
        lo <= hi <= b@.len(),
    ensures
        r == is_segment(b@.subrange(lo as int, hi as int)),
{
    if lo == hi {
        return false;
    }
    let mut k: usize = lo;
    while k < hi
        invariant
            lo <= k <= hi <= b@.len(),
            forall|m: int| lo <= m < k ==> is_segment_byte(#[trigger] b@[m]),
        decreases hi - k,
    {
        let c = b[k];
        if !((0x41 <= c && c <= 0x5a) || (0x61 <= c && c <= 0x7a) || (0x30 <= c && c <= 0x39)
            || c == 0x2b || c == 0x2f || c == 0x3d || c == 0x2d || c == 0x5f) {
            assert(b@.subrange(lo as int, hi as int)[k - lo] == c);
            return false;
        }
        k = k + 1;
    }
    assert forall|m: int| 0 <= m < hi - lo implies is_segment_byte(
        #[trigger] b@.subrange(lo as int, hi as int)[m],
    ) by {
        assert(b@.subrange(lo as int, hi as int)[m] == b@[lo + m]);
    }
    true
}

/// Whether `s` is one segment: nonempty, and every character in the base64 alphabets.
pub fn is_base64ish(s: &str) -> (r: bool)
    ensures
        r == is_segment(s.spec_bytes()),
{
    let b = s.as_bytes();
    let r = segment_ok(b, 0, b.len());
    assert(b@.subrange(0, b@.len() as int) =~= b@);
    r
}


/// Index of the first `:` in `b[from..]`, if any.
fn find_colon(b: &[u8], from: usize) -> (r: Option<usize>)
    requires
        from <= b@.len(),
    ensures
        match r {
            Some(k) => from <= k < b@.len() && b@[k as int] == 0x3au8 && forall|m: int|
                from <= m < k ==> #[trigger] b@[m] != 0x3au8,
            None => forall|m: int| from <= m < b@.len() ==> #[trigger] b@[m] != 0x3au8,
        },
{
    let mut k: usize = from;
    while k < b.len()
        invariant
            from <= k <= b@.len(),
            forall|m: int| from <= m < k ==> #[trigger] b@[m] != 0x3au8,
        decreases b@.len() - k,
    {
        if b[k] == 0x3a {
            return Some(k);
        }
        k = k + 1;
    }
    None
}

/// A segment holds no `:`.
proof fn lemma_segment_has_no_colon(b: Seq<u8>, lo: int, hi: int, m: int)
    requires
        0 <= lo <= m < hi <= b.len(),
        is_segment(b.subrange(lo, hi)),
    ensures
        b[m] != 0x3au8,
{
    assert(b.subrange(lo, hi)[m - lo] == b[m]);
    assert(is_segment_byte(b.subrange(lo, hi)[m - lo]));
}

/// Whether a body is a well-formed end-to-end encrypted envelope. Only the shape is
/// checked: nothing is decoded and no length is inspected.
pub fn is_e2ee_envelope(body: &str) -> (r: bool)
    ensures
        r == is_envelope(body.spec_bytes()),
{
    let b = body.as_bytes();
    let ghost s = b@;
    if b.len() < 3 || b[0] != 0x76 || b[1] != 0x31 || b[2] != 0x3a {
        return false;
    }
    let first = find_colon(b, 3);
    let i = match first {
        Some(i) => i,
        None => {
            assert forall|i: int, j: int| #![trigger s[i], s[j]]
                3 <= i < j < s.len() && s[i] == 0x3au8 && s[j] == 0x3au8 implies false by {}
            return false;
        },
    };
    let second = find_colon(b, i + 1);
    let j = match second {
        Some(j) => j,
        None => {
            assert forall|i2: int, j2: int| #![trigger s[i2], s[j2]]
                3 <= i2 < j2 < s.len() && s[i2] == 0x3au8 && s[j2] == 0x3au8 && is_segment(
                    s.subrange(3, i2),
                ) implies false by {
                if i < i2 {
                    lemma_segment_has_no_colon(s, 3, i2, i as int);
                }
            }
            return false;
        },
    };
    let r = segment_ok(b, 3, i) && segment_ok(b, i + 1, j) && segment_ok(b, j + 1, b.len());
    proof {
        if !r {
            assert forall|i2: int, j2: int| #![trigger s[i2], s[j2]]
                3 <= i2 < j2 < s.len() && s[i2] == 0x3au8 && s[j2] == 0x3au8 && is_segment(
                    s.subrange(3, i2),
                ) && is_segment(s.subrange(i2 + 1, j2)) && is_segment(
                    s.subrange(j2 + 1, s.len() as int),
                ) implies false by {
                if i < i2 {
                    lemma_segment_has_no_colon(s, 3, i2, i as int);
                }
                assert(i2 == i);
                if j < j2 {
                    lemma_segment_has_no_colon(s, i2 + 1, j2, j as int);
                }
                assert(j2 == j);
            }
        } else {
            assert(s[i as int] == 0x3au8 && s[j as int] == 0x3au8);
        }
    }
    r
}

} // verus!
