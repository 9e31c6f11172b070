//! Byte-level padding and trimming helpers shared by the header and record
//! codecs. String fields of a SAUCE header are stored space-padded and are
//! read back with trailing spaces and trailing NUL bytes removed; the
//! 22-byte info string is stored zero-padded and is read back with trailing
//! NUL bytes only removed.

use vstd::prelude::*;

verus! {

/// True of the bytes that count as trailing padding in space-padded fields.
pub open spec fn is_trim_byte(b: u8) -> bool {
    b == 32 || b == 0
}

/// A sequence with its trailing spaces and NUL bytes removed.
pub open spec fn trim_tail(s: Seq<u8>) -> Seq<u8>
    decreases s.len(),
{
    if s.len() == 0 {
        s
    } else if is_trim_byte(s[s.len() - 1]) {
        trim_tail(s.drop_last())
    } else {
        s
    }
}

/// A sequence with its trailing NUL bytes removed; spaces are kept.
pub open spec fn trim_zero_tail(s: Seq<u8>) -> Seq<u8>
    decreases s.len(),
{
    if s.len() == 0 {
        s
    } else if s[s.len() - 1] == 0 {
        trim_zero_tail(s.drop_last())
    } else {
        s
    }
}

/// `s` truncated or extended with `fill` bytes to exactly `n` bytes.
pub open spec fn padded(s: Seq<u8>, n: nat, fill: u8) -> Seq<u8> {
    Seq::new(n, |i: int| if i < s.len() { s[i] } else { fill })
}

/// Trimming strips nothing from a sequence whose last byte is no padding.
pub proof fn lemma_trim_tail_of_clean(s: Seq<u8>)
    requires
        s.len() == 0 || !is_trim_byte(s[s.len() - 1]),
    ensures
        trim_tail(s) == s,
{
}

/// Remove trailing spaces and NUL bytes from `data`.
///
/// This is the read-back rule for the space-padded title, author, group and
/// comment fields; some writers zero-pad them instead, so NUL counts as
/// padding too.
pub fn sauce_trim(data: &[u8]) -> (r: Vec<u8>)
    ensures
        r@ == trim_tail(data@),
{
    let mut end: usize = data.len();
    proof {
        assert(data@.subrange(0, data@.len() as int) =~= data@);
    }
    while end > 0 && (data[end - 1] == 32 || data[end - 1] == 0)
        invariant
            end <= data@.len(),
            trim_tail(data@) == trim_tail(data@.subrange(0, end as int)),
        decreases end,
    {
        proof {
            let pre = data@.subrange(0, end as int);
            assert(pre.drop_last() =~= data@.subrange(0, end - 1));
        }
        end = end - 1;
    }
    proof {
        let pre = data@.subrange(0, end as int);
        if end > 0 {
            assert(pre[pre.len() - 1] == data@[end - 1]);
        }
        lemma_trim_tail_of_clean(pre);
    }
    let mut r: Vec<u8> = Vec::new();
    let mut i: usize = 0;
    while i < end
        invariant
            i <= end,
            end <= data@.len(),
            r@ == data@.subrange(0, i as int),
        decreases end - i,
    {
        r.push(data[i]);
        proof {
            assert(data@.subrange(0, i as int).push(data@[i as int]) =~= data@.subrange(
                0,
                i + 1,
            ));
        }
        i = i + 1;
    }
    proof {
        assert(trim_tail(data@) =~= data@.subrange(0, end as int));
    }
    r
}

/// Remove only trailing NUL bytes from `data`; spaces before the padding are
/// kept. This is the read-back rule for the zero-padded info string.
pub fn zero_trim(data: &[u8]) -> (r: Vec<u8>)
    ensures
        r@ == trim_zero_tail(data@),
{
    let mut end: usize = data.len();
    proof {
        assert(data@.subrange(0, data@.len() as int) =~= data@);
    }
    while end > 0 && data[end - 1] == 0
        invariant
            end <= data@.len(),
            trim_zero_tail(data@) == trim_zero_tail(data@.subrange(0, end as int)),
        decreases end,
    {
        proof {
            let pre = data@.subrange(0, end as int);
            assert(pre.drop_last() =~= data@.subrange(0, end - 1));
        }
        end = end - 1;
    }
    proof {
        let pre = data@.subrange(0, end as int);
        if end > 0 {
            assert(pre[pre.len() - 1] == data@[end - 1]);
        }
    }
    let mut r: Vec<u8> = Vec::new();
    let mut i: usize = 0;
    while i < end
        invariant
            i <= end,
            end <= data@.len(),
            r@ == data@.subrange(0, i as int),
        decreases end - i,
    {
        r.push(data[i]);
        proof {
            assert(data@.subrange(0, i as int).push(data@[i as int]) =~= data@.subrange(
                0,
                i + 1,
            ));
        }
        i = i + 1;
    }
    proof {
        assert(trim_zero_tail(data@) =~= data@.subrange(0, end as int));
    }
    r
}

/// Pad `s` with trailing spaces, or cut it, to exactly `len` bytes.
pub fn sauce_pad(s: &Vec<u8>, len: usize) -> (r: Vec<u8>)
    ensures
        r@ == padded(s@, len as nat, 32),
{
    pad_with(s, len, 32)
}

/// Pad `s` with trailing NUL bytes, or cut it, to exactly `len` bytes.
pub fn zero_pad(s: &Vec<u8>, len: usize) -> (r: Vec<u8>)
    ensures
        r@ == padded(s@, len as nat, 0),
{
    pad_with(s, len, 0)
}

/// An owned copy of a byte vector.
pub fn clone_bytes(src: &Vec<u8>) -> (r: Vec<u8>)
    ensures
        r@ == src@,
{
    let mut r: Vec<u8> = Vec::new();
    let mut i: usize = 0;
    while i < src.len()
        invariant
            i <= src@.len(),
            r@ == src@.subrange(0, i as int),
        decreases src@.len() - i,
    {
        r.push(src[i]);
        proof {
            assert(src@.subrange(0, i as int).push(src@[i as int]) =~= src@.subrange(0, i + 1));
        }
        i = i + 1;
    }
    proof {
        assert(src@.subrange(0, src@.len() as int) =~= src@);
    }
    r
}

/// An owned copy of a vector of byte vectors, element for element.
pub fn clone_byte_lines(src: &Vec<Vec<u8>>) -> (r: Vec<Vec<u8>>)
    ensures
        r@.len() == src@.len(),
        forall|i: int| 0 <= i < src@.len() ==> #[trigger] r@[i]@ == src@[i]@,
{
    let mut r: Vec<Vec<u8>> = Vec::new();
    let mut i: usize = 0;
    while i < src.len()
        invariant
            i <= src@.len(),
            r@.len() == i,
            forall|j: int| 0 <= j < i ==> #[trigger] r@[j]@ == src@[j]@,
        decreases src@.len() - i,
    {
        r.push(clone_bytes(&src[i]));
        i = i + 1;
    }
    r
}

/// Relies on `String::from_utf8_lossy`: bytes below 128 are ASCII and map
/// one to one onto the characters of the result.
#[verifier::external_body]
pub(crate) fn ascii_to_string(bytes: &Vec<u8>) -> (r: String)
    requires
        forall|i: int| 0 <= i < bytes@.len() ==> bytes@[i] < 128,
    ensures
        r@.len() == bytes@.len(),
        forall|i: int| 0 <= i < bytes@.len() ==> r@[i] == bytes@[i] as char,
{
    String::from_utf8_lossy(bytes).into_owned()
}

fn pad_with(s: &Vec<u8>, len: usize, fill: u8) -> (r: Vec<u8>)
    ensures
        r@ == padded(s@, len as nat, fill),
{
    let mut r: Vec<u8> = Vec::new();
    let mut i: usize = 0;
    while i < len
        invariant
            i <= len,
            r@.len() == i,
            forall|j: int|
                0 <= j < i ==> r@[j] == (if j < s@.len() {
                    s@[j]
                } else {
                    fill
                }),
        decreases len - i,
    {
        if i < s.len() {
            r.push(s[i]);
        } else {
            r.push(fill);
        }
        i = i + 1;
    }
    proof {
        assert(r@ =~= padded(s@, len as nat, fill));
    }
    r
}

} // verus!
