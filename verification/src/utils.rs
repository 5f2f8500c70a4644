//! Small helpers used by the resource managers.

use crate::errors::GpmError;
use vstd::prelude::*;
use vstd::utf8::encode_utf8;
use vstd::utf8::valid_utf8;
use vstd::utf8::decode_utf8;

verus! {

broadcast use vstd::utf8::encode_utf8_decode_utf8;

/// Whether two string slices hold the same characters.
pub fn str_eq(a: &str, b: &str) -> (r: bool)
    ensures
        r == (a@ == b@),
{
    let ab: &[u8] = a.as_bytes();
    let bb: &[u8] = b.as_bytes();
    if ab.len() != bb.len() {
        return false;
    }
    let mut i: usize = 0;
    let n = ab.len();
    while i < n
        invariant
            i <= n,
            n == ab@.len() == bb@.len(),
            ab@ == encode_utf8(a@),
            bb@ == encode_utf8(b@),
            forall|j: int| 0 <= j < i ==> ab@[j] == bb@[j],
        decreases n - i,
    {
        if ab[i] != bb[i] {
            // the byte encodings differ, so the characters do too
            assert(a@ != b@);
            return false;
        }
        i = i + 1;
    }
    proof {
        assert(ab@ =~= bb@);
        assert(decode_utf8(encode_utf8(a@)) == a@);
        assert(decode_utf8(encode_utf8(b@)) == b@);
    }
    true
}

/// Sum of a sequence of samples, as a mathematical integer.
pub open spec fn sample_sum(s: Seq<u16>) -> int
    decreases s.len(),
{
    if s.len() == 0 {
        0
    } else {
        sample_sum(s.drop_last()) + s.last()
    }
}

/// The sum grows by the appended element.
proof fn lemma_sample_sum_push(s: Seq<u16>, i: int)
    requires
        0 <= i < s.len(),
    ensures
        sample_sum(s.subrange(0, i + 1)) == sample_sum(s.subrange(0, i)) + s[i],
{
    let front = s.subrange(0, i + 1);
    assert(front.drop_last() =~= s.subrange(0, i));
    assert(front.last() == s[i]);
}

/// The sum of a sequence of 16-bit samples is bounded by its length.
proof fn lemma_sample_sum_bound(s: Seq<u16>)
    ensures
        0 <= sample_sum(s) <= s.len() * 0xffff,
    decreases s.len(),
{
    if s.len() > 0 {
        lemma_sample_sum_bound(s.drop_last());
    }
}

/// Integer mean of a sample list: the sum divided by the length, rounded
/// toward zero. Fails exactly on an empty list.
pub fn average(list: &Vec<u16>) -> (r: Result<u16, GpmError>)
    ensures
        r is Err <==> list@.len() == 0,
        r is Err ==> r->Err_0 == GpmError::EmptyList,
        r is Ok ==> r->Ok_0 == sample_sum(list@) / (list@.len() as int),
{
    if list.len() == 0 {
        return Err(GpmError::EmptyList);
    }
    let mut total: u128 = 0;
    let mut i: usize = 0;
    while i < list.len()
        invariant
            i <= list@.len(),
            total == sample_sum(list@.subrange(0, i as int)),
            total <= i * 0xffff,
        decreases list@.len() - i,
    {
        proof {
            lemma_sample_sum_push(list@, i as int);
        }
        total = total + list[i] as u128;
        i = i + 1;
    }
    assert(list@.subrange(0, list@.len() as int) =~= list@);
    let len = list.len();
    let mean = total / (len as u128);
    assert(mean <= 0xffff) by (nonlinear_arith)
        requires
            total <= len * 0xffff,
            0 < len,
            mean == total / (len as u128),
    {}
    Ok(mean as u16)
}

} // verus!
