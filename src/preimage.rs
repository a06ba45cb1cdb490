use vstd::prelude::*;

verus! {

/// The eight bytes of `x`, most significant first.
pub open spec fn be_bytes(x: u64) -> Seq<u8> {
    Seq::new(8, |k: int| ((x >> ((56 - 8 * k) as u64)) & 0xffu64) as u8)
}

/// The bytes a credential's verification tag is the hash of: the holder's
/// account id, the course id and the time of issue, each as eight big-endian
/// bytes.
pub open spec fn preimage_of(user: u64, course_id: u64, timestamp: u64) -> Seq<u8> {
    be_bytes(user) + be_bytes(course_id) + be_bytes(timestamp)
}

fn push_be_bytes(out: &mut Vec<u8>, x: u64)
    ensures
        final(out)@ == old(out)@ + be_bytes(x),
{
    let ghost start = out@;
    let mut k: u64 = 0;
    while k < 8
        invariant
            k <= 8,
            out@ == start + be_bytes(x).take(k as int),
        decreases 8 - k,
    {
        let b = ((x >> (56 - 8 * k)) & 0xffu64) as u8;
        out.push(b);
        k = k + 1;
        assert(out@ =~= start + be_bytes(x).take(k as int));
    }
    assert(be_bytes(x).take(8) =~= be_bytes(x));
}

/// The bytes to hash for the verification tag of a credential issued to
/// `user` for `course_id` at `timestamp`.
pub fn verification_preimage(user: u64, course_id: u64, timestamp: u64) -> (r: Vec<u8>)
    ensures
        r@ == preimage_of(user, course_id, timestamp),
{
    let mut out: Vec<u8> = Vec::new();
    push_be_bytes(&mut out, user);
    push_be_bytes(&mut out, course_id);
    push_be_bytes(&mut out, timestamp);
    assert(out@ =~= preimage_of(user, course_id, timestamp));
    out
}

} // verus!
