use vstd::prelude::*;
use vstd::slice::slice_to_vec;
use vstd::string::StringSliceAdditionalSpecFns;

verus! {

/// The null-terminated byte buffer handed to the native primitives for the
/// content `b`: `b` followed by one terminating zero byte — or, when `b`
/// itself holds a zero byte and the straightforward construction is
/// impossible, the empty null-terminated string.
pub open spec fn spec_marshaled(b: Seq<u8>) -> Seq<u8> {
    if b.contains(0u8) {
        seq![0u8]
    } else {
        b.push(0u8)
    }
}

/// Marshals byte content into a null-terminated buffer. Never fails and
/// never panics: content with an interior zero byte degrades to the empty
/// string, so a malformed message becomes "nothing logged" rather than a
/// crash.
pub fn marshal_bytes(b: &[u8]) -> (r: Vec<u8>)
    ensures
        r@ == spec_marshaled(b@),
        r@.len() >= 1,
        r@[r@.len() - 1] == 0u8,
        forall|i: int| 0 <= i < r@.len() - 1 ==> r@[i] != 0u8,
        r@.len() <= b@.len() + 1,
{
    let n = b.len();
    let mut i: usize = 0;
    while i < n
        invariant
            n == b@.len(),
            0 <= i <= n,
            forall|j: int| 0 <= j < i ==> b@[j] != 0u8,
        decreases n - i,
    {
        if *vstd::slice::slice_index_get(b, i) == 0u8 {
            assert(b@.contains(0u8)) by {
                assert(b@[i as int] == 0u8);
            }
            let mut r: Vec<u8> = Vec::new();
            r.push(0u8);
            assert(r@ =~= spec_marshaled(b@));
            return r;
        }
        i = i + 1;
    }
    assert(!b@.contains(0u8));
    let mut r = slice_to_vec(b);
    r.push(0u8);
    assert(r@ =~= spec_marshaled(b@));
    r
}

/// Marshals text into a null-terminated byte buffer: the UTF-8 bytes of `s`
/// followed by one zero byte, or the empty null-terminated string when the
/// text holds an interior zero byte. The result is never longer than the
/// text plus its terminator, and the call never panics.
pub fn marshal_str(s: &str) -> (r: Vec<u8>)
    ensures
        r@ == spec_marshaled(s.spec_bytes()),
        r@.len() >= 1,
        r@[r@.len() - 1] == 0u8,
        forall|i: int| 0 <= i < r@.len() - 1 ==> r@[i] != 0u8,
        r@.len() <= s.spec_bytes().len() + 1,
{
    marshal_bytes(s.as_bytes())
}

} // verus!
