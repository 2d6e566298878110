//! Matching driver-reported property names against requested names.
//!
//! The driver reports layer and extension names as fixed-capacity byte
//! buffers that are NUL-terminated in the usual case; a buffer without a NUL
//! is read as a name that fills the whole buffer. A requested name is a plain
//! byte string without a NUL.

use vstd::prelude::*;

verus! {

/// Length of the prefix of `buf` before its first NUL byte, or the whole
/// length if no byte of `buf` is NUL.
pub open spec fn first_nul(buf: Seq<u8>) -> int
    decreases buf.len(),
{
    if buf.len() == 0 {
        0
    } else if buf[0] == 0 {
        0
    } else {
        1 + first_nul(buf.subrange(1, buf.len() as int))
    }
}

/// The name a property buffer carries: its bytes up to the first NUL, or the
/// whole buffer if it holds no NUL.
pub open spec fn name_of(buf: Seq<u8>) -> Seq<u8> {
    buf.take(first_nul(buf))
}

/// A buffer matches a requested name when the bytes up to its first NUL are
/// exactly the name's bytes.
pub open spec fn name_matches(buf: Seq<u8>, name: Seq<u8>) -> bool {
    name_of(buf) == name
}

proof fn lemma_first_nul_is(buf: Seq<u8>, n: int)
    requires
        0 <= n <= buf.len(),
        forall|k: int| 0 <= k < n ==> buf[k] != 0,
        n < buf.len() ==> buf[n] == 0,
    ensures
        first_nul(buf) == n,
    decreases buf.len(),
{
    if buf.len() != 0 && buf[0] != 0 {
        lemma_first_nul_is(buf.subrange(1, buf.len() as int), n - 1);
    }
}

/// Decides whether the property buffer's name equals the requested name:
/// true iff the bytes of `buffer` up to its first NUL (or up to the buffer's
/// end, if it holds no NUL) are exactly the bytes of `name`.
pub fn matches(buffer: &Vec<u8>, name: &Vec<u8>) -> (r: bool)
    ensures
        r == name_matches(buffer@, name@),
{
    let mut n: usize = 0;
    while n < buffer.len() && buffer[n] != 0
        invariant
            0 <= n <= buffer@.len(),
            forall|k: int| 0 <= k < n ==> buffer@[k] != 0,
        decreases buffer@.len() - n,
    {
        n = n + 1;
    }
    proof {
        lemma_first_nul_is(buffer@, n as int);
    }
    if n != name.len() {
        assert(name_of(buffer@).len() != name@.len());
        return false;
    }
    let mut i: usize = 0;
    while i < n
        invariant
            0 <= i <= n <= buffer@.len(),
            n == name@.len(),
            first_nul(buffer@) == n,
            forall|k: int| 0 <= k < i ==> buffer@[k] == name@[k],
        decreases n - i,
    {
        if buffer[i] != name[i] {
            assert(name_of(buffer@)[i as int] != name@[i as int]);
            return false;
        }
        i = i + 1;
    }
    assert(name_of(buffer@) =~= name@);
    true
}

/// Some entry of `available` carries exactly the requested `name`.
pub open spec fn some_match(available: Seq<Seq<u8>>, name: Seq<u8>) -> bool {
    exists|j: int| 0 <= j < available.len() && name_matches(available[j], name)
}

/// Every requested name is carried by some entry of `available`.
pub open spec fn all_present_in(available: Seq<Seq<u8>>, requested: Seq<Seq<u8>>) -> bool {
    forall|i: int| 0 <= i < requested.len() ==> some_match(available, requested[i])
}

proof fn lemma_deep_view_index(v: &Vec<Vec<u8>>, j: int)
    requires
        0 <= j < v@.len(),
    ensures
        v.deep_view()[j] == v@[j]@,
{
    assert(v@[j].deep_view() =~= v@[j]@);
}

/// Linearly scans `available` for an entry whose name is `name`.
pub fn contains_name(available: &Vec<Vec<u8>>, name: &Vec<u8>) -> (r: bool)
    ensures
        r == some_match(available.deep_view(), name@),
{
    let mut j: usize = 0;
    while j < available.len()
        invariant
            0 <= j <= available@.len(),
            forall|k: int| 0 <= k < j ==> !name_matches(available.deep_view()[k], name@),
        decreases available@.len() - j,
    {
        let found = matches(&available[j], name);
        proof {
            lemma_deep_view_index(available, j as int);
        }
        if found {
            assert(name_matches(available.deep_view()[j as int], name@));
            return true;
        }
        j = j + 1;
    }
    false
}

/// Checks that every requested name is present in the enumerated property
/// list: true iff each element of `requested` matches some element of
/// `available`. The scan stops at the first requested name that has no
/// match. One algorithm serves validation layers, instance extensions and
/// device extensions alike.
pub fn all_present(available: &Vec<Vec<u8>>, requested: &Vec<Vec<u8>>) -> (r: bool)
    ensures
        r == all_present_in(available.deep_view(), requested.deep_view()),
{
    let mut i: usize = 0;
    while i < requested.len()
        invariant
            0 <= i <= requested@.len(),
            forall|k: int| 0 <= k < i ==> some_match(available.deep_view(), requested.deep_view()[k]),
        decreases requested@.len() - i,
    {
        let present = contains_name(available, &requested[i]);
        proof {
            lemma_deep_view_index(requested, i as int);
        }
        if !present {
            assert(!some_match(available.deep_view(), requested.deep_view()[i as int]));
            return false;
        }
        i = i + 1;
    }
    true
}

} // verus!
