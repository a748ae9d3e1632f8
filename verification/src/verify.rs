//! The verification gate's capability: the routine a descriptor carries to
//! judge staged data before it may be committed. The default accepts
//! everything; callers that know the expected content can demand an exact
//! match, or reject unconditionally to distrust every mirror.

use vstd::prelude::*;

verus! {

/// A content-verification capability for one download.
#[derive(Debug, PartialEq, Eq)]
pub enum Verify {
    /// Accept any staged data (the default).
    Noop,
    /// Accept exactly the given bytes.
    Expect(Vec<u8>),
    /// Accept nothing: every transfer is treated as corrupt.
    Reject,
}

impl Verify {
    /// What this capability accepts.
    pub open spec fn accepts(&self, data: Seq<u8>) -> bool {
        match self {
            Verify::Noop => true,
            Verify::Expect(expected) => data == expected@,
            Verify::Reject => false,
        }
    }
}

/// The default verification: assume the file was downloaded correctly.
pub fn noop() -> (v: Verify)
    ensures
        v == Verify::Noop,
{
    Verify::Noop
}

/// Byte-for-byte comparison of staged data against expected data.
fn bytes_equal(a: &Vec<u8>, b: &Vec<u8>) -> (r: bool)
    ensures
        r == (a@ == b@),
{
    if a.len() != b.len() {
        return false;
    }
    let n = a.len();
    let mut i: usize = 0;
    while i < n
        invariant
            n == a@.len(),
            n == b@.len(),
            i <= n,
            forall|k: int| 0 <= k < i ==> a@[k] == b@[k],
        decreases n - i,
    {
        if a[i] != b[i] {
            return false;
        }
        i += 1;
    }
    proof {
        assert(a@ =~= b@);
    }
    true
}

/// Run the verification gate: decide whether the staged bytes pass the
/// job's verification capability.
pub fn check(v: &Verify, data: &Vec<u8>) -> (r: bool)
    ensures
        r == v.accepts(data@),
{
    match v {
        Verify::Noop => true,
        Verify::Expect(expected) => bytes_equal(data, expected),
        Verify::Reject => false,
    }
}

} // verus!
