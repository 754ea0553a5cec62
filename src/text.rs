//! Strings between the host's conventions and the driver's NUL-terminated bytes.

use vstd::prelude::*;
use vstd::string::StringSliceAdditionalSpecFns;
use vstd::utf8::{decode_utf8, valid_utf8};

verus! {

/// The bytes of a NUL-terminated string held in `b`: those before the first
/// zero byte, or all of `b` when it holds none.
pub open spec fn c_prefix(b: Seq<u8>) -> Seq<u8>
    decreases b.len(),
{
    if b.len() == 0 || b[0] == 0 {
        Seq::empty()
    } else {
        seq![b[0]] + c_prefix(b.drop_first())
    }
}

proof fn lemma_c_prefix_step(b: Seq<u8>, i: int)
    requires
        0 <= i < b.len(),
        b[i] != 0,
    ensures
        c_prefix(b.skip(i)) == seq![b[i]] + c_prefix(b.skip(i + 1)),
{
    assert(b.skip(i).drop_first() =~= b.skip(i + 1));
}

/// The bytes of the NUL-terminated string that a buffer filled by the driver holds.
pub fn c_bytes(b: &[u8]) -> (r: Vec<u8>)
    ensures
        r@ == c_prefix(b@),
{
    let mut r: Vec<u8> = Vec::new();
    let mut i: usize = 0;
    proof {
        assert(b@.skip(0) =~= b@);
    }
    while i < b.len() && b[i] != 0
        invariant
            i <= b@.len(),
            r@ == b@.take(i as int),
            c_prefix(b@) == r@ + c_prefix(b@.skip(i as int)),
        decreases b@.len() - i,
    {
        let ghost before = r@;
        proof {
            lemma_c_prefix_step(b@, i as int);
            assert(before + (seq![b@[i as int]] + c_prefix(b@.skip(i + 1))) =~= before.push(
                b@[i as int],
            ) + c_prefix(b@.skip(i + 1)));
        }
        r.push(b[i]);
        i = i + 1;
        proof {
            assert(r@ =~= b@.take(i as int));
        }
    }
    assert(c_prefix(b@.skip(i as int)) == Seq::<u8>::empty());
    assert(c_prefix(b@) =~= r@);
    r
}

/// Relies on `String::from_utf8`: it accepts exactly the valid UTF-8 byte
/// sequences and decodes them.
#[verifier::external_body]
fn utf8_string(b: Vec<u8>) -> (r: Option<String>)
    ensures
        r is Some <==> valid_utf8(b@),
        r matches Some(s) ==> s@ == decode_utf8(b@),
{
    String::from_utf8(b).ok()
}

/// The text of the NUL-terminated string that a buffer filled by the driver
/// holds; `None` when those bytes are no valid UTF-8.
pub fn c_text(b: &[u8]) -> (r: Option<String>)
    ensures
        r is Some <==> valid_utf8(c_prefix(b@)),
        r matches Some(s) ==> s@ == decode_utf8(c_prefix(b@)),
{
    utf8_string(c_bytes(b))
}

/// The NUL-terminated bytes of `s`, as the driver takes a name; `None` when
/// `s` holds a NUL character itself.
pub fn c_string(s: &str) -> (r: Option<Vec<u8>>)
    ensures
        match r {
            Some(v) => {
                &&& forall|i: int| 0 <= i < s.spec_bytes().len() ==> s.spec_bytes()[i] != 0
                &&& v@ == s.spec_bytes().push(0)
            },
            None => exists|i: int| 0 <= i < s.spec_bytes().len() && s.spec_bytes()[i] == 0,
        },
{
    let bytes = s.as_bytes();
    let mut v: Vec<u8> = Vec::new();
    let mut i: usize = 0;
    while i < bytes.len()
        invariant
            bytes@ == s.spec_bytes(),
            i <= bytes@.len(),
            v@ == bytes@.take(i as int),
            forall|j: int| 0 <= j < i ==> bytes@[j] != 0,
        decreases bytes@.len() - i,
    {
        if bytes[i] == 0 {
            return None;
        }
        v.push(bytes[i]);
        i = i + 1;
        proof {
            assert(v@ =~= bytes@.take(i as int));
        }
    }
    v.push(0);
    proof {
        assert(bytes@.take(i as int) =~= bytes@);
    }
    Some(v)
}

} // verus!
