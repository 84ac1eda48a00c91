//! Request headers as plain pairs of bytes, and the two headers the core
//! consumes: the destination override that keys the outbound target and
//! the required-identity header read by the identity gate.

use vstd::prelude::*;

verus! {

/// `l5d-dst-override`.
pub open spec fn dst_override_header() -> Seq<u8> {
    seq![
        108u8, 53u8, 100u8, 45u8, 100u8, 115u8, 116u8, 45u8, 111u8, 118u8, 101u8, 114u8, 114u8,
        105u8, 100u8, 101u8,
    ]
}

/// The `l5d-dst-override` header name.
pub fn dst_override_header_name() -> (r: Vec<u8>)
    ensures
        r@ == dst_override_header(),
{
    let mut v: Vec<u8> = Vec::new();
    v.push(108);
    v.push(53);
    v.push(100);
    v.push(45);
    v.push(100);
    v.push(115);
    v.push(116);
    v.push(45);
    v.push(111);
    v.push(118);
    v.push(101);
    v.push(114);
    v.push(114);
    v.push(105);
    v.push(100);
    v.push(101);
    proof {
        assert(v@ =~= dst_override_header());
    }
    v
}

/// `l5d-require-id`.
pub open spec fn require_id_header() -> Seq<u8> {
    seq![108u8, 53u8, 100u8, 45u8, 114u8, 101u8, 113u8, 117u8, 105u8, 114u8, 101u8, 45u8, 105u8,
        100u8]
}

/// The `l5d-require-id` header name.
pub fn require_id_header_name() -> (r: Vec<u8>)
    ensures
        r@ == require_id_header(),
{
    let mut v: Vec<u8> = Vec::new();
    v.push(108);
    v.push(53);
    v.push(100);
    v.push(45);
    v.push(114);
    v.push(101);
    v.push(113);
    v.push(117);
    v.push(105);
    v.push(114);
    v.push(101);
    v.push(45);
    v.push(105);
    v.push(100);
    proof {
        assert(v@ =~= require_id_header());
    }
    v
}

/// The first header with the given name, scanning in order.
pub fn find_header(headers: &Vec<(Vec<u8>, Vec<u8>)>, name: &Vec<u8>) -> (r: Option<usize>)
    ensures
        match r {
            Some(i) => {
                &&& i < headers@.len()
                &&& headers@[i as int].0@ == name@
                &&& forall|j: int| 0 <= j < i ==> headers@[j].0@ != name@
            },
            None => forall|j: int| 0 <= j < headers@.len() ==> headers@[j].0@ != name@,
        },
{
    let mut i: usize = 0;
    while i < headers.len()
        invariant
            i <= headers@.len(),
            forall|j: int| 0 <= j < i ==> headers@[j].0@ != name@,
        decreases headers@.len() - i,
    {
        if crate::addr::bytes_eq(&headers[i].0, name) {
            return Some(i);
        }
        i = i + 1;
    }
    None
}

/// The headers without those named `name`; order is kept.
pub open spec fn spec_strip(s: Seq<(Vec<u8>, Vec<u8>)>, name: Seq<u8>) -> Seq<(Vec<u8>, Vec<u8>)>
    decreases s.len(),
{
    if s.len() == 0 {
        Seq::empty()
    } else {
        let r = spec_strip(s.drop_last(), name);
        if s.last().0@ == name {
            r
        } else {
            r.push(s.last())
        }
    }
}

/// Removes every header with the given name, once its value has been
/// consumed, keeping the others in order.
pub fn strip_header(headers: &mut Vec<(Vec<u8>, Vec<u8>)>, name: &Vec<u8>)
    ensures
        final(headers)@ == spec_strip(old(headers)@, name@),
{
    let ghost s0 = headers@;
    let mut i: usize = 0;
    let ghost j: int = 0;
    while i < headers.len()
        invariant
            0 <= i as int <= headers@.len(),
            0 <= j <= s0.len(),
            headers@ == spec_strip(s0.take(j), name@) + s0.skip(j),
            i as int == spec_strip(s0.take(j), name@).len(),
        decreases s0.len() - j,
    {
        proof {
            assert(headers@[i as int] == s0[j]);
            assert(s0.take(j + 1).drop_last() =~= s0.take(j));
            assert(s0.take(j + 1).last() == s0[j]);
        }
        if crate::addr::bytes_eq(&headers[i].0, name) {
            let _gone = headers.remove(i);
            proof {
                j = j + 1;
                assert(headers@ =~= spec_strip(s0.take(j), name@) + s0.skip(j));
            }
        } else {
            i = i + 1;
            proof {
                j = j + 1;
                assert(headers@ =~= spec_strip(s0.take(j), name@) + s0.skip(j));
            }
        }
    }
    proof {
        assert(s0.take(j) =~= s0);
        assert(headers@ =~= spec_strip(s0, name@));
    }
}

/// No stripped header survives a strip.
pub proof fn lemma_strip_removes_all(s: Seq<(Vec<u8>, Vec<u8>)>, name: Seq<u8>)
    ensures
        forall|i: int|
            0 <= i < spec_strip(s, name).len() ==> (#[trigger] spec_strip(s, name)[i]).0@ != name,
    decreases s.len(),
{
    if s.len() == 0 {
    } else {
        lemma_strip_removes_all(s.drop_last(), name);
        let r = spec_strip(s.drop_last(), name);
        if s.last().0@ != name {
            assert(forall|i: int| 0 <= i < r.len() ==> (#[trigger] r.push(s.last())[i]) == r[i]);
            assert(r.push(s.last())[r.len() as int] == s.last());
        }
    }
}

} // verus!
