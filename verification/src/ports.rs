//! Port sets held in an insertion-ordered set from the `indexmap` crate.
//!
//! The proxy's configuration names ports whose connections skip protocol
//! detection and ports that require a client identity.  Those sets are
//! kept in `indexmap::IndexSet`, as the proxy stores them; the library
//! sees the set through the contracts below.

use vstd::prelude::*;

verus! {

#[verifier::external_type_specification]
#[verifier::external_body]
#[verifier::reject_recursive_types(T)]
#[verifier::reject_recursive_types(S)]
pub struct ExIndexSet<T, S>(indexmap::IndexSet<T, S>);

/// The ports held by an `indexmap::IndexSet` of ports.
pub uninterp spec fn port_set_view(
    s: indexmap::IndexSet<u16, std::collections::hash_map::RandomState>,
) -> Set<u16>;

/// Relies on `indexmap::IndexSet::new`: a fresh set holds nothing.
#[verifier::external_body]
pub fn port_set_new() -> (s: indexmap::IndexSet<u16, std::collections::hash_map::RandomState>)
    ensures
        port_set_view(s) == Set::<u16>::empty(),
{
    indexmap::IndexSet::new()
}

/// Relies on `indexmap::IndexSet::insert`: the value joins the set, and
/// the result says whether it was absent before.
#[verifier::external_body]
pub fn port_set_insert(
    s: &mut indexmap::IndexSet<u16, std::collections::hash_map::RandomState>,
    port: u16,
) -> (fresh: bool)
    ensures
        port_set_view(*final(s)) == port_set_view(*old(s)).insert(port),
        fresh == !port_set_view(*old(s)).contains(port),
{
    s.insert(port)
}

/// Relies on `indexmap::IndexSet::contains`: membership of the value.
#[verifier::external_body]
pub fn port_set_contains(
    s: &indexmap::IndexSet<u16, std::collections::hash_map::RandomState>,
    port: u16,
) -> (r: bool)
    ensures
        r == port_set_view(*s).contains(port),
{
    s.contains(&port)
}

/// The set of ports named by a sequence, last occurrence in.
pub open spec fn ports_set(s: Seq<u16>) -> Set<u16>
    decreases s.len(),
{
    if s.len() == 0 {
        Set::empty()
    } else {
        ports_set(s.drop_last()).insert(s.last())
    }
}

/// A port is in `ports_set(s)` exactly when the sequence names it.
pub proof fn lemma_ports_set_contains(s: Seq<u16>, port: u16)
    ensures
        ports_set(s).contains(port) == s.contains(port),
    decreases s.len(),
{
    if s.len() == 0 {
    } else {
        lemma_ports_set_contains(s.drop_last(), port);
        if s.contains(port) {
            let i = choose|i: int| 0 <= i < s.len() && s[i] == port;
            if i < s.len() - 1 {
                assert(s.drop_last()[i] == port);
                assert(s.drop_last().contains(port));
            }
        } else {
            assert(forall|i: int|
                0 <= i < s.len() - 1 ==> s.drop_last()[i] == s[i] && s[i] != port);
            if s.drop_last().contains(port) {
                let i = choose|i: int| 0 <= i < s.len() - 1 && s.drop_last()[i] == port;
                assert(s[i] == port);
            }
        }
    }
}

/// Builds a port set holding exactly the listed ports.
pub fn port_set_from(ports: &Vec<u16>) -> (s: indexmap::IndexSet<
    u16,
    std::collections::hash_map::RandomState,
>)
    ensures
        port_set_view(s) == ports_set(ports@),
{
    let mut s = port_set_new();
    let mut i: usize = 0;
    while i < ports.len()
        invariant
            i <= ports.len(),
            port_set_view(s) == ports_set(ports@.take(i as int)),
        decreases ports.len() - i,
    {
        port_set_insert(&mut s, ports[i]);
        i = i + 1;
        proof {
            assert(ports@.take(i as int).drop_last() =~= ports@.take(i as int - 1));
            assert(ports@.take(i as int).last() == ports@[i as int - 1]);
        }
    }
    proof {
        assert(ports@.take(ports@.len() as int) =~= ports@);
    }
    s
}

} // verus!
