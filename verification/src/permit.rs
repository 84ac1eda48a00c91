//! The discovery allow-list: which destinations may be resolved.
//!
//! A destination is permitted when its name ends in a configured suffix
//! or its socket address lies in a configured network; anything else is
//! rejected before discovery is asked.

use crate::addr::Addr;
use crate::addr::InetAddr;
use crate::addr::IpNet;
use crate::addr::Suffix;
use crate::errors::ErrorKind;
use vstd::prelude::*;

verus! {

/// Permits destinations matching the configured name suffixes or
/// networks; everything else fails with the configured error kind.
#[derive(Debug)]
pub struct PermitConfiguredDsts {
    pub name_suffixes: Vec<Suffix>,
    pub networks: Vec<IpNet>,
    pub error: ErrorKind,
}

impl PermitConfiguredDsts {
    /// Every configured network is well formed.
    pub open spec fn wf(&self) -> bool {
        forall|i: int| 0 <= i < self.networks@.len() ==> (#[trigger] self.networks@[i]).wf()
    }

    /// Whether a socket destination lies in some configured network.
    pub open spec fn spec_permits_sock(&self, sa: InetAddr) -> bool {
        exists|i: int| 0 <= i < self.networks@.len() && (#[trigger] self.networks@[i]).spec_contains(
            sa.ip,
        )
    }

    /// Whether a named destination matches some configured suffix.
    pub open spec fn spec_permits_name(&self, host: Seq<u8>) -> bool {
        exists|i: int| 0 <= i < self.name_suffixes@.len()
            && (#[trigger] self.name_suffixes@[i]).spec_contains(host)
    }

    /// An allow-list rejecting with the discovery-rejected kind.
    pub fn new(name_suffixes: Vec<Suffix>, networks: Vec<IpNet>) -> (r: PermitConfiguredDsts)
        requires
            forall|i: int| 0 <= i < networks@.len() ==> (#[trigger] networks@[i]).wf(),
        ensures
            r.name_suffixes == name_suffixes,
            r.networks == networks,
            r.error == ErrorKind::DiscoveryRejected,
            r.wf(),
    {
        PermitConfiguredDsts { name_suffixes, networks, error: ErrorKind::DiscoveryRejected }
    }

    /// The same allow-list rejecting with another error kind.
    pub fn with_error(self, error: ErrorKind) -> (r: PermitConfiguredDsts)
        ensures
            r.name_suffixes == self.name_suffixes,
            r.networks == self.networks,
            r.error == error,
    {
        PermitConfiguredDsts {
            name_suffixes: self.name_suffixes,
            networks: self.networks,
            error,
        }
    }

    /// Gates one destination: a permitted destination passes through
    /// unchanged, and anything else fails with the configured kind.
    pub fn filter(&self, addr: Addr) -> (r: Result<Addr, ErrorKind>)
        requires
            self.wf(),
        ensures
            ({
                let permitted = match &addr {
                    Addr::Sock(sa) => self.spec_permits_sock(*sa),
                    Addr::Name(na) => self.spec_permits_name(na.host@),
                };
                if permitted {
                    r == Ok::<Addr, ErrorKind>(addr)
                } else {
                    r == Err::<Addr, ErrorKind>(self.error)
                }
            }),
    {
        let permitted = match &addr {
            Addr::Sock(sa) => self.permits_sock(sa),
            Addr::Name(na) => self.permits_name(&na.host),
        };
        if permitted {
            Ok(addr)
        } else {
            Err(self.error)
        }
    }

    /// Whether a socket destination lies in some configured network.
    fn permits_sock(&self, sa: &InetAddr) -> (r: bool)
        requires
            self.wf(),
        ensures
            r == self.spec_permits_sock(*sa),
    {
        let mut i: usize = 0;
        while i < self.networks.len()
            invariant
                i <= self.networks@.len(),
                forall|j: int| 0 <= j < i ==> !(#[trigger] self.networks@[j]).spec_contains(sa.ip),
            decreases self.networks@.len() - i,
        {
            if self.networks[i].contains(sa.ip) {
                return true;
            }
            i = i + 1;
        }
        false
    }

    /// Whether a named destination matches some configured suffix.
    fn permits_name(&self, host: &Vec<u8>) -> (r: bool)
        ensures
            r == self.spec_permits_name(host@),
    {
        let mut i: usize = 0;
        while i < self.name_suffixes.len()
            invariant
                i <= self.name_suffixes@.len(),
                forall|j: int|
                    0 <= j < i ==> !(#[trigger] self.name_suffixes@[j]).spec_contains(host@),
            decreases self.name_suffixes@.len() - i,
        {
            if self.name_suffixes[i].contains(host) {
                return true;
            }
            i = i + 1;
        }
        false
    }
}

} // verus!
