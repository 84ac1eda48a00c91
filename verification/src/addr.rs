//! Plain-value model of network addresses.
//!
//! The pipeline routes on IPv4 socket addresses and on named authorities.
//! An IP address is held as its 32-bit integer value and a name as its byte
//! form, so every routing decision is a function on plain values.

use vstd::prelude::*;

verus! {

/// The loopback IPv4 address, `127.0.0.1`, as a 32-bit integer.
pub const LOOPBACK_IP: u32 = 0x7f00_0001;

/// An IPv4 socket address.
#[derive(Clone, Copy, Debug, PartialEq, Eq, Hash, Structural)]
pub struct InetAddr {
    pub ip: u32,
    pub port: u16,
}

/// A named authority: a DNS name plus a port.
#[derive(Clone, Debug, PartialEq, Eq, Hash)]
pub struct NameAddr {
    pub host: Vec<u8>,
    pub port: u16,
}

/// A routable destination: either a resolved socket or a named authority.
#[derive(Clone, Debug, PartialEq, Eq, Hash)]
pub enum Addr {
    Sock(InetAddr),
    Name(NameAddr),
}

/// An IPv4 network in CIDR form: the network address and a prefix length.
#[derive(Clone, Copy, Debug, PartialEq, Eq, Hash, Structural)]
pub struct IpNet {
    pub addr: u32,
    pub prefix: u8,
}

/// A DNS name suffix.  The bare root suffix matches every name.
#[derive(Clone, Debug, PartialEq, Eq, Hash)]
pub enum Suffix {
    Root,
    Name(Vec<u8>),
}

/// A non-root suffix matches a name when they are equal, or when the name
/// ends with a dot (46) followed by the suffix.
pub open spec fn spec_suffix_match(suf: Seq<u8>, name: Seq<u8>) -> bool {
    ||| name == suf
    ||| (name.len() > suf.len() + 1 && name.skip(name.len() - suf.len()) == suf && name[name.len()
        - suf.len() - 1] == 46u8)
}

/// Appends every byte of `chunk` to `dst`.
pub fn append_bytes(dst: &mut Vec<u8>, chunk: &Vec<u8>)
    ensures
        final(dst)@ == old(dst)@ + chunk@,
{
    let mut k: usize = 0;
    while k < chunk.len()
        invariant
            k <= chunk.len(),
            dst@ == old(dst)@ + chunk@.take(k as int),
        decreases chunk.len() - k,
    {
        dst.push(chunk[k]);
        k = k + 1;
        proof {
            assert(dst@ =~= old(dst)@ + chunk@.take(k as int));
        }
    }
    proof {
        assert(old(dst)@ + chunk@.take(chunk@.len() as int) =~= old(dst)@ + chunk@);
    }
}

/// A copy of the given bytes, with the copy's contents pinned down.
pub fn clone_bytes(v: &Vec<u8>) -> (r: Vec<u8>)
    ensures
        r@ == v@,
{
    let mut out: Vec<u8> = Vec::new();
    let mut i: usize = 0;
    while i < v.len()
        invariant
            i <= v.len(),
            out@ == v@.take(i as int),
        decreases v.len() - i,
    {
        out.push(v[i]);
        i = i + 1;
        proof {
            assert(out@ =~= v@.take(i as int));
        }
    }
    proof {
        assert(v@.take(v@.len() as int) =~= v@);
    }
    out
}

/// Whether two byte strings hold the same bytes.
pub fn bytes_eq(a: &Vec<u8>, b: &Vec<u8>) -> (r: bool)
    ensures
        r == (a@ == b@),
{
    if a.len() != b.len() {
        return false;
    }
    let mut i: usize = 0;
    while i < a.len()
        invariant
            i <= a.len(),
            a.len() == b.len(),
            forall|j: int| 0 <= j < i ==> a@[j] == b@[j],
        decreases a.len() - i,
    {
        if a[i] != b[i] {
            return false;
        }
        i = i + 1;
    }
    proof {
        assert(a@ =~= b@);
    }
    true
}

/// The decimal digits of `n`, most significant first.
pub open spec fn spec_dec(n: nat) -> Seq<u8>
    decreases n,
{
    if n < 10 {
        seq![(48 + n) as u8]
    } else {
        spec_dec(n / 10) + seq![(48 + n % 10) as u8]
    }
}

/// Appends the decimal digits of `n` to `out`.
pub fn push_dec(out: &mut Vec<u8>, n: u16)
    ensures
        final(out)@ == old(out)@ + spec_dec(n as nat),
    decreases n,
{
    if n < 10 {
        out.push(48 + n as u8);
    } else {
        push_dec(out, n / 10);
        let d: u8 = 48 + (n % 10) as u8;
        out.push(d);
        proof {
            assert(out@ =~= old(out)@ + spec_dec(n as nat));
        }
    }
}

/// The HTTP authority form of a host and port: `host:port` (58 is `:`).
pub open spec fn spec_authority_of(host: Seq<u8>, port: u16) -> Seq<u8> {
    host + seq![58u8] + spec_dec(port as nat)
}

/// Copies `v[from..to]` into a fresh vector.
pub fn sub_bytes(v: &Vec<u8>, from: usize, to: usize) -> (out: Vec<u8>)
    requires
        from <= to <= v@.len(),
    ensures
        out@ == v@.subrange(from as int, to as int),
{
    let mut out: Vec<u8> = Vec::new();
    let mut k: usize = from;
    while k < to
        invariant
            from <= k <= to,
            out@ == v@.subrange(from as int, k as int),
        decreases to - k,
    {
        out.push(v[k]);
        k = k + 1;
        proof {
            assert(out@ =~= v@.subrange(from as int, k as int));
        }
    }
    out
}

impl NameAddr {
    /// The view of this authority as `host` and `port`.
    pub open spec fn spec_authority(&self) -> Seq<u8> {
        spec_authority_of(self.host@, self.port)
    }

    /// Renders the authority in HTTP form, `host:port` (58 is `:`).
    pub fn as_http_authority(&self) -> (r: Vec<u8>)
        ensures
            r@ == self.spec_authority(),
    {
        let mut out: Vec<u8> = Vec::new();
        let mut i: usize = 0;
        while i < self.host.len()
            invariant
                i <= self.host.len(),
                out@ == self.host@.take(i as int),
            decreases self.host.len() - i,
        {
            out.push(self.host[i]);
            i = i + 1;
            proof {
                assert(out@ =~= self.host@.take(i as int));
            }
        }
        proof {
            assert(out@ =~= self.host@);
        }
        out.push(58u8);
        push_dec(&mut out, self.port);
        out
    }

    /// Whether the other authority holds the same name and port.
    pub fn same(&self, other: &NameAddr) -> (r: bool)
        ensures
            r == (self.host@ == other.host@ && self.port == other.port),
    {
        self.port == other.port && bytes_eq(&self.host, &other.host)
    }
}

impl Addr {
    /// The port of the destination, whichever form it takes.
    pub open spec fn spec_port(&self) -> u16 {
        match self {
            Addr::Sock(sa) => sa.port,
            Addr::Name(na) => na.port,
        }
    }

    /// Returns the port of the destination.
    pub fn port(&self) -> (p: u16)
        ensures
            p == self.spec_port(),
    {
        match self {
            Addr::Sock(sa) => sa.port,
            Addr::Name(na) => na.port,
        }
    }

    /// The named authority, when the destination is a name.
    pub fn name_addr(&self) -> (r: Option<&NameAddr>)
        ensures
            match r {
                Some(na) => self matches Addr::Name(n) && n == na,
                None => self is Sock,
            },
    {
        match self {
            Addr::Sock(_) => None,
            Addr::Name(na) => Some(na),
        }
    }
}

impl IpNet {
    /// A network is well formed when its prefix length fits an IPv4 address.
    pub open spec fn wf(&self) -> bool {
        self.prefix <= 32
    }

    /// Whether `ip` lies in the network: the two addresses agree on the
    /// first `prefix` bits.
    pub open spec fn spec_contains(&self, ip: u32) -> bool {
        if self.prefix == 0 {
            true
        } else {
            self.addr >> ((32 - self.prefix) as u32) == ip >> ((32 - self.prefix) as u32)
        }
    }

    /// Whether `ip` lies in this network.
    pub fn contains(&self, ip: u32) -> (r: bool)
        requires
            self.wf(),
        ensures
            r == self.spec_contains(ip),
    {
        if self.prefix == 0 {
            true
        } else {
            let shift: u32 = (32 - self.prefix) as u32;
            self.addr >> shift == ip >> shift
        }
    }
}

impl Suffix {
    /// Whether the suffix matches `name`: the root suffix matches all names;
    /// otherwise the name equals the suffix or ends with a dot (46) followed
    /// by the suffix.
    pub open spec fn spec_contains(&self, name: Seq<u8>) -> bool {
        match self {
            Suffix::Root => true,
            Suffix::Name(suf) => spec_suffix_match(suf@, name),
        }
    }

    /// Whether the suffix matches `name`.
    pub fn contains(&self, name: &Vec<u8>) -> (r: bool)
        ensures
            r == self.spec_contains(name@),
    {
        match self {
            Suffix::Root => true,
            Suffix::Name(suf) => {
                if name.len() == suf.len() {
                    let eq = bytes_eq(name, suf);
                    proof {
                        if name@ != suf@ {
                            assert(!self.spec_contains(name@));
                        }
                    }
                    eq
                } else if name.len() >= 1 && name.len() - 1 > suf.len() {
                    let start: usize = name.len() - suf.len();
                    if name[start - 1] != 46u8 {
                        proof {
                            assert(name@ != suf@);
                        }
                        return false;
                    }
                    let mut i: usize = 0;
                    while i < suf.len()
                        invariant
                            i <= suf.len(),
                            start == name.len() - suf.len(),
                            name.len() > suf.len() + 1,
                            self.spec_contains(name@) == spec_suffix_match(suf@, name@),
                            forall|j: int| 0 <= j < i ==> name@[start + j] == suf@[j],
                        decreases suf.len() - i,
                    {
                        if name[start + i] != suf[i] {
                            proof {
                                assert(name@ != suf@);
                                assert(name@.skip(start as int)[i as int] == name@[start + i]);
                                assert(name@.skip(start as int) != suf@);
                                assert(name@.skip(name@.len() - suf@.len()) != suf@);
                                assert(!spec_suffix_match(suf@, name@));
                            }
                            return false;
                        }
                        i = i + 1;
                    }
                    proof {
                        assert(name@.skip(start as int) =~= suf@);
                        assert(name@ != suf@);
                    }
                    true
                } else {
                    proof {
                        assert(name@.len() != suf@.len());
                        assert(name@ != suf@);
                    }
                    false
                }
            },
        }
    }
}

} // verus!
