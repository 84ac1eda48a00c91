//! Incremental parse of a TLS ClientHello for its SNI.
//!
//! The parser judges the bytes consumed so far: either the server name is
//! present, or the bytes cannot be a ClientHello carrying one, or more
//! bytes are needed.  It reads a single TLS record holding a ClientHello
//! handshake and walks its extension list for the server-name entry; bytes
//! past the first record are never examined.

use vstd::prelude::*;

verus! {

/// The big-endian 16-bit integer at position `i`.
pub open spec fn spec_be16(s: Seq<u8>, i: int) -> int {
    s[i] * 256 + s[i + 1]
}

/// The big-endian 24-bit integer at position `i`.
pub open spec fn spec_be24(s: Seq<u8>, i: int) -> int {
    s[i] * 65536 + s[i + 1] * 256 + s[i + 2]
}

/// Reads the big-endian 16-bit integer at position `i`.
pub fn be16(s: &Vec<u8>, i: usize) -> (r: usize)
    requires
        i + 1 < s@.len(),
    ensures
        r == spec_be16(s@, i as int),
        r <= 65535,
{
    let _n: usize = s.len();
    (s[i] as usize) * 256 + (s[i + 1] as usize)
}

/// Reads the big-endian 24-bit integer at position `i`.
pub fn be24(s: &Vec<u8>, i: usize) -> (r: usize)
    requires
        i + 2 < s@.len(),
    ensures
        r == spec_be24(s@, i as int),
        r <= 16777215,
{
    let _n: usize = s.len();
    (s[i] as usize) * 65536 + (s[i + 1] as usize) * 256 + (s[i + 2] as usize)
}

/// Scans the extension list in `[i, end)` for a server-name entry.
/// `None` asks for more bytes; `Some(None)` says no SNI will appear;
/// `Some(Some(name))` is the first server name.
pub open spec fn spec_scan_ext(s: Seq<u8>, i: int, end: int) -> Option<Option<Seq<u8>>>
    decreases end - i,
{
    if i + 4 > end {
        Some(None)
    } else if s.len() < i + 4 {
        None
    } else {
        let et = spec_be16(s, i);
        let el = spec_be16(s, i + 2);
        if et == 0 {
            spec_parse_server_name(s, i + 4)
        } else {
            let next = if i + 4 + el > end {
                end
            } else {
                i + 4 + el
            };
            spec_scan_ext(s, next, end)
        }
    }
}

/// Parses a server-name extension body at `j`: a two-byte list length,
/// then one entry of type 0 (a host name) with its own length and bytes.
pub open spec fn spec_parse_server_name(s: Seq<u8>, j: int) -> Option<Option<Seq<u8>>> {
    if s.len() < j + 3 {
        None
    } else if s[j + 2] != 0 {
        Some(None)
    } else if s.len() < j + 5 {
        None
    } else {
        let nl = spec_be16(s, j + 3);
        if s.len() < j + 5 + nl {
            None
        } else {
            Some(Some(s.subrange(j + 5, j + 5 + nl)))
        }
    }
}

/// Judges the bytes consumed so far as a TLS ClientHello and extracts the
/// SNI: `None` asks for more bytes, `Some(None)` says the bytes are not a
/// ClientHello carrying an SNI, `Some(Some(name))` is the server name.
///
/// Layout: record header (content type 22, major version 3, length),
/// handshake header (type 1, length), legacy version and random, then the
/// session id, cipher suites and compression vectors, then extensions.
pub open spec fn spec_parse_sni(s: Seq<u8>) -> Option<Option<Seq<u8>>> {
    if s.len() < 1 {
        None
    } else if s[0] != 22 {
        Some(None)
    } else if s.len() < 2 {
        None
    } else if s[1] != 3 {
        Some(None)
    } else if s.len() < 6 {
        None
    } else if s[5] != 1 {
        Some(None)
    } else if s.len() < 44 {
        None
    } else {
        let hello_end = 9 + spec_be24(s, 6);
        let sid_len = s[43];
        let cs_off = 44 + sid_len as int;
        if s.len() < cs_off + 2 {
            None
        } else {
            let comp_off = cs_off + 2 + spec_be16(s, cs_off);
            if s.len() < comp_off + 1 {
                None
            } else {
                let ext_off = comp_off + 1 + s[comp_off];
                if ext_off + 2 > hello_end {
                    Some(None)
                } else if s.len() < ext_off + 2 {
                    None
                } else {
                    let exts_end = ext_off + 2 + spec_be16(s, ext_off);
                    spec_scan_ext(s, ext_off + 2, exts_end)
                }
            }
        }
    }
}

/// The verdict of the SNI parser over the bytes seen so far.
#[derive(Clone, Debug, PartialEq, Eq)]
pub enum SniParse {
    Found(Vec<u8>),
    NoSni,
    NeedMore,
}

/// Copies `s[from..to]` into a fresh vector.
fn copy_range(s: &Vec<u8>, from: usize, to: usize) -> (out: Vec<u8>)
    requires
        from <= to <= s@.len(),
    ensures
        out@ == s@.subrange(from as int, to as int),
{
    let mut out: Vec<u8> = Vec::new();
    let mut k: usize = from;
    while k < to
        invariant
            from <= k <= to,
            out@ == s@.subrange(from as int, k as int),
        decreases to - k,
    {
        out.push(s[k]);
        k = k + 1;
        proof {
            assert(out@ =~= s@.subrange(from as int, k as int));
        }
    }
    out
}

/// Parses the server-name extension body at `j`.
fn parse_server_name(s: &Vec<u8>, j: usize) -> (r: SniParse)
    requires
        j + 5 <= usize::MAX - 65535,
    ensures
        match r {
            SniParse::Found(v) => spec_parse_server_name(s@, j as int) == Some(
                Some(v@),
            ),
            SniParse::NoSni => spec_parse_server_name(s@, j as int) == Some(
                None::<Seq<u8>>,
            ),
            SniParse::NeedMore => spec_parse_server_name(s@, j as int) == None::<
                Option<Seq<u8>>,
            >,
        },
{
    if s.len() < j + 3 {
        return SniParse::NeedMore;
    }
    if s[j + 2] != 0 {
        return SniParse::NoSni;
    }
    if s.len() < j + 5 {
        return SniParse::NeedMore;
    }
    let nl = be16(s, j + 3);
    if s.len() < j + 5 + nl {
        return SniParse::NeedMore;
    }
    SniParse::Found(copy_range(s, j + 5, j + 5 + nl))
}

/// Judges the bytes consumed so far as a TLS ClientHello and extracts the
/// server name, mirroring `spec_parse_sni`.
pub fn parse_sni(s: &Vec<u8>) -> (r: SniParse)
    ensures
        match r {
            SniParse::Found(v) => spec_parse_sni(s@) == Some(Some(v@)),
            SniParse::NoSni => spec_parse_sni(s@) == Some(None::<Seq<u8>>),
            SniParse::NeedMore => spec_parse_sni(s@) == None::<Option<Seq<u8>>>,
        },
{
    if s.len() < 1 {
        return SniParse::NeedMore;
    }
    if s[0] != 22 {
        return SniParse::NoSni;
    }
    if s.len() < 2 {
        return SniParse::NeedMore;
    }
    if s[1] != 3 {
        return SniParse::NoSni;
    }
    if s.len() < 6 {
        return SniParse::NeedMore;
    }
    if s[5] != 1 {
        return SniParse::NoSni;
    }
    if s.len() < 44 {
        return SniParse::NeedMore;
    }
    let hello_end: usize = 9 + be24(s, 6);
    let sid_len: usize = s[43] as usize;
    let cs_off: usize = 44 + sid_len;
    if s.len() < cs_off + 2 {
        return SniParse::NeedMore;
    }
    let comp_off: usize = cs_off + 2 + be16(s, cs_off);
    if s.len() < comp_off + 1 {
        return SniParse::NeedMore;
    }
    let ext_off: usize = comp_off + 1 + (s[comp_off] as usize);
    if ext_off + 2 > hello_end {
        return SniParse::NoSni;
    }
    if s.len() < ext_off + 2 {
        return SniParse::NeedMore;
    }
    let exts_end: usize = ext_off + 2 + be16(s, ext_off);
    let ghost start = ext_off + 2;
    let mut i: usize = ext_off + 2;
    loop
        invariant
            ext_off + 2 <= i <= exts_end,
            exts_end <= 16777216 + 9,
            spec_scan_ext(s@, start as int, exts_end as int) == spec_scan_ext(
                s@,
                i as int,
                exts_end as int,
            ),
        decreases exts_end - i,
    {
        if i + 4 > exts_end {
            return SniParse::NoSni;
        }
        if s.len() < i + 4 {
            return SniParse::NeedMore;
        }
        let et = be16(s, i);
        let el = be16(s, i + 2);
        if et == 0 {
            return parse_server_name(s, i + 4);
        }
        let next: usize = i + 4 + el;
        i = if next > exts_end {
            exts_end
        } else {
            next
        };
    }
}

} // verus!
