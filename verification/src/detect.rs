//! Protocol sniffing over peeked bytes.
//!
//! Two detectors run at the front of the pipeline, each against a buffer of
//! bytes already read from the connection: one looks for a TLS ClientHello
//! and extracts its SNI, the other classifies an HTTP/2 connection preface
//! or an HTTP/1 request line.  Both are pure functions of the consumed
//! prefix; the surrounding machines keep every consumed byte so the stream
//! handed downstream is exactly the original one.

use vstd::prelude::*;

verus! {

/// The HTTP protocol version determined by preamble sniffing.
#[derive(Clone, Copy, Debug, PartialEq, Eq, Hash, Structural)]
pub enum HttpVersion {
    Http1,
    H2,
}

/// The verdict of a detector over the bytes seen so far.
#[derive(Clone, Copy, Debug, PartialEq, Eq, Structural)]
pub enum Classify {
    Matched(HttpVersion),
    NotHttp,
    NeedMore,
}

/// The 24 bytes of the HTTP/2 connection preface,
/// `PRI * HTTP/2.0\r\n\r\nSM\r\n\r\n`.
pub open spec fn h2_preface() -> Seq<u8> {
    seq![
        80u8, 82u8, 73u8, 32u8, 42u8, 32u8, 72u8, 84u8, 84u8, 80u8, 47u8, 50u8, 46u8, 48u8, 13u8,
        10u8, 13u8, 10u8, 83u8, 77u8, 13u8, 10u8, 13u8, 10u8,
    ]
}

/// The byte of the HTTP/2 connection preface at position `i`.
fn h2_preface_byte(i: usize) -> (b: u8)
    requires
        i < 24,
    ensures
        b == h2_preface()[i as int],
{
    let bytes: [u8; 24] = [
        80u8, 82u8, 73u8, 32u8, 42u8, 32u8, 72u8, 84u8, 84u8, 80u8, 47u8, 50u8, 46u8, 48u8, 13u8,
        10u8, 13u8, 10u8, 83u8, 77u8, 13u8, 10u8, 13u8, 10u8,
    ];
    bytes[i]
}

/// The 7 bytes of the HTTP/1 version marker, `HTTP/1.`.
pub open spec fn http1_marker() -> Seq<u8> {
    seq![72u8, 84u8, 84u8, 80u8, 47u8, 49u8, 46u8]
}

/// The byte of the HTTP/1 version marker at position `i`.
fn http1_marker_byte(i: usize) -> (b: u8)
    requires
        i < 7,
    ensures
        b == http1_marker()[i as int],
{
    let bytes: [u8; 7] = [72u8, 84u8, 84u8, 80u8, 47u8, 49u8, 46u8];
    bytes[i]
}

/// The first position at or after `from` where `s` holds `c`, or -1.
pub open spec fn spec_find(s: Seq<u8>, c: u8, from: int) -> int
    decreases s.len() - from,
{
    if from < 0 || from >= s.len() {
        -1
    } else if s[from] == c {
        from
    } else {
        spec_find(s, c, from + 1)
    }
}

/// Finds the first position at or after `from` where `s` holds `c`.
pub fn find_byte(s: &Vec<u8>, c: u8, from: usize) -> (r: Option<usize>)
    ensures
        match r {
            Some(i) => from <= i < s@.len() && spec_find(s@, c, from as int) == i,
            None => spec_find(s@, c, from as int) == -1,
        },
{
    let mut i: usize = from;
    while i < s.len()
        invariant
            from <= i,
            spec_find(s@, c, from as int) == spec_find(s@, c, i as int),
        decreases s@.len() - i,
    {
        if s[i] == c {
            return Some(i);
        }
        i = i + 1;
    }
    None
}

/// A found position lies between `from` and the end of `s`.
pub proof fn lemma_find_range(s: Seq<u8>, c: u8, from: int)
    ensures
        spec_find(s, c, from) == -1 || (0 <= from <= spec_find(s, c, from) < s.len()),
    decreases s.len() - from,
{
    if from < 0 || from >= s.len() {
    } else if s[from] == c {
    } else {
        lemma_find_range(s, c, from + 1);
    }
}

/// Whether `s` agrees with the HTTP/2 preface on its first `n` bytes.
pub open spec fn preface_agree(s: Seq<u8>, n: int) -> bool {
    forall|i: int| 0 <= i < n ==> s[i] == h2_preface()[i]
}

/// Whether an ASCII byte is an upper-case letter, the shape of an HTTP
/// method token as proxies emit them.
pub open spec fn is_method_byte(b: u8) -> bool {
    65 <= b <= 90
}

/// Whether `line` has the shape of an HTTP/1 request line:
/// a non-empty upper-case method, a space, a non-empty target without
/// spaces, a space, then exactly `HTTP/1.0` or `HTTP/1.1`.
pub open spec fn spec_is_request_line(line: Seq<u8>) -> bool {
    let sp1 = spec_find(line, 32u8, 0);
    let sp2 = spec_find(line, 32u8, sp1 + 1);
    &&& sp1 >= 1
    &&& (forall|i: int| 0 <= i < sp1 ==> is_method_byte(line[i]))
    &&& sp2 > sp1 + 1
    &&& line.len() == sp2 + 9
    &&& line.subrange(sp2 + 1, sp2 + 8) == http1_marker()
    &&& (line[sp2 + 8] == 48u8 || line[sp2 + 8] == 49u8)
}

/// The classification of a consumed prefix `s`:
/// `None` when more bytes are needed, `Some(None)` when the prefix is
/// not HTTP, `Some(Some(v))` when version `v` was recognized.  An HTTP/2
/// preface wins as soon as 24 bytes agree; otherwise the bytes up to the
/// first carriage return are judged as a request line.
pub open spec fn spec_classify_http(s: Seq<u8>) -> Option<Option<HttpVersion>> {
    if s.len() < 24 && preface_agree(s, s.len() as int) {
        None
    } else if s.len() >= 24 && preface_agree(s, 24) {
        Some(Some(HttpVersion::H2))
    } else {
        let k = spec_find(s, 13u8, 0);
        if k < 0 {
            None
        } else if spec_is_request_line(s.take(k)) {
            Some(Some(HttpVersion::Http1))
        } else {
            Some(None)
        }
    }
}

/// Judges a complete line (the bytes before the first carriage return)
/// as an HTTP/1 request line.
fn is_request_line(s: &Vec<u8>, end: usize) -> (r: bool)
    requires
        end <= s@.len(),
    ensures
        r == spec_is_request_line(s@.take(end as int)),
{
    let ghost line = s@.take(end as int);
    let sp1 = match find_byte_before(s, 32u8, 0, end) {
        Some(i) => i,
        None => {
            return false;
        },
    };
    if sp1 < 1 {
        return false;
    }
    let mut i: usize = 0;
    while i < sp1
        invariant
            i <= sp1,
            sp1 < end,
            forall|j: int| 0 <= j < i ==> is_method_byte(line[j]),
        decreases sp1 - i,
    {
        let b = s[i];
        if !(65 <= b && b <= 90) {
            proof {
                assert(!is_method_byte(line[i as int]));
                assert(!spec_is_request_line(line)) by {
                    if spec_is_request_line(line) {
                        assert(is_method_byte(line[i as int]));
                    }
                }
            }
            return false;
        }
        i = i + 1;
    }
    let sp2 = match find_byte_before(s, 32u8, sp1 + 1, end) {
        Some(i2) => i2,
        None => {
            return false;
        },
    };
    if !(sp2 > sp1 + 1) {
        return false;
    }
    if !(end >= 9 && end - 9 == sp2) {
        return false;
    }
    let mut j: usize = 0;
    while j < 7
        invariant
            j <= 7,
            sp2 + 9 == end <= s@.len(),
            forall|t: int| 0 <= t < j ==> line[sp2 + 1 + t] == http1_marker()[t],
        decreases 7 - j,
    {
        if s[sp2 + 1 + j] != http1_marker_byte(j) {
            proof {
                assert(line.subrange(sp2 + 1, sp2 + 8)[j as int] != http1_marker()[j as int]);
            }
            return false;
        }
        j = j + 1;
    }
    proof {
        assert(line.subrange(sp2 + 1, sp2 + 8) =~= http1_marker());
    }
    let v = s[sp2 + 8];
    v == 48 || v == 49
}

/// The first position in `from..end` where `s` holds `c`; the search is
/// bounded by `end` so it speaks of `s` truncated to `end`.
fn find_byte_before(s: &Vec<u8>, c: u8, from: usize, end: usize) -> (r: Option<usize>)
    requires
        end <= s@.len(),
    ensures
        match r {
            Some(i) => from <= i < end && spec_find(s@.take(end as int), c, from as int) == i,
            None => spec_find(s@.take(end as int), c, from as int) == -1,
        },
{
    let ghost line = s@.take(end as int);
    let mut i: usize = from;
    while i < end
        invariant
            from <= i,
            spec_find(line, c, from as int) == spec_find(line, c, i as int),
        decreases end - i,
    {
        if s[i] == c {
            return Some(i);
        }
        i = i + 1;
    }
    None
}

/// Classifies the consumed prefix as HTTP/2, HTTP/1, not HTTP, or not yet
/// decidable.
pub fn classify_http(s: &Vec<u8>) -> (c: Classify)
    ensures
        match c {
            Classify::Matched(v) => spec_classify_http(s@) == Some(Some(v)),
            Classify::NotHttp => spec_classify_http(s@) == Some(None::<HttpVersion>),
            Classify::NeedMore => spec_classify_http(s@) == None::<Option<HttpVersion>>,
        },
{
    let n = if s.len() < 24 {
        s.len()
    } else {
        24
    };
    let mut i: usize = 0;
    let mut agree = true;
    while i < n
        invariant
            i <= n,
            agree ==> preface_agree(s@, i as int),
            !agree ==> !preface_agree(s@, n as int),
        decreases n - i,
    {
        if s[i] != h2_preface_byte(i) {
            agree = false;
            proof {
                assert(!preface_agree(s@, n as int)) by {
                    if preface_agree(s@, n as int) {
                        assert(s@[i as int] == h2_preface()[i as int]);
                    }
                }
            }
            i = n;
        } else {
            proof {
                assert(preface_agree(s@, i as int) ==> preface_agree(s@, (i + 1) as int));
            }
            i = i + 1;
        }
    }
    if agree {
        if s.len() < 24 {
            return Classify::NeedMore;
        }
        return Classify::Matched(HttpVersion::H2);
    }
    match find_byte(s, 13u8, 0) {
        None => Classify::NeedMore,
        Some(k) => {
            if is_request_line(s, k) {
                Classify::Matched(HttpVersion::Http1)
            } else {
                Classify::NotHttp
            }
        },
    }
}

/// Marker for the server-side SNI detector driven by the accept stack.
#[derive(Clone, Copy, Debug, Default, PartialEq, Eq, Structural)]
pub struct DetectSni;

/// The buffer capacity granted to a detector, the bound past which an
/// undecided prefix is treated as not a match.
pub const DETECT_BUFFER_CAPACITY: usize = 8192;

/// What an SNI detector does after a read.
#[derive(Clone, Debug, PartialEq, Eq)]
pub enum SniStep {
    /// Detection ended; the optional server name is the result.
    Deliver(Option<Vec<u8>>),
    /// The prefix is not decidable yet; read more bytes.
    NeedRead,
}

/// The SNI detector: it buffers every byte read from the connection and
/// re-parses after each read, so the prefix it retains is exactly the
/// consumed part of the stream.
#[derive(Clone, Debug)]
pub struct SniDetector {
    pub buf: Vec<u8>,
    pub cap: usize,
}

impl SniDetector {
    /// A fresh detector with an empty buffer and capacity `cap`.
    pub fn new(cap: usize) -> (d: SniDetector)
        ensures
            d.buf@ == Seq::<u8>::empty(),
            d.cap == cap,
    {
        SniDetector { buf: Vec::new(), cap }
    }

    /// Consumes one read of bytes; an empty read means end of stream.
    /// Every consumed byte is retained in order, and the verdict follows
    /// the parse of the whole consumed prefix: an undecided prefix asks
    /// for another read until the stream ends or the capacity is spent.
    pub fn advance(&mut self, chunk: &Vec<u8>) -> (step: SniStep)
        ensures
            final(self).buf@ == old(self).buf@ + chunk@,
            final(self).cap == old(self).cap,
            match step {
                SniStep::NeedRead => {
                    &&& crate::client_hello::spec_parse_sni(final(self).buf@) is None
                    &&& chunk@.len() > 0
                    &&& final(self).buf@.len() < final(self).cap
                },
                SniStep::Deliver(found) => match found {
                    Some(v) => crate::client_hello::spec_parse_sni(final(self).buf@) == Some(
                        Some(v@),
                    ),
                    None => {
                        ||| crate::client_hello::spec_parse_sni(final(self).buf@) == Some(
                            None::<Seq<u8>>,
                        )
                        ||| (crate::client_hello::spec_parse_sni(final(self).buf@) is None && (
                        chunk@.len() == 0 || final(self).buf@.len() >= final(self).cap))
                    },
                },
            },
    {
        let eof = chunk.len() == 0;
        crate::addr::append_bytes(&mut self.buf, chunk);
        match crate::client_hello::parse_sni(&self.buf) {
            crate::client_hello::SniParse::Found(v) => SniStep::Deliver(Some(v)),
            crate::client_hello::SniParse::NoSni => SniStep::Deliver(None),
            crate::client_hello::SniParse::NeedMore => {
                if eof || self.buf.len() >= self.cap {
                    SniStep::Deliver(None)
                } else {
                    SniStep::NeedRead
                }
            },
        }
    }
}

/// What an HTTP detector does after a read.
#[derive(Clone, Copy, Debug, PartialEq, Eq, Structural)]
pub enum HttpStep {
    /// Detection ended; the optional version is the result.
    Deliver(Option<HttpVersion>),
    /// The prefix is not decidable yet; read more bytes.
    NeedRead,
}

/// The HTTP preamble detector, buffering reads like the SNI detector.
#[derive(Clone, Debug)]
pub struct HttpDetector {
    pub buf: Vec<u8>,
    pub cap: usize,
}

impl HttpDetector {
    /// A fresh detector with an empty buffer and capacity `cap`.
    pub fn new(cap: usize) -> (d: HttpDetector)
        ensures
            d.buf@ == Seq::<u8>::empty(),
            d.cap == cap,
    {
        HttpDetector { buf: Vec::new(), cap }
    }

    /// Consumes one read of bytes; an empty read means end of stream.
    /// Every consumed byte is retained in order, and the verdict follows
    /// the classification of the whole consumed prefix.
    pub fn advance(&mut self, chunk: &Vec<u8>) -> (step: HttpStep)
        ensures
            final(self).buf@ == old(self).buf@ + chunk@,
            final(self).cap == old(self).cap,
            match step {
                HttpStep::NeedRead => {
                    &&& spec_classify_http(final(self).buf@) is None
                    &&& chunk@.len() > 0
                    &&& final(self).buf@.len() < final(self).cap
                },
                HttpStep::Deliver(found) => match found {
                    Some(v) => spec_classify_http(final(self).buf@) == Some(Some(v)),
                    None => {
                        ||| spec_classify_http(final(self).buf@) == Some(None::<HttpVersion>)
                        ||| (spec_classify_http(final(self).buf@) is None && (chunk@.len() == 0
                        || final(self).buf@.len() >= final(self).cap))
                    },
                },
            },
    {
        let eof = chunk.len() == 0;
        crate::addr::append_bytes(&mut self.buf, chunk);
        match classify_http(&self.buf) {
            Classify::Matched(v) => HttpStep::Deliver(Some(v)),
            Classify::NotHttp => HttpStep::Deliver(None),
            Classify::NeedMore => {
                if eof || self.buf.len() >= self.cap {
                    HttpStep::Deliver(None)
                } else {
                    HttpStep::NeedRead
                }
            },
        }
    }
}

/// The buffer a detector holds after consuming each read in `chunks`,
/// starting from `b0`.
pub open spec fn spec_fed(b0: Seq<u8>, chunks: Seq<Seq<u8>>) -> Seq<u8>
    decreases chunks.len(),
{
    if chunks.len() == 0 {
        b0
    } else {
        spec_fed(b0 + chunks[0], chunks.skip(1))
    }
}

/// Feeding reads concatenates them after the starting buffer.
proof fn lemma_fed_concat(b0: Seq<u8>, chunks: Seq<Seq<u8>>)
    ensures
        spec_fed(b0, chunks) == b0 + chunks.flatten(),
    decreases chunks.len(),
{
    if chunks.len() == 0 {
        assert(chunks.flatten() == Seq::<u8>::empty());
        assert(b0 + chunks.flatten() =~= b0);
    } else {
        lemma_fed_concat(b0 + chunks[0], chunks.skip(1));
        assert(chunks.first() == chunks[0]);
        assert(chunks.drop_first() == chunks.skip(1));
        assert((b0 + chunks[0]) + chunks.skip(1).flatten() =~= b0 + (chunks[0] + chunks.skip(
            1,
        ).flatten()));
    }
}

/// Detection is lossless: whatever sequence of reads a detector consumes,
/// the prefix it retains — the bytes later replayed to the first
/// protocol-consuming layer — is exactly the reads in order, so the byte
/// stream handed downstream equals the original one.
pub proof fn lemma_detector_lossless(chunks: Seq<Seq<u8>>)
    ensures
        spec_fed(Seq::<u8>::empty(), chunks) == chunks.flatten(),
{
    lemma_fed_concat(Seq::<u8>::empty(), chunks);
    assert(Seq::<u8>::empty() + chunks.flatten() =~= chunks.flatten());
}

/// Detection is idempotent: classifying the same prefix twice, or parsing
/// it twice for an SNI, yields the same verdict both times.
pub proof fn lemma_detect_idempotent(a: Seq<u8>, b: Seq<u8>)
    requires
        a == b,
    ensures
        spec_classify_http(a) == spec_classify_http(b),
        crate::client_hello::spec_parse_sni(a) == crate::client_hello::spec_parse_sni(b),
{
}

} // verus!
