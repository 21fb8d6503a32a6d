//! HTTP-CONNECT tunnel negotiation: building the CONNECT request bytes and
//! parsing the proxy's response head.
//!
//! The negotiator itself never touches a socket: the caller writes the built
//! request, feeds received bytes back into [`parse_connect_response`], and
//! keeps everything past the response head as the residual buffer of the
//! tunneled stream.

use vstd::prelude::*;
use vstd::string::StrSliceExecFns;

use crate::net::{Host, IpAddr, UpstreamAddr};

verus! {

// ---------------------------------------------------------------------------
// Byte-level rendering specs
// ---------------------------------------------------------------------------

/// ASCII bytes of an ASCII character string.
pub open spec fn ascii_bytes(s: Seq<char>) -> Seq<u8> {
    s.map_values(|c: char| (c as u32) as u8)
}

pub open spec fn bytes_crlf() -> Seq<u8> {
    seq![13u8, 10u8]
}

/// `"CONNECT "`.
pub open spec fn bytes_connect_sp() -> Seq<u8> {
    seq![67u8, 79u8, 78u8, 78u8, 69u8, 67u8, 84u8, 32u8]
}

/// `" HTTP/1.1"`.
pub open spec fn bytes_sp_http11() -> Seq<u8> {
    seq![32u8, 72u8, 84u8, 84u8, 80u8, 47u8, 49u8, 46u8, 49u8]
}

/// `"Host: "`.
pub open spec fn bytes_host_sp() -> Seq<u8> {
    seq![72u8, 111u8, 115u8, 116u8, 58u8, 32u8]
}

/// The decimal digit `d` as an ASCII byte.
pub open spec fn dec_digit_byte(d: nat) -> u8 {
    (48 + d) as u8
}

/// The decimal text of `n`, as ASCII bytes.
pub open spec fn dec_bytes(n: nat) -> Seq<u8>
    decreases n,
{
    if n < 10 {
        seq![dec_digit_byte(n)]
    } else {
        dec_bytes(n / 10).push(dec_digit_byte(n % 10))
    }
}

/// The dotted-decimal text of an IPv4 address value, as ASCII bytes.
pub open spec fn ipv4_text_bytes(v: nat) -> Seq<u8> {
    dec_bytes(v / 0x1000000) + seq![46u8] + dec_bytes((v / 0x10000) % 0x100) + seq![46u8]
        + dec_bytes((v / 0x100) % 0x100) + seq![46u8] + dec_bytes(v % 0x100)
}

/// The hexadecimal digit `d` as a lowercase ASCII byte.
pub open spec fn hex_digit_byte(d: nat) -> u8 {
    if d < 10 {
        (48 + d) as u8
    } else {
        (87 + d) as u8
    }
}

/// The lowercase hexadecimal text of `n`, as ASCII bytes.
pub open spec fn hex_bytes(n: nat) -> Seq<u8>
    decreases n,
{
    if n < 16 {
        seq![hex_digit_byte(n)]
    } else {
        hex_bytes(n / 16).push(hex_digit_byte(n % 16))
    }
}

/// The text of an IPv6 address value: its eight sixteen-bit groups in
/// lowercase hex, colon-separated, most significant first.
pub open spec fn ipv6_text_bytes(v: nat) -> Seq<u8> {
    hex_bytes((v / 0x1_0000_0000_0000_0000_0000_0000_0000) % 0x10000) + seq![58u8] + hex_bytes(
        (v / 0x1_0000_0000_0000_0000_0000_0000) % 0x10000,
    ) + seq![58u8] + hex_bytes((v / 0x1_0000_0000_0000_0000_0000) % 0x10000) + seq![58u8]
        + hex_bytes((v / 0x1_0000_0000_0000_0000) % 0x10000) + seq![58u8] + hex_bytes(
        (v / 0x1_0000_0000_0000) % 0x10000,
    ) + seq![58u8] + hex_bytes((v / 0x1_0000_0000) % 0x10000) + seq![58u8] + hex_bytes(
        (v / 0x1_0000) % 0x10000,
    ) + seq![58u8] + hex_bytes(v % 0x10000)
}

/// The text of a host as it appears in a request target: a domain name as
/// is, an IPv4 address dotted-decimal, an IPv6 address bracketed.
pub open spec fn host_bytes(h: Host) -> Seq<u8> {
    match h {
        Host::Domain(d) => ascii_bytes(d@),
        Host::Ip(IpAddr::V4(v)) => ipv4_text_bytes(v as nat),
        Host::Ip(IpAddr::V6(v)) => seq![91u8] + ipv6_text_bytes(v as nat) + seq![93u8],
    }
}

/// `host:port`.
pub open spec fn host_port_bytes(u: UpstreamAddr) -> Seq<u8> {
    host_bytes(u.host) + seq![58u8] + dec_bytes(u.port as nat)
}

/// The appended header lines, each followed by CRLF.
pub open spec fn headers_bytes(hs: Seq<Seq<char>>) -> Seq<u8>
    decreases hs.len(),
{
    if hs.len() == 0 {
        Seq::empty()
    } else {
        headers_bytes(hs.drop_last()) + ascii_bytes(hs.last()) + bytes_crlf()
    }
}

/// `"Proxy-Authorization: Basic "`.
pub open spec fn bytes_proxy_auth_basic() -> Seq<u8> {
    seq![
        80u8, 114u8, 111u8, 120u8, 121u8, 45u8, 65u8, 117u8, 116u8, 104u8, 111u8, 114u8, 105u8,
        122u8, 97u8, 116u8, 105u8, 111u8, 110u8, 58u8, 32u8, 66u8, 97u8, 115u8, 105u8, 99u8, 32u8,
    ]
}

/// The basic-credential line for passing the raw user name through to the
/// proxy: the name's UTF-8 bytes followed by a colon and an empty password,
/// base64.
pub open spec fn auth_line_bytes(user: Seq<char>) -> Seq<u8> {
    bytes_proxy_auth_basic() + crate::codec::b64_encode(
        vstd::utf8::encode_utf8(user).push(58u8),
    )
}

/// The whole CONNECT request head:
/// `CONNECT host:port HTTP/1.1`, a `Host` header, the optional
/// proxy-authorization line, the extra header lines, and the final blank
/// line.
pub open spec fn connect_request_bytes(
    u: UpstreamAddr,
    hs: Seq<Seq<char>>,
    auth_user: Option<Seq<char>>,
) -> Seq<u8> {
    bytes_connect_sp() + host_port_bytes(u) + bytes_sp_http11() + bytes_crlf() + bytes_host_sp()
        + host_port_bytes(u) + bytes_crlf() + (match auth_user {
        Option::Some(user) => auth_line_bytes(user) + bytes_crlf(),
        Option::None => Seq::empty(),
    }) + headers_bytes(hs) + bytes_crlf()
}

/// A header line is safe to embed: ASCII with no CR or LF.
pub open spec fn header_line_ok(s: Seq<char>) -> bool {
    vstd::utf8::is_ascii_chars(s) && forall|i: int|
        0 <= i < s.len() ==> (#[trigger] s[i]) != '\r' && s[i] != '\n'
}

// ---------------------------------------------------------------------------
// Byte-level rendering code
// ---------------------------------------------------------------------------

fn push_crlf(out: &mut Vec<u8>)
    ensures
        final(out)@ == old(out)@ + bytes_crlf(),
{
    out.push(13);
    out.push(10);
    proof {
        assert(out@ =~= old(out)@ + bytes_crlf());
    }
}

/// Appends the decimal text of `n`.
pub fn push_dec(out: &mut Vec<u8>, n: u64)
    ensures
        final(out)@ == old(out)@ + dec_bytes(n as nat),
    decreases n,
{
    if n < 10 {
        out.push(48 + n as u8);
        proof {
            assert(out@ =~= old(out)@ + dec_bytes(n as nat));
        }
    } else {
        push_dec(out, n / 10);
        out.push(48 + (n % 10) as u8);
        proof {
            assert(out@ =~= old(out)@ + dec_bytes(n as nat));
        }
    }
}

/// Appends the lowercase hexadecimal text of `n`.
pub fn push_hex(out: &mut Vec<u8>, n: u64)
    ensures
        final(out)@ == old(out)@ + hex_bytes(n as nat),
    decreases n,
{
    if n < 16 {
        let d = n as u8;
        out.push(
            if d < 10 {
                48 + d
            } else {
                87 + d
            },
        );
        proof {
            assert(out@ =~= old(out)@ + hex_bytes(n as nat));
        }
    } else {
        push_hex(out, n / 16);
        let d = (n % 16) as u8;
        out.push(
            if d < 10 {
                48 + d
            } else {
                87 + d
            },
        );
        proof {
            assert(out@ =~= old(out)@ + hex_bytes(n as nat));
        }
    }
}

/// Appends the ASCII bytes of an ASCII string.
pub fn push_ascii(out: &mut Vec<u8>, s: &str)
    requires
        s.is_ascii(),
    ensures
        final(out)@ == old(out)@ + ascii_bytes(s@),
{
    let n = s.unicode_len();
    let mut i: usize = 0;
    while i < n
        invariant
            n == s@.len(),
            i <= n,
            vstd::utf8::is_ascii_chars(s@),
            out@ == old(out)@ + ascii_bytes(s@.subrange(0, i as int)),
        decreases n - i,
    {
        let c = s.get_char(i);
        proof {
            assert('\0' <= s@[i as int] <= '\u{7f}');
        }
        out.push((c as u32) as u8);
        proof {
            assert(out@ =~= old(out)@ + ascii_bytes(s@.subrange(0, i + 1)));
        }
        i = i + 1;
    }
    proof {
        assert(s@.subrange(0, n as int) =~= s@);
    }
}

/// Appends the dotted-decimal text of an IPv4 address value.
fn push_ipv4(out: &mut Vec<u8>, v: u32)
    ensures
        final(out)@ == old(out)@ + ipv4_text_bytes(v as nat),
{
    push_dec(out, (v / 0x1000000) as u64);
    out.push(46);
    push_dec(out, ((v / 0x10000) % 0x100) as u64);
    out.push(46);
    push_dec(out, ((v / 0x100) % 0x100) as u64);
    out.push(46);
    push_dec(out, (v % 0x100) as u64);
    proof {
        assert(out@ =~= old(out)@ + ipv4_text_bytes(v as nat));
    }
}

/// Appends the colon-separated hex text of an IPv6 address value.
fn push_ipv6(out: &mut Vec<u8>, v: u128)
    ensures
        final(out)@ == old(out)@ + ipv6_text_bytes(v as nat),
{
    push_hex(out, ((v / 0x1_0000_0000_0000_0000_0000_0000_0000) % 0x10000) as u64);
    out.push(58);
    push_hex(out, ((v / 0x1_0000_0000_0000_0000_0000_0000) % 0x10000) as u64);
    out.push(58);
    push_hex(out, ((v / 0x1_0000_0000_0000_0000_0000) % 0x10000) as u64);
    out.push(58);
    push_hex(out, ((v / 0x1_0000_0000_0000_0000) % 0x10000) as u64);
    out.push(58);
    push_hex(out, ((v / 0x1_0000_0000_0000) % 0x10000) as u64);
    out.push(58);
    push_hex(out, ((v / 0x1_0000_0000) % 0x10000) as u64);
    out.push(58);
    push_hex(out, ((v / 0x1_0000) % 0x10000) as u64);
    out.push(58);
    push_hex(out, (v % 0x10000) as u64);
    proof {
        assert(out@ =~= old(out)@ + ipv6_text_bytes(v as nat));
    }
}

/// Appends `host:port`.
pub fn push_host_port(out: &mut Vec<u8>, u: &UpstreamAddr)
    requires
        u.wf(),
    ensures
        final(out)@ == old(out)@ + host_port_bytes(*u),
{
    match &u.host {
        Host::Domain(d) => {
            push_ascii(out, d.as_str());
        },
        Host::Ip(ip) => {
            match ip {
                IpAddr::V4(v) => {
                    push_ipv4(out, *v);
                },
                IpAddr::V6(v) => {
                    out.push(91);
                    push_ipv6(out, *v);
                    out.push(93);
                },
            }
        },
    }
    out.push(58);
    push_dec(out, u.port as u64);
    proof {
        assert(out@ =~= old(out)@ + host_port_bytes(*u));
    }
}

// ---------------------------------------------------------------------------
// The request
// ---------------------------------------------------------------------------

/// A CONNECT request under construction: the destination, the extra header
/// lines (each without its CRLF) to append verbatim, and the optional raw
/// user name to pass through as a basic credential.
pub struct HttpConnectRequest {
    pub upstream: UpstreamAddr,
    pub headers: Vec<String>,
    pub auth_user: Option<String>,
}

impl HttpConnectRequest {
    pub open spec fn wf(&self) -> bool {
        &&& self.upstream.wf()
        &&& forall|i: int| 0 <= i < self.headers@.len() ==> header_line_ok(#[trigger] self.headers@[i]@)
    }

    /// The user name of the authorization line, as it appears in the spec of
    /// the built bytes.
    pub open spec fn auth_user_view(&self) -> Option<Seq<char>> {
        match self.auth_user {
            Option::Some(u) => Option::Some(u@),
            Option::None => Option::None,
        }
    }

    /// Starts a request for `upstream` with the configured header lines.
    pub fn new(upstream: &UpstreamAddr, append_headers: &Vec<String>) -> (r: HttpConnectRequest)
        requires
            upstream.wf(),
            forall|i: int|
                0 <= i < append_headers@.len() ==> header_line_ok(#[trigger] append_headers@[i]@),
        ensures
            r.wf(),
            r.upstream == *upstream,
            r.headers@.map_values(|h: String| h@) == append_headers@.map_values(|h: String| h@),
            r.auth_user is None,
    {
        let mut headers: Vec<String> = Vec::new();
        let mut i: usize = 0;
        while i < append_headers.len()
            invariant
                i <= append_headers@.len(),
                headers@.len() == i,
                forall|j: int| 0 <= j < i ==> #[trigger] headers@[j]@ == append_headers@[j]@,
            decreases append_headers@.len() - i,
        {
            headers.push(append_headers[i].clone());
            i = i + 1;
        }
        proof {
            assert(headers@.map_values(|h: String| h@) =~= append_headers@.map_values(
                |h: String| h@,
            ));
            assert(forall|j: int|
                0 <= j < headers@.len() ==> header_line_ok(#[trigger] headers@[j]@));
        }
        HttpConnectRequest { upstream: upstream.clone(), headers, auth_user: None }
    }

    /// Asks for a `Proxy-Authorization: Basic` line carrying `user` with an
    /// empty password, as when the configuration passes the raw user name
    /// through to the proxy.
    pub fn set_proxy_authorization(&mut self, user: &String)
        ensures
            final(self).upstream == old(self).upstream,
            final(self).headers == old(self).headers,
            final(self).auth_user matches Some(u) && u@ == user@,
            old(self).wf() ==> final(self).wf(),
    {
        self.auth_user = Some(user.clone());
    }

    /// Appends one more header line, such as a proxy authorization line.
    pub fn append_dyn_header(&mut self, line: String)
        requires
            header_line_ok(line@),
        ensures
            final(self).upstream == old(self).upstream,
            final(self).headers@ == old(self).headers@.push(line),
            final(self).auth_user == old(self).auth_user,
            old(self).wf() ==> final(self).wf(),
    {
        let ghost oldh = self.headers@;
        let ghost l = line@;
        self.headers.push(line);
        proof {
            if old(self).wf() {
                assert forall|i: int|
                    0 <= i < self.headers@.len() implies header_line_ok(
                    #[trigger] self.headers@[i]@,
                ) by {
                    if i < oldh.len() {
                        assert(self.headers@[i] == oldh[i]);
                        assert(header_line_ok(oldh[i]@));
                    } else {
                        assert(self.headers@[i]@ == l);
                    }
                }
            }
        }
    }

    /// Renders the request head exactly as it goes on the wire.
    #[verifier::rlimit(60)]
    pub fn build(&self) -> (r: Vec<u8>)
        requires
            self.wf(),
        ensures
            r@ == connect_request_bytes(
                self.upstream,
                self.headers@.map_values(|h: String| h@),
                self.auth_user_view(),
            ),
    {
        let mut out: Vec<u8> = Vec::new();
        out.push(67);
        out.push(79);
        out.push(78);
        out.push(78);
        out.push(69);
        out.push(67);
        out.push(84);
        out.push(32);
        proof {
            assert(out@ =~= bytes_connect_sp());
        }
        push_host_port(&mut out, &self.upstream);
        out.push(32);
        out.push(72);
        out.push(84);
        out.push(84);
        out.push(80);
        out.push(47);
        out.push(49);
        out.push(46);
        out.push(49);
        proof {
            assert(out@ =~= bytes_connect_sp() + host_port_bytes(self.upstream)
                + bytes_sp_http11());
        }
        push_crlf(&mut out);
        out.push(72);
        out.push(111);
        out.push(115);
        out.push(116);
        out.push(58);
        out.push(32);
        proof {
            assert(out@ =~= bytes_connect_sp() + host_port_bytes(self.upstream) + bytes_sp_http11()
                + bytes_crlf() + bytes_host_sp());
        }
        push_host_port(&mut out, &self.upstream);
        push_crlf(&mut out);
        proof {
            assert(out@ =~= bytes_connect_sp() + host_port_bytes(self.upstream) + bytes_sp_http11()
                + bytes_crlf() + bytes_host_sp() + host_port_bytes(self.upstream) + bytes_crlf());
        }
        let ghost base = bytes_connect_sp() + host_port_bytes(self.upstream) + bytes_sp_http11()
            + bytes_crlf() + bytes_host_sp() + host_port_bytes(self.upstream) + bytes_crlf();
        match &self.auth_user {
            Some(user) => {
                out.push(80);
                out.push(114);
                out.push(111);
                out.push(120);
                out.push(121);
                out.push(45);
                out.push(65);
                out.push(117);
                out.push(116);
                out.push(104);
                out.push(111);
                out.push(114);
                out.push(105);
                out.push(122);
                out.push(97);
                out.push(116);
                out.push(105);
                out.push(111);
                out.push(110);
                out.push(58);
                out.push(32);
                out.push(66);
                out.push(97);
                out.push(115);
                out.push(105);
                out.push(99);
                out.push(32);
                proof {
                    assert(out@ =~= base + bytes_proxy_auth_basic());
                }
                let mut cred: Vec<u8> = user.as_str().as_bytes_vec();
                cred.push(58);
                proof {
                    assert(cred@ =~= vstd::utf8::encode_utf8(user@).push(58u8));
                }
                crate::codec::push_b64(&mut out, &cred);
                push_crlf(&mut out);
                proof {
                    assert(out@ =~= base + auth_line_bytes(user@) + bytes_crlf());
                }
            },
            None => {
                proof {
                    assert(out@ =~= base + Seq::<u8>::empty());
                }
            },
        }
        let ghost head = base + (match self.auth_user_view() {
            Option::Some(user) => auth_line_bytes(user) + bytes_crlf(),
            Option::None => Seq::empty(),
        });
        proof {
            assert(out@ =~= head);
        }
        let ghost hs = self.headers@.map_values(|h: String| h@);
        let mut i: usize = 0;
        while i < self.headers.len()
            invariant
                i <= self.headers@.len(),
                self.wf(),
                hs == self.headers@.map_values(|h: String| h@),
                out@ == head + headers_bytes(hs.subrange(0, i as int)),
            decreases self.headers@.len() - i,
        {
            let ghost pre = hs.subrange(0, i as int);
            let ghost pre1 = hs.subrange(0, i + 1);
            proof {
                assert(pre1.drop_last() =~= pre);
                assert(pre1.last() == hs[i as int]);
                assert(header_line_ok(self.headers@[i as int]@));
            }
            push_ascii(&mut out, self.headers[i].as_str());
            push_crlf(&mut out);
            proof {
                assert(out@ =~= head + headers_bytes(pre1));
            }
            i = i + 1;
        }
        proof {
            assert(hs.subrange(0, self.headers@.len() as int) =~= hs);
        }
        push_crlf(&mut out);
        proof {
            assert(out@ =~= connect_request_bytes(self.upstream, hs, self.auth_user_view()));
        }
        out
    }
}

// ---------------------------------------------------------------------------
// The response head
// ---------------------------------------------------------------------------

/// True when a blank line (CRLF CRLF) starts at `i`.
pub open spec fn is_hdr_end_at(b: Seq<u8>, i: int) -> bool {
    b[i] == 13 && b[i + 1] == 10 && b[i + 2] == 13 && b[i + 3] == 10
}

/// The first position at or after `i` where the blank line starts.
pub open spec fn hdr_end_from(b: Seq<u8>, i: int) -> Option<int>
    decreases b.len() - i when 0 <= i <= b.len()
{
    if i + 4 > b.len() {
        None
    } else if is_hdr_end_at(b, i) {
        Some(i)
    } else {
        hdr_end_from(b, i + 1)
    }
}

/// The first position where the blank line ending the response head starts.
pub open spec fn hdr_end(b: Seq<u8>) -> Option<int> {
    hdr_end_from(b, 0)
}

/// `"HTTP/1."`.
pub open spec fn bytes_http1_dot() -> Seq<u8> {
    seq![72u8, 84u8, 84u8, 80u8, 47u8, 49u8, 46u8]
}

/// A well-formed status line start: `HTTP/1.<digit> <three digits>` followed
/// by a space or the end of the line.
pub open spec fn status_line_ok(b: Seq<u8>) -> bool {
    &&& b.len() >= 13
    &&& b.subrange(0, 7) == bytes_http1_dot()
    &&& 48 <= b[7] <= 57
    &&& b[8] == 32
    &&& 48 <= b[9] <= 57
    &&& 48 <= b[10] <= 57
    &&& 48 <= b[11] <= 57
    &&& (b[12] == 32 || b[12] == 13)
}

/// The status code on a well-formed status line.
pub open spec fn status_of(b: Seq<u8>) -> u16 {
    (((b[9] - 48) * 100 + (b[10] - 48) * 10 + (b[11] - 48)) as u16)
}

/// What one look at the accumulated response bytes yields.
#[derive(Clone, Copy, PartialEq, Eq, Structural, Debug)]
pub enum ConnectRspParse {
    /// No blank line yet and the cap not hit: read more bytes.
    NeedMore,
    /// The head does not fit the configured cap.
    TooLarge,
    /// The head is complete but its status line is not well formed.
    Malformed,
    /// The head is complete: its status code, and the byte length of the
    /// head. Everything past `head_len` is the residual buffer.
    Done { status: u16, head_len: usize },
}

/// The meaning of the accumulated bytes `b` under the head-size cap `max`.
pub open spec fn spec_parse_connect_rsp(b: Seq<u8>, max: int) -> ConnectRspParse {
    match hdr_end(b) {
        Option::None => if b.len() > max {
            ConnectRspParse::TooLarge
        } else {
            ConnectRspParse::NeedMore
        },
        Option::Some(e) => if e + 4 > max {
            ConnectRspParse::TooLarge
        } else if !status_line_ok(b) {
            ConnectRspParse::Malformed
        } else {
            ConnectRspParse::Done { status: status_of(b), head_len: (e + 4) as usize }
        },
    }
}

proof fn lemma_hdr_end_from_bounds(b: Seq<u8>, i: int)
    requires
        0 <= i <= b.len(),
    ensures
        hdr_end_from(b, i) matches Some(e) ==> i <= e && e + 4 <= b.len(),
    decreases b.len() - i,
{
    if i + 4 <= b.len() && !is_hdr_end_at(b, i) {
        lemma_hdr_end_from_bounds(b, i + 1);
    }
}

/// A completed parse always fits the buffer: the head length never exceeds
/// the accumulated byte count.
pub proof fn lemma_parse_done_bounds(b: Seq<u8>, max: int)
    requires
        b.len() <= usize::MAX,
    ensures
        spec_parse_connect_rsp(b, max) matches ConnectRspParse::Done { head_len, .. } ==> 4
            <= head_len <= b.len(),
{
    lemma_hdr_end_from_bounds(b, 0);
}

fn check_status_prefix(buf: &Vec<u8>) -> (r: bool)
    requires
        buf@.len() >= 13,
    ensures
        r == (buf@.subrange(0, 7) == bytes_http1_dot()),
{
    let r = buf[0] == 72 && buf[1] == 84 && buf[2] == 84 && buf[3] == 80 && buf[4] == 47 && buf[5]
        == 49 && buf[6] == 46;
    proof {
        let p = buf@.subrange(0, 7);
        assert(p[0] == buf@[0] && p[1] == buf@[1] && p[2] == buf@[2] && p[3] == buf@[3] && p[4]
            == buf@[4] && p[5] == buf@[5] && p[6] == buf@[6]);
        let q = bytes_http1_dot();
        assert(q[0] == 72u8 && q[1] == 84u8 && q[2] == 84u8 && q[3] == 80u8 && q[4] == 47u8 && q[5]
            == 49u8 && q[6] == 46u8);
        if r {
            assert(p =~= q);
        }
    }
    r
}

/// Examines the response bytes accumulated so far.
///
/// The caller reads from the socket into `buf` and calls this after each
/// read; `max_size` is the configured response-head cap.
pub fn parse_connect_response(buf: &Vec<u8>, max_size: usize) -> (r: ConnectRspParse)
    ensures
        r == spec_parse_connect_rsp(buf@, max_size as int),
{
    let n = buf.len();
    let mut i: usize = 0;
    let mut found: Option<usize> = None;
    if n >= 4 {
        while i <= n - 4
            invariant_except_break
                n == buf@.len(),
                n >= 4,
                0 <= i <= n - 3,
                found is None,
                hdr_end(buf@) == hdr_end_from(buf@, i as int),
            ensures
                match found {
                    Option::Some(e) => hdr_end(buf@) == Option::Some(e as int) && e + 4 <= n,
                    Option::None => hdr_end(buf@) is None,
                },
            decreases n - i,
        {
            if buf[i] == 13 && buf[i + 1] == 10 && buf[i + 2] == 13 && buf[i + 3] == 10 {
                found = Some(i);
                break;
            }
            i = i + 1;
        }
    }
    match found {
        None => {
            if n > max_size {
                ConnectRspParse::TooLarge
            } else {
                ConnectRspParse::NeedMore
            }
        },
        Some(e) => {
            if e + 4 > max_size {
                return ConnectRspParse::TooLarge;
            }
            if n < 13 {
                return ConnectRspParse::Malformed;
            }
            if !check_status_prefix(buf) {
                return ConnectRspParse::Malformed;
            }
            let b7 = buf[7];
            let b8 = buf[8];
            let b9 = buf[9];
            let b10 = buf[10];
            let b11 = buf[11];
            let b12 = buf[12];
            if !(48 <= b7 && b7 <= 57 && b8 == 32 && 48 <= b9 && b9 <= 57 && 48 <= b10 && b10 <= 57
                && 48 <= b11 && b11 <= 57 && (b12 == 32 || b12 == 13)) {
                return ConnectRspParse::Malformed;
            }
            let status: u16 = ((b9 - 48) as u16) * 100 + ((b10 - 48) as u16) * 10 + ((b11
                - 48) as u16);
            ConnectRspParse::Done { status, head_len: e + 4 }
        },
    }
}

/// Whether a CONNECT status code counts as success: with an `ok_status`
/// override only that code, otherwise any 2xx code.
pub fn connect_status_accepted(status: u16, ok_status: Option<u16>) -> (r: bool)
    ensures
        r == match ok_status {
            Option::Some(k) => status == k,
            Option::None => 200 <= status < 300,
        },
{
    match ok_status {
        Some(k) => status == k,
        None => 200 <= status && status < 300,
    }
}

} // verus!
