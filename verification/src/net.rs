//! Network address model: IP addresses as plain integers, socket addresses,
//! upstream (host + port) addresses, and IP networks, together with verified
//! text parsing for IP addresses.
//!
//! The accepted address grammar is stated by spec functions: an IPv4 address
//! is four dot-separated groups of one to three decimal digits, each valued
//! at most 255; an IPv6 address is eight colon-separated groups of one to
//! four hexadecimal digits (the elided `::` form is not modeled).

use vstd::prelude::*;
use vstd::string::StrSliceExecFns;

verus! {

/// An IP address held as a plain integer: the four octets of an IPv4 address
/// packed big-endian into a `u32`, or the sixteen bytes of an IPv6 address
/// packed big-endian into a `u128`.
#[derive(Clone, Copy, PartialEq, Eq, Structural, Debug)]
pub enum IpAddr {
    V4(u32),
    V6(u128),
}

impl IpAddr {
    pub fn is_v4(&self) -> (r: bool)
        ensures
            r == self is V4,
    {
        matches!(self, IpAddr::V4(_))
    }

    pub fn is_v6(&self) -> (r: bool)
        ensures
            r == self is V6,
    {
        matches!(self, IpAddr::V6(_))
    }
}

/// The IPv4 address packed from four octets.
pub open spec fn spec_v4_from_octets(a: nat, b: nat, c: nat, d: nat) -> nat {
    a * 0x1000000 + b * 0x10000 + c * 0x100 + d
}

pub fn v4_from_octets(a: u8, b: u8, c: u8, d: u8) -> (r: u32)
    ensures
        r == spec_v4_from_octets(a as nat, b as nat, c as nat, d as nat),
{
    (a as u32) * 0x1000000 + (b as u32) * 0x10000 + (c as u32) * 0x100 + (d as u32)
}

/// A transport endpoint: IP address and port.
#[derive(Clone, Copy, PartialEq, Eq, Structural, Debug)]
pub struct SocketAddr {
    pub ip: IpAddr,
    pub port: u16,
}

/// A logical host: either an IP address or a domain name.
#[derive(Debug)]
pub enum Host {
    Ip(IpAddr),
    Domain(String),
}

impl Clone for Host {
    fn clone(&self) -> (r: Self)
        ensures
            r == *self,
    {
        match self {
            Host::Ip(ip) => Host::Ip(*ip),
            Host::Domain(d) => Host::Domain(d.clone()),
        }
    }
}

impl Host {
    /// Well-formed: a domain name is non-empty ASCII text.
    pub open spec fn wf(&self) -> bool {
        match self {
            Host::Ip(_) => true,
            Host::Domain(d) => d@.len() > 0 && vstd::utf8::is_ascii_chars(d@),
        }
    }
}

/// The logical destination of one task: host and port.
#[derive(Debug)]
pub struct UpstreamAddr {
    pub host: Host,
    pub port: u16,
}

impl Clone for UpstreamAddr {
    fn clone(&self) -> (r: Self)
        ensures
            r == *self,
    {
        UpstreamAddr { host: self.host.clone(), port: self.port }
    }
}

impl UpstreamAddr {
    pub open spec fn wf(&self) -> bool {
        self.host.wf()
    }

    pub fn new(host: Host, port: u16) -> (r: UpstreamAddr)
        ensures
            r.host == host,
            r.port == port,
    {
        UpstreamAddr { host, port }
    }
}

/// An IP network: a base address and a prefix length bounded by the address
/// family's bit width.
#[derive(Clone, Copy, PartialEq, Eq, Structural, Debug)]
pub struct IpNetwork {
    pub addr: IpAddr,
    pub prefix: u8,
}

impl IpNetwork {
    pub open spec fn wf(&self) -> bool {
        match self.addr {
            IpAddr::V4(_) => self.prefix <= 32,
            IpAddr::V6(_) => self.prefix <= 128,
        }
    }

    /// Builds a network when the prefix fits the address family.
    pub fn new(addr: IpAddr, prefix: u8) -> (r: Option<IpNetwork>)
        ensures
            r matches Some(n) ==> n.addr == addr && n.prefix == prefix && n.wf(),
            r is None <==> (addr is V4 && prefix > 32) || (addr is V6 && prefix > 128),
    {
        match addr {
            IpAddr::V4(_) => {
                if prefix <= 32 {
                    Some(IpNetwork { addr, prefix })
                } else {
                    None
                }
            },
            IpAddr::V6(_) => {
                if prefix <= 128 {
                    Some(IpNetwork { addr, prefix })
                } else {
                    None
                }
            },
        }
    }

    /// The network that holds exactly the one address.
    pub fn single(addr: IpAddr) -> (r: IpNetwork)
        ensures
            r.addr == addr,
            r.wf(),
            addr is V4 ==> r.prefix == 32,
            addr is V6 ==> r.prefix == 128,
    {
        match addr {
            IpAddr::V4(_) => IpNetwork { addr, prefix: 32 },
            IpAddr::V6(_) => IpNetwork { addr, prefix: 128 },
        }
    }
}

// ---------------------------------------------------------------------------
// Character classes and numeric values
// ---------------------------------------------------------------------------

pub open spec fn is_digit(c: char) -> bool {
    48 <= c as u32 <= 57
}

pub open spec fn digit_val(c: char) -> nat {
    (c as u32 - 48) as nat
}

pub open spec fn all_digits(s: Seq<char>) -> bool {
    forall|i: int| 0 <= i < s.len() ==> is_digit(#[trigger] s[i])
}

/// The decimal value of a digit string.
pub open spec fn dec_val(s: Seq<char>) -> nat
    decreases s.len(),
{
    if s.len() == 0 {
        0
    } else {
        dec_val(s.drop_last()) * 10 + digit_val(s.last())
    }
}

pub open spec fn is_hex_digit(c: char) -> bool {
    is_digit(c) || (97 <= c as u32 <= 102) || (65 <= c as u32 <= 70)
}

pub open spec fn hex_digit_val(c: char) -> nat {
    if is_digit(c) {
        digit_val(c)
    } else if 97 <= c as u32 <= 102 {
        (c as u32 - 87) as nat
    } else {
        (c as u32 - 55) as nat
    }
}

pub open spec fn all_hex_digits(s: Seq<char>) -> bool {
    forall|i: int| 0 <= i < s.len() ==> is_hex_digit(#[trigger] s[i])
}

/// The hexadecimal value of a hex-digit string.
pub open spec fn hex_val(s: Seq<char>) -> nat
    decreases s.len(),
{
    if s.len() == 0 {
        0
    } else {
        hex_val(s.drop_last()) * 16 + hex_digit_val(s.last())
    }
}

// ---------------------------------------------------------------------------
// Separator positions
// ---------------------------------------------------------------------------

/// The indices at which `sep` occurs in `s`, in increasing order.
pub open spec fn sep_positions(s: Seq<char>, sep: char) -> Seq<int>
    decreases s.len(),
{
    if s.len() == 0 {
        seq![]
    } else if s.last() == sep {
        sep_positions(s.drop_last(), sep).push(s.len() - 1)
    } else {
        sep_positions(s.drop_last(), sep)
    }
}

pub proof fn lemma_sep_positions_bounds(s: Seq<char>, sep: char)
    ensures
        forall|i: int|
            0 <= i < sep_positions(s, sep).len() ==> 0 <= #[trigger] sep_positions(s, sep)[i]
                < s.len(),
        forall|i: int, j: int|
            0 <= i < j < sep_positions(s, sep).len() ==> sep_positions(s, sep)[i] < sep_positions(
                s,
                sep,
            )[j],
    decreases s.len(),
{
    if s.len() > 0 {
        lemma_sep_positions_bounds(s.drop_last(), sep);
        let p = sep_positions(s.drop_last(), sep);
        if s.last() == sep {
            let q = p.push(s.len() - 1);
            assert(sep_positions(s, sep) == q);
            assert forall|i: int| 0 <= i < q.len() implies 0 <= #[trigger] q[i] < s.len() by {
                if i < p.len() {
                    assert(q[i] == p[i]);
                } else {
                    assert(q[i] == s.len() - 1);
                }
            }
            assert forall|i: int, j: int| 0 <= i < j < q.len() implies q[i] < q[j] by {
                if j < p.len() {
                    assert(q[i] == p[i] && q[j] == p[j]);
                } else {
                    assert(q[j] == s.len() - 1);
                    assert(q[i] == p[i]);
                }
            }
        } else {
            assert(sep_positions(s, sep) == p);
        }
    }
}

/// Collects the positions of `sep` in `s`.
fn find_separators(s: &str, sep: char) -> (r: Vec<usize>)
    ensures
        r@.len() == sep_positions(s@, sep).len(),
        forall|i: int| 0 <= i < r@.len() ==> r@[i] as int == #[trigger] sep_positions(s@, sep)[i],
{
    let n = s.unicode_len();
    let mut out: Vec<usize> = Vec::new();
    let mut i: usize = 0;
    while i < n
        invariant
            n == s@.len(),
            i <= n,
            out@.map_values(|x: usize| x as int) == sep_positions(s@.subrange(0, i as int), sep),
        decreases n - i,
    {
        let c = s.get_char(i);
        let ghost prefix = s@.subrange(0, i as int);
        let ghost prefix1 = s@.subrange(0, i + 1 as int);
        proof {
            assert(prefix1.drop_last() =~= prefix);
            assert(prefix1.last() == s@[i as int]);
        }
        if c == sep {
            out.push(i);
            proof {
                assert(out@.map_values(|x: usize| x as int) =~= sep_positions(prefix, sep).push(
                    i as int,
                ));
            }
        }
        i = i + 1;
    }
    proof {
        assert(s@.subrange(0, n as int) =~= s@);
        let m = out@.map_values(|x: usize| x as int);
        assert(forall|i: int| 0 <= i < out@.len() ==> m[i] == out@[i] as int);
    }
    out
}

/// Digit strings of bounded length have bounded value.
proof fn lemma_dec_val_bound(s: Seq<char>)
    requires
        all_digits(s),
    ensures
        s.len() == 0 ==> dec_val(s) == 0,
        s.len() <= 1 ==> dec_val(s) <= 9,
        s.len() <= 2 ==> dec_val(s) <= 99,
        s.len() <= 3 ==> dec_val(s) <= 999,
    decreases s.len(),
{
    if s.len() > 0 {
        assert(all_digits(s.drop_last())) by {
            assert(forall|i: int|
                0 <= i < s.len() - 1 ==> is_digit(#[trigger] s.drop_last()[i]) == is_digit(s[i]));
        }
        lemma_dec_val_bound(s.drop_last());
    }
}

/// Hex-digit strings of bounded length have bounded value.
proof fn lemma_hex_val_bound(s: Seq<char>)
    requires
        all_hex_digits(s),
    ensures
        s.len() == 0 ==> hex_val(s) == 0,
        s.len() <= 1 ==> hex_val(s) <= 0xf,
        s.len() <= 2 ==> hex_val(s) <= 0xff,
        s.len() <= 3 ==> hex_val(s) <= 0xfff,
        s.len() <= 4 ==> hex_val(s) <= 0xffff,
    decreases s.len(),
{
    if s.len() > 0 {
        assert(all_hex_digits(s.drop_last())) by {
            assert(forall|i: int|
                0 <= i < s.len() - 1 ==> is_hex_digit(#[trigger] s.drop_last()[i]) == is_hex_digit(
                    s[i],
                ));
        }
        lemma_hex_val_bound(s.drop_last());
    }
}

// ---------------------------------------------------------------------------
// Group parsing
// ---------------------------------------------------------------------------

/// A valid IPv4 group: one to three decimal digits valued at most 255,
/// with no leading zero.
pub open spec fn ipv4_group_ok(g: Seq<char>) -> bool {
    1 <= g.len() <= 3 && all_digits(g) && dec_val(g) <= 255 && (g.len() == 1 || g[0] != '0')
}

/// A valid IPv6 group: one to four hexadecimal digits.
pub open spec fn ipv6_group_ok(g: Seq<char>) -> bool {
    1 <= g.len() <= 4 && all_hex_digits(g)
}

/// Parses `s[from..to]` as an IPv4 group.
fn parse_v4_group(s: &str, from: usize, to: usize) -> (r: Option<u8>)
    requires
        from <= to <= s@.len(),
    ensures
        r is Some <==> ipv4_group_ok(s@.subrange(from as int, to as int)),
        r matches Some(v) ==> v == dec_val(s@.subrange(from as int, to as int)),
{
    let ghost g = s@.subrange(from as int, to as int);
    if to - from < 1 || to - from > 3 {
        return None;
    }
    if to - from > 1 && s.get_char(from) == '0' {
        proof {
            assert(g[0] == s@[from as int]);
        }
        return None;
    }
    let mut acc: u32 = 0;
    let mut i: usize = from;
    while i < to
        invariant
            from <= i <= to <= s@.len(),
            1 <= to - from <= 3,
            g == s@.subrange(from as int, to as int),
            all_digits(g.subrange(0, i - from)),
            acc == dec_val(g.subrange(0, i - from)),
            acc <= 999,
        decreases to - i,
    {
        let c = s.get_char(i);
        let cv = c as u32;
        let ghost sub = g.subrange(0, i - from);
        let ghost sub1 = g.subrange(0, i + 1 - from);
        proof {
            assert(sub1.drop_last() =~= sub);
            assert(sub1.last() == g[i - from]);
            assert(g[i - from] == s@[i as int]);
        }
        if cv < 48 || cv > 57 {
            proof {
                assert(!is_digit(g[i - from]));
            }
            return None;
        }
        proof {
            assert forall|j: int| 0 <= j < sub1.len() implies is_digit(#[trigger] sub1[j]) by {
                if j < i - from {
                    assert(sub1[j] == sub[j]);
                } else {
                    assert(sub1[j] == g[i - from]);
                }
            }
            lemma_dec_val_bound(sub1);
        }
        acc = acc * 10 + (cv - 48);
        i = i + 1;
    }
    proof {
        assert(g.subrange(0, to - from) =~= g);
    }
    if acc <= 255 {
        Some(acc as u8)
    } else {
        None
    }
}

/// Parses `s[from..to]` as an IPv6 group.
fn parse_v6_group(s: &str, from: usize, to: usize) -> (r: Option<u16>)
    requires
        from <= to <= s@.len(),
    ensures
        r is Some <==> ipv6_group_ok(s@.subrange(from as int, to as int)),
        r matches Some(v) ==> v == hex_val(s@.subrange(from as int, to as int)),
{
    let ghost g = s@.subrange(from as int, to as int);
    if to - from < 1 || to - from > 4 {
        return None;
    }
    let mut acc: u32 = 0;
    let mut i: usize = from;
    while i < to
        invariant
            from <= i <= to <= s@.len(),
            1 <= to - from <= 4,
            g == s@.subrange(from as int, to as int),
            all_hex_digits(g.subrange(0, i - from)),
            acc == hex_val(g.subrange(0, i - from)),
            acc <= 0xffff,
        decreases to - i,
    {
        let c = s.get_char(i);
        let cv = c as u32;
        let ghost sub = g.subrange(0, i - from);
        let ghost sub1 = g.subrange(0, i + 1 - from);
        proof {
            assert(sub1.drop_last() =~= sub);
            assert(sub1.last() == g[i - from]);
            assert(g[i - from] == s@[i as int]);
        }
        let d: u32 = if 48 <= cv && cv <= 57 {
            cv - 48
        } else if 97 <= cv && cv <= 102 {
            cv - 87
        } else if 65 <= cv && cv <= 70 {
            cv - 55
        } else {
            proof {
                assert(!is_hex_digit(g[i - from]));
            }
            return None;
        };
        proof {
            assert forall|j: int| 0 <= j < sub1.len() implies is_hex_digit(#[trigger] sub1[j]) by {
                if j < i - from {
                    assert(sub1[j] == sub[j]);
                } else {
                    assert(sub1[j] == g[i - from]);
                }
            }
            lemma_hex_val_bound(sub1);
        }
        acc = acc * 16 + d;
        i = i + 1;
    }
    proof {
        assert(g.subrange(0, to - from) =~= g);
    }
    Some(acc as u16)
}

// ---------------------------------------------------------------------------
// Whole-address parsing
// ---------------------------------------------------------------------------

/// The dot positions split `s` into four groups; true when every group is a
/// valid IPv4 group.
pub open spec fn is_ipv4_chars(s: Seq<char>) -> bool {
    let dots = sep_positions(s, '.');
    &&& dots.len() == 3
    &&& ipv4_group_ok(s.subrange(0, dots[0]))
    &&& ipv4_group_ok(s.subrange(dots[0] + 1, dots[1]))
    &&& ipv4_group_ok(s.subrange(dots[1] + 1, dots[2]))
    &&& ipv4_group_ok(s.subrange(dots[2] + 1, s.len() as int))
}

/// The address value of a valid IPv4 text.
pub open spec fn ipv4_chars_value(s: Seq<char>) -> nat {
    let dots = sep_positions(s, '.');
    spec_v4_from_octets(
        dec_val(s.subrange(0, dots[0])),
        dec_val(s.subrange(dots[0] + 1, dots[1])),
        dec_val(s.subrange(dots[1] + 1, dots[2])),
        dec_val(s.subrange(dots[2] + 1, s.len() as int)),
    )
}

/// The colon positions split `s` into eight groups; true when every group is
/// a valid IPv6 group.
pub open spec fn is_ipv6_chars(s: Seq<char>) -> bool {
    let cols = sep_positions(s, ':');
    &&& cols.len() == 7
    &&& ipv6_group_ok(s.subrange(0, cols[0]))
    &&& forall|k: int|
        1 <= k < 7 ==> ipv6_group_ok(s.subrange(#[trigger] cols[k - 1] + 1, cols[k]))
    &&& ipv6_group_ok(s.subrange(cols[6] + 1, s.len() as int))
}

/// The sixteen-bit groups of a valid IPv6 text, most significant first.
pub open spec fn ipv6_chars_groups(s: Seq<char>) -> Seq<nat> {
    let cols = sep_positions(s, ':');
    Seq::new(
        8,
        |k: int|
            if k == 0 {
                hex_val(s.subrange(0, cols[0]))
            } else if k < 7 {
                hex_val(s.subrange(cols[k - 1] + 1, cols[k]))
            } else {
                hex_val(s.subrange(cols[6] + 1, s.len() as int))
            },
    )
}

/// Packs eight sixteen-bit groups big-endian into one value.
pub open spec fn ipv6_pack(gs: Seq<nat>) -> nat
    decreases gs.len(),
{
    if gs.len() == 0 {
        0
    } else {
        ipv6_pack(gs.drop_last()) * 0x10000 + gs.last()
    }
}

/// 2 to the power of 16 k.
pub open spec fn pow2_16k(k: nat) -> nat
    decreases k,
{
    if k == 0 {
        1
    } else {
        pow2_16k((k - 1) as nat) * 0x10000
    }
}

proof fn lemma_ipv6_pack_bound(gs: Seq<nat>)
    requires
        forall|i: int| 0 <= i < gs.len() ==> #[trigger] gs[i] <= 0xffff,
    ensures
        ipv6_pack(gs) < pow2_16k(gs.len()),
    decreases gs.len(),
{
    if gs.len() > 0 {
        let p = gs.drop_last();
        assert(forall|i: int| 0 <= i < p.len() ==> #[trigger] p[i] == gs[i]);
        lemma_ipv6_pack_bound(p);
    }
}

proof fn lemma_pow2_16k_8_value()
    ensures
        pow2_16k(8) == 0x1_0000_0000_0000_0000_0000_0000_0000_0000,
{
    assert(pow2_16k(0) == 1);
    assert(pow2_16k(1) == 0x1_0000);
    assert(pow2_16k(2) == 0x1_0000_0000);
    assert(pow2_16k(3) == 0x1_0000_0000_0000);
    assert(pow2_16k(4) == 0x1_0000_0000_0000_0000);
    assert(pow2_16k(5) == 0x1_0000_0000_0000_0000_0000);
    assert(pow2_16k(6) == 0x1_0000_0000_0000_0000_0000_0000);
    assert(pow2_16k(7) == 0x1_0000_0000_0000_0000_0000_0000_0000);
    assert(pow2_16k(8) == 0x1_0000_0000_0000_0000_0000_0000_0000_0000);
}

proof fn lemma_pow2_16k_le_8(k: nat)
    requires
        k <= 8,
    ensures
        pow2_16k(k) <= pow2_16k(8),
        pow2_16k(8) == 0x1_0000_0000_0000_0000_0000_0000_0000_0000,
    decreases 8 - k,
{
    lemma_pow2_16k_8_value();
    if k < 8 {
        lemma_pow2_16k_le_8(k + 1);
    }
}

/// Parses IPv4 text.
pub fn parse_ipv4(s: &str) -> (r: Option<u32>)
    ensures
        r is Some <==> is_ipv4_chars(s@),
        r matches Some(v) ==> v == ipv4_chars_value(s@),
{
    proof {
        lemma_sep_positions_bounds(s@, '.');
    }
    let dots = find_separators(s, '.');
    if dots.len() != 3 {
        return None;
    }
    let ghost ps = sep_positions(s@, '.');
    proof {
        assert(dots@[0] as int == ps[0]);
        assert(dots@[1] as int == ps[1]);
        assert(dots@[2] as int == ps[2]);
        assert(0 <= ps[0] < s@.len());
        assert(0 <= ps[2] < s@.len());
        assert(ps[0] < ps[1]);
        assert(ps[1] < ps[2]);
    }
    let d0 = dots[0];
    let d1 = dots[1];
    let d2 = dots[2];
    let n = s.unicode_len();
    let a = match parse_v4_group(s, 0, d0) {
        Some(v) => v,
        None => { return None; },
    };
    let b = match parse_v4_group(s, d0 + 1, d1) {
        Some(v) => v,
        None => { return None; },
    };
    let c = match parse_v4_group(s, d1 + 1, d2) {
        Some(v) => v,
        None => { return None; },
    };
    let d = match parse_v4_group(s, d2 + 1, n) {
        Some(v) => v,
        None => { return None; },
    };
    Some(v4_from_octets(a, b, c, d))
}

/// Parses IPv6 text (the eight-group form).
pub fn parse_ipv6(s: &str) -> (r: Option<u128>)
    ensures
        r is Some <==> is_ipv6_chars(s@),
        r matches Some(v) ==> v == ipv6_pack(ipv6_chars_groups(s@)),
{
    proof {
        lemma_sep_positions_bounds(s@, ':');
    }
    let cols = find_separators(s, ':');
    if cols.len() != 7 {
        return None;
    }
    let ghost ps = sep_positions(s@, ':');
    proof {
        assert forall|i: int| 0 <= i < 7 implies cols@[i] as int == #[trigger] ps[i] by {
            assert(cols@[i] as int == sep_positions(s@, ':')[i]);
        }
        assert forall|i: int| 0 <= i < 7 implies 0 <= #[trigger] ps[i] < s@.len() by {
            assert(0 <= sep_positions(s@, ':')[i] < s@.len());
        }
    }
    let n = s.unicode_len();
    let mut groups: Vec<u16> = Vec::new();
    proof {
        assert(cols@[0] as int == ps[0]);
        assert(0 <= ps[0] < s@.len());
    }
    let g0 = match parse_v6_group(s, 0, cols[0]) {
        Some(v) => v,
        None => { return None; },
    };
    groups.push(g0);
    let mut k: usize = 1;
    while k < 7
        invariant
            1 <= k <= 7,
            cols@.len() == 7,
            ps == sep_positions(s@, ':'),
            ps.len() == 7,
            n == s@.len(),
            forall|i: int| 0 <= i < 7 ==> cols@[i] as int == #[trigger] ps[i],
            forall|i: int| 0 <= i < 7 ==> 0 <= #[trigger] ps[i] < s@.len(),
            forall|i: int, j: int| 0 <= i < j < 7 ==> ps[i] < ps[j],
            groups@.len() == k,
            ipv6_group_ok(s@.subrange(0, ps[0])),
            groups@[0] as nat == hex_val(s@.subrange(0, ps[0])),
            forall|i: int|
                1 <= i < k ==> ipv6_group_ok(s@.subrange(#[trigger] ps[i - 1] + 1, ps[i])),
            forall|i: int|
                1 <= i < k ==> #[trigger] groups@[i] as nat == hex_val(
                    s@.subrange(ps[i - 1] + 1, ps[i]),
                ),
        decreases 7 - k,
    {
        let lo = cols[k - 1];
        let hi = cols[k];
        proof {
            assert(lo as int == ps[k - 1]);
            assert(hi as int == ps[k as int]);
            assert(ps[k - 1] < ps[k as int]);
            assert(ps[k as int] < s@.len());
        }
        let g = match parse_v6_group(s, lo + 1, hi) {
            Some(v) => v,
            None => { return None; },
        };
        groups.push(g);
        k = k + 1;
    }
    proof {
        assert(cols@[6] as int == ps[6]);
        assert(0 <= ps[6] < s@.len());
    }
    let g7 = match parse_v6_group(s, cols[6] + 1, n) {
        Some(v) => v,
        None => { return None; },
    };
    groups.push(g7);
    proof {
        assert(is_ipv6_chars(s@));
        assert forall|i: int| 0 <= i < 8 implies #[trigger] groups@[i] as nat == ipv6_chars_groups(
            s@,
        )[i] by {}
    }
    let ghost gsv = ipv6_chars_groups(s@);
    let mut val: u128 = 0;
    let mut k2: usize = 0;
    while k2 < 8
        invariant
            k2 <= 8,
            groups@.len() == 8,
            gsv == ipv6_chars_groups(s@),
            forall|i: int| 0 <= i < 8 ==> #[trigger] groups@[i] as nat == gsv[i],
            val as nat == ipv6_pack(gsv.subrange(0, k2 as int)),
        decreases 8 - k2,
    {
        let ghost sub = gsv.subrange(0, k2 as int);
        let ghost sub1 = gsv.subrange(0, k2 + 1 as int);
        proof {
            assert(sub1.drop_last() =~= sub);
            assert(sub1.last() == gsv[k2 as int]);
            assert(gsv[k2 as int] == groups@[k2 as int] as nat);
            assert forall|i: int| 0 <= i < sub.len() implies #[trigger] sub[i] <= 0xffff by {
                assert(sub[i] == gsv[i]);
                assert(gsv[i] == groups@[i] as nat);
            }
            lemma_ipv6_pack_bound(sub);
            lemma_pow2_16k_le_8(k2 as nat);
            assert(pow2_16k((k2 + 1) as nat) == pow2_16k(k2 as nat) * 0x10000);
            lemma_pow2_16k_le_8((k2 + 1) as nat);
        }
        val = val * 0x10000 + (groups[k2] as u128);
        k2 = k2 + 1;
    }
    proof {
        assert(gsv.subrange(0, 8) =~= gsv);
    }
    Some(val)
}

/// Parses IP address text: IPv4 first, the IPv6 form otherwise.
pub fn parse_ip(s: &str) -> (r: Option<IpAddr>)
    ensures
        r is Some <==> is_ipv4_chars(s@) || is_ipv6_chars(s@),
        r matches Some(ip) ==> if is_ipv4_chars(s@) {
            ip == IpAddr::V4(ipv4_chars_value(s@) as u32)
        } else {
            ip == IpAddr::V6(ipv6_pack(ipv6_chars_groups(s@)) as u128)
        },
{
    match parse_ipv4(s) {
        Some(v) => Some(IpAddr::V4(v)),
        None => {
            match parse_ipv6(s) {
                Some(v) => Some(IpAddr::V6(v)),
                None => None,
            }
        },
    }
}

// ---------------------------------------------------------------------------
// Network (CIDR) text
// ---------------------------------------------------------------------------

/// A valid prefix group: one to three digits whose value fits the family's
/// bit width.
pub open spec fn prefix_group_ok(g: Seq<char>, bits: nat) -> bool {
    ipv4_group_ok(g) && dec_val(g) <= bits
}

/// Network text is either plain IP address text, which stands for the
/// full-length network of that address, or address text, a slash, and a
/// prefix length within the family's bit width.
pub open spec fn spec_parse_ip_network(s: Seq<char>) -> Option<IpNetwork> {
    let slashes = sep_positions(s, '/');
    if slashes.len() == 0 {
        if is_ipv4_chars(s) {
            Option::Some(IpNetwork { addr: IpAddr::V4(ipv4_chars_value(s) as u32), prefix: 32 })
        } else if is_ipv6_chars(s) {
            Option::Some(
                IpNetwork { addr: IpAddr::V6(ipv6_pack(ipv6_chars_groups(s)) as u128), prefix: 128 },
            )
        } else {
            Option::None
        }
    } else if slashes.len() == 1 {
        let head = s.subrange(0, slashes[0]);
        let tail = s.subrange(slashes[0] + 1, s.len() as int);
        if is_ipv4_chars(head) && prefix_group_ok(tail, 32) {
            Option::Some(
                IpNetwork {
                    addr: IpAddr::V4(ipv4_chars_value(head) as u32),
                    prefix: dec_val(tail) as u8,
                },
            )
        } else if is_ipv6_chars(head) && prefix_group_ok(tail, 128) {
            Option::Some(
                IpNetwork {
                    addr: IpAddr::V6(ipv6_pack(ipv6_chars_groups(head)) as u128),
                    prefix: dec_val(tail) as u8,
                },
            )
        } else {
            Option::None
        }
    } else {
        Option::None
    }
}

/// A denoted network is always well formed.
pub proof fn lemma_spec_parse_ip_network_wf(s: Seq<char>)
    ensures
        spec_parse_ip_network(s) matches Some(n) ==> n.wf(),
{
}

/// Parses network text.
pub fn parse_ip_network(s: &str) -> (r: Option<IpNetwork>)
    ensures
        r == spec_parse_ip_network(s@),
{
    proof {
        lemma_sep_positions_bounds(s@, '/');
    }
    let slashes = find_separators(s, '/');
    if slashes.len() == 0 {
        let r = match parse_ip(s) {
            Some(ip) => Some(IpNetwork::single(ip)),
            None => None,
        };
        proof {
            assert(sep_positions(s@, '/').len() == 0);
            assert(r == spec_parse_ip_network(s@));
        }
        r
    } else if slashes.len() == 1 {
        let p = slashes[0];
        proof {
            assert(p as int == sep_positions(s@, '/')[0]);
            assert(0 <= sep_positions(s@, '/')[0] < s@.len());
        }
        let n = s.unicode_len();
        let head = s.substring_char(0, p);
        let ghost hs = s@.subrange(0, p as int);
        let ghost ts = s@.subrange(p + 1, s@.len() as int);
        proof {
            assert(head@ == hs);
        }
        let prefix = match parse_v4_group(s, p + 1, n) {
            Some(v) => v,
            None => {
                proof {
                    assert(!ipv4_group_ok(ts));
                    assert(spec_parse_ip_network(s@) is None);
                }
                return None;
            },
        };
        proof {
            assert(ipv4_group_ok(ts) && prefix == dec_val(ts));
        }
        let r = match parse_ipv4(head) {
            Some(v) => {
                if prefix <= 32 {
                    Some(IpNetwork { addr: IpAddr::V4(v), prefix })
                } else {
                    match parse_ipv6(head) {
                        Some(w) => {
                            if prefix <= 128 {
                                Some(IpNetwork { addr: IpAddr::V6(w), prefix })
                            } else {
                                None
                            }
                        },
                        None => None,
                    }
                }
            },
            None => {
                match parse_ipv6(head) {
                    Some(w) => {
                        if prefix <= 128 {
                            Some(IpNetwork { addr: IpAddr::V6(w), prefix })
                        } else {
                            None
                        }
                    },
                    None => None,
                }
            },
        };
        proof {
            assert(r == spec_parse_ip_network(s@));
        }
        r
    } else {
        proof {
            assert(sep_positions(s@, '/').len() >= 2);
            assert(spec_parse_ip_network(s@) is None);
        }
        None
    }
}

} // verus!
