//! Base64 encoding (standard alphabet, `=` padding), used for the
//! `Proxy-Authorization: Basic` credential on CONNECT requests.

use vstd::prelude::*;

verus! {

/// The standard-alphabet symbol for a six-bit value.
pub open spec fn b64_char(d: nat) -> u8 {
    if d < 26 {
        (65 + d) as u8
    } else if d < 52 {
        (97 + (d - 26)) as u8
    } else if d < 62 {
        (48 + (d - 52)) as u8
    } else if d == 62 {
        43u8
    } else {
        47u8
    }
}

/// Four symbols for a full three-byte group.
pub open spec fn b64_group3(a: u8, b: u8, c: u8) -> Seq<u8> {
    seq![
        b64_char((a / 4) as nat),
        b64_char(((a % 4) * 16 + b / 16) as nat),
        b64_char(((b % 16) * 4 + c / 64) as nat),
        b64_char((c % 64) as nat),
    ]
}

/// Three symbols and one pad for a trailing two-byte group.
pub open spec fn b64_group2(a: u8, b: u8) -> Seq<u8> {
    seq![
        b64_char((a / 4) as nat),
        b64_char(((a % 4) * 16 + b / 16) as nat),
        b64_char(((b % 16) * 4) as nat),
        61u8,
    ]
}

/// Two symbols and two pads for a trailing one-byte group.
pub open spec fn b64_group1(a: u8) -> Seq<u8> {
    seq![b64_char((a / 4) as nat), b64_char(((a % 4) * 16) as nat), 61u8, 61u8]
}

/// The base64 text of a byte string.
pub open spec fn b64_encode(bs: Seq<u8>) -> Seq<u8>
    decreases bs.len(),
{
    if bs.len() == 0 {
        Seq::empty()
    } else if bs.len() == 1 {
        b64_group1(bs[0])
    } else if bs.len() == 2 {
        b64_group2(bs[0], bs[1])
    } else {
        b64_group3(bs[0], bs[1], bs[2]) + b64_encode(bs.skip(3))
    }
}

/// Encoding distributes over a split at a multiple of three bytes.
proof fn lemma_b64_split(s: Seq<u8>, t: Seq<u8>)
    requires
        s.len() % 3 == 0,
    ensures
        b64_encode(s + t) == b64_encode(s) + b64_encode(t),
    decreases s.len(),
{
    if s.len() == 0 {
        assert(s + t =~= t);
        assert(b64_encode(s) + b64_encode(t) =~= b64_encode(t));
    } else {
        let u = s + t;
        assert(s.len() >= 3);
        assert(u.len() >= 3);
        assert(u[0] == s[0] && u[1] == s[1] && u[2] == s[2]);
        assert(u.skip(3) =~= s.skip(3) + t);
        assert(s.skip(3).len() % 3 == 0);
        lemma_b64_split(s.skip(3), t);
        assert(b64_encode(s) =~= b64_group3(s[0], s[1], s[2]) + b64_encode(s.skip(3)));
        assert(b64_encode(u) =~= b64_encode(s) + b64_encode(t));
    }
}

fn b64_sym(d: u8) -> (r: u8)
    requires
        d < 64,
    ensures
        r == b64_char(d as nat),
{
    if d < 26 {
        65 + d
    } else if d < 52 {
        97 + (d - 26)
    } else if d < 62 {
        48 + (d - 52)
    } else if d == 62 {
        43
    } else {
        47
    }
}

/// Appends the base64 text of `bs` to `out`.
pub fn push_b64(out: &mut Vec<u8>, bs: &Vec<u8>)
    ensures
        final(out)@ == old(out)@ + b64_encode(bs@),
{
    let n = bs.len();
    let mut i: usize = 0;
    while n - i >= 3
        invariant
            n == bs@.len(),
            i <= n,
            i % 3 == 0,
            out@ == old(out)@ + b64_encode(bs@.subrange(0, i as int)),
        decreases n - i,
    {
        let a = bs[i];
        let b = bs[i + 1];
        let c = bs[i + 2];
        out.push(b64_sym(a / 4));
        out.push(b64_sym((a % 4) * 16 + b / 16));
        out.push(b64_sym((b % 16) * 4 + c / 64));
        out.push(b64_sym(c % 64));
        proof {
            let p = bs@.subrange(0, i as int);
            let chunk = bs@.subrange(i as int, i + 3);
            assert(bs@.subrange(0, i + 3) =~= p + chunk);
            lemma_b64_split(p, chunk);
            assert(chunk.len() == 3);
            assert(chunk[0] == a && chunk[1] == b && chunk[2] == c);
            assert(chunk.skip(3) =~= Seq::<u8>::empty());
            assert(b64_encode(Seq::<u8>::empty()) =~= Seq::<u8>::empty());
            assert(b64_encode(chunk) == b64_group3(chunk[0], chunk[1], chunk[2]) + b64_encode(
                chunk.skip(3),
            ));
            assert(b64_encode(chunk) =~= b64_group3(a, b, c));
            assert(out@ =~= old(out)@ + b64_encode(bs@.subrange(0, i + 3)));
        }
        i = i + 3;
    }
    let rest = n - i;
    let ghost p = bs@.subrange(0, i as int);
    let ghost tail = bs@.subrange(i as int, n as int);
    proof {
        assert(bs@.subrange(0, n as int) =~= p + tail);
        lemma_b64_split(p, tail);
        assert(bs@.subrange(0, n as int) =~= bs@);
    }
    if rest == 1 {
        let a = bs[i];
        out.push(b64_sym(a / 4));
        out.push(b64_sym((a % 4) * 16));
        out.push(61);
        out.push(61);
        proof {
            assert(tail.len() == 1 && tail[0] == a);
            assert(b64_encode(tail) =~= b64_group1(a));
            assert(out@ =~= old(out)@ + b64_encode(bs@));
        }
    } else if rest == 2 {
        let a = bs[i];
        let b = bs[i + 1];
        out.push(b64_sym(a / 4));
        out.push(b64_sym((a % 4) * 16 + b / 16));
        out.push(b64_sym((b % 16) * 4));
        out.push(61);
        proof {
            assert(tail.len() == 2 && tail[0] == a && tail[1] == b);
            assert(b64_encode(tail) =~= b64_group2(a, b));
            assert(out@ =~= old(out)@ + b64_encode(bs@));
        }
    } else {
        proof {
            assert(tail.len() == 0);
            assert(b64_encode(tail) =~= Seq::<u8>::empty());
            assert(out@ =~= old(out)@ + b64_encode(bs@));
        }
    }
}

} // verus!
