//! Destination addresses: a named authority (`host:port`) or a socket
//! address, and the parser that reads an authority out of header bytes.

use vstd::prelude::*;

verus! {

/// A DNS name together with a port.
#[derive(Debug, Clone, PartialEq, Eq, Hash)]
pub struct NameAddr {
    pub name: Vec<u8>,
    pub port: u16,
}

/// A socket address (IPv4), as plain values.
#[derive(Debug, Clone, Copy, PartialEq, Eq, Hash, Structural)]
pub struct SockAddr {
    pub ip: u32,
    pub port: u16,
}

/// A destination address: a named authority or a socket address.
#[derive(Debug, Clone, PartialEq, Eq, Hash)]
pub enum Addr {
    Name(NameAddr),
    Sock(SockAddr),
}

/// Mathematical value of an `Addr`.
pub ghost enum AddrV {
    Name(Seq<u8>, u16),
    Sock(u32, u16),
}

impl View for NameAddr {
    type V = (Seq<u8>, u16);

    open spec fn view(&self) -> (Seq<u8>, u16) {
        (self.name@, self.port)
    }
}

impl View for Addr {
    type V = AddrV;

    open spec fn view(&self) -> AddrV {
        match self {
            Addr::Name(na) => AddrV::Name(na.name@, na.port),
            Addr::Sock(sa) => AddrV::Sock(sa.ip, sa.port),
        }
    }
}

impl NameAddr {
    /// An owned copy with the same name bytes and port.
    pub fn dup(&self) -> (r: NameAddr)
        ensures
            r@ == self@,
    {
        let name = clone_bytes(&self.name);
        NameAddr { name, port: self.port }
    }

    /// Byte-for-byte equality of two named authorities.
    pub fn same(&self, other: &NameAddr) -> (r: bool)
        ensures
            r <==> self@ == other@,
    {
        if self.port != other.port {
            proof {
                assert(self@ != other@);
            }
            return false;
        }
        let r = bytes_eq(&self.name, &other.name);
        proof {
            if r {
                assert(self@ == other@);
            } else {
                assert(self@.0 != other@.0);
            }
        }
        r
    }
}

impl Addr {
    /// Equality of two destination addresses, by value.
    pub fn same(&self, other: &Addr) -> (r: bool)
        ensures
            r <==> self@ == other@,
    {
        match (self, other) {
            (Addr::Name(a), Addr::Name(b)) => a.same(b),
            (Addr::Sock(a), Addr::Sock(b)) => *a == *b,
            _ => {
                proof {
                    assert(self@ != other@);
                }
                false
            },
        }
    }

    /// An owned copy with the same value.
    pub fn dup(&self) -> (r: Addr)
        ensures
            r@ == self@,
    {
        match self {
            Addr::Name(na) => Addr::Name(na.dup()),
            Addr::Sock(sa) => Addr::Sock(*sa),
        }
    }

    /// The named authority, if this address is one.
    pub fn name_addr(&self) -> (r: Option<&NameAddr>)
        ensures
            match r {
                Some(na) => self@ == AddrV::Name(na.name@, na.port),
                None => self@ is Sock,
            },
    {
        match self {
            Addr::Name(na) => Some(na),
            Addr::Sock(_) => None,
        }
    }
}

/// An owned copy of a byte vector.
pub fn clone_bytes(v: &Vec<u8>) -> (r: Vec<u8>)
    ensures
        r@ == v@,
{
    let mut r: Vec<u8> = Vec::new();
    let mut i: usize = 0;
    while i < v.len()
        invariant
            i <= v.len(),
            r@ == v@.subrange(0, i as int),
        decreases v.len() - i,
    {
        r.push(v[i]);
        proof {
            assert(r@ =~= v@.subrange(0, i + 1 as int));
        }
        i = i + 1;
    }
    proof {
        assert(r@ =~= v@);
    }
    r
}

/// Byte-for-byte equality of two byte vectors.
pub fn bytes_eq(a: &Vec<u8>, b: &Vec<u8>) -> (r: bool)
    ensures
        r <==> a@ == b@,
{
    if a.len() != b.len() {
        proof {
            assert(a@ != b@);
        }
        return false;
    }
    let mut i: usize = 0;
    while i < a.len()
        invariant
            i <= a.len(),
            a@.len() == b@.len(),
            forall|j: int| 0 <= j < i ==> a@[j] == b@[j],
        decreases a.len() - i,
    {
        if a[i] != b[i] {
            return false;
        }
        i = i + 1;
    }
    proof {
        assert(a@ =~= b@);
    }
    true
}

/// An ASCII decimal digit.
pub open spec fn is_digit(b: u8) -> bool {
    48 <= b <= 57
}

/// Every byte of `s` is a decimal digit.
pub open spec fn all_digits(s: Seq<u8>) -> bool {
    forall|i: int| 0 <= i < s.len() ==> is_digit(#[trigger] s[i])
}

/// The number written by the decimal digits `s` (most significant first).
pub open spec fn dec_value(s: Seq<u8>) -> int
    decreases s.len(),
{
    if s.len() == 0 {
        0
    } else {
        dec_value(s.drop_last()) * 10 + (s.last() - 48)
    }
}

/// Ten to the power `n`.
pub open spec fn pow_ten(n: nat) -> int
    decreases n,
{
    if n == 0 {
        1
    } else {
        10 * pow_ten((n - 1) as nat)
    }
}

proof fn lemma_pow_ten_vals()
    ensures
        pow_ten(0) == 1,
        pow_ten(1) == 10,
        pow_ten(2) == 100,
        pow_ten(3) == 1000,
        pow_ten(4) == 10000,
        pow_ten(5) == 100000,
{
    assert(pow_ten(0) == 1);
    assert(pow_ten(1) == 10);
    assert(pow_ten(2) == 100);
    assert(pow_ten(3) == 1000);
    assert(pow_ten(4) == 10000);
    assert(pow_ten(5) == 100000);
}

/// Digit strings accepted as a port: one to five digits whose value fits
/// in a `u16`.
pub open spec fn valid_port_digits(s: Seq<u8>) -> bool {
    1 <= s.len() <= 5 && all_digits(s) && dec_value(s) <= 65535
}

/// `i` is the position of the first colon in `s`.
pub open spec fn first_colon(s: Seq<u8>, i: int) -> bool {
    0 <= i < s.len() && s[i] == 58 && (forall|j: int| 0 <= j < i ==> s[j] != 58)
}

/// What `parse_authority` accepts: `host:port` splits `s` at its first
/// colon, with a non-empty host and a valid port; a colon-free non-empty
/// `s` is a host alone and takes the default port, when one is given.
pub open spec fn spec_parse_authority(s: Seq<u8>, default_port: Option<u16>) -> Option<
    (Seq<u8>, u16),
> {
    if exists|i: int| first_colon(s, i) {
        let i = choose|i: int| first_colon(s, i);
        if i >= 1 && valid_port_digits(s.subrange(i + 1, s.len() as int)) {
            Some((s.subrange(0, i), dec_value(s.subrange(i + 1, s.len() as int)) as u16))
        } else {
            None
        }
    } else if s.len() >= 1 {
        match default_port {
            Some(p) => Some((s, p)),
            None => None,
        }
    } else {
        None
    }
}

/// Parses an authority of the form `host:port` (or, with a default port,
/// a bare `host`) into a named address.
pub fn parse_authority(s: &Vec<u8>, default_port: Option<u16>) -> (r: Option<NameAddr>)
    ensures
        match r {
            Some(na) => spec_parse_authority(s@, default_port) == Some((na.name@, na.port)),
            None => spec_parse_authority(s@, default_port) is None,
        },
{
    // Find the first colon.
    let mut i: usize = 0;
    let mut colon: Option<usize> = None;
    while i < s.len() && colon.is_none()
        invariant
            i <= s.len(),
            match colon {
                Some(c) => first_colon(s@, c as int) && c == i,
                None => forall|j: int| 0 <= j < i ==> s@[j] != 58,
            },
        decreases s.len() - i + (if colon is None { 1int } else { 0int }),
    {
        if s[i] == 58 {
            colon = Some(i);
        } else {
            i = i + 1;
        }
    }
    match colon {
        None => {
            proof {
                assert(forall|j: int| first_colon(s@, j) ==> false);
            }
            if s.len() >= 1 {
                match default_port {
                    Some(p) => Some(NameAddr { name: clone_bytes(s), port: p }),
                    None => None,
                }
            } else {
                None
            }
        },
        Some(c) => {
            proof {
                let w = choose|i: int| first_colon(s@, i);
                assert(first_colon(s@, c as int));
                assert(w == c as int);
            }
            if c < 1 {
                return None;
            }
            // Parse the digits after the colon.
            let ghost digits: Seq<u8> = s@.subrange(c + 1, s@.len() as int);
            let dlen = s.len() - c - 1;
            if dlen < 1 || dlen > 5 {
                proof {
                    assert(!valid_port_digits(digits));
                }
                return None;
            }
            let mut k: usize = 0;
            let mut acc: u32 = 0;
            while k < dlen
                invariant
                    k <= dlen,
                    dlen == s@.len() - c - 1,
                    1 <= dlen <= 5,
                    c + 1 + dlen == s@.len(),
                    1 <= c < s@.len(),
                    first_colon(s@, c as int),
                    s@.len() <= usize::MAX,
                    digits == s@.subrange(c + 1, s@.len() as int),
                    all_digits(digits.subrange(0, k as int)),
                    acc == dec_value(digits.subrange(0, k as int)),
                    acc < pow_ten(k as nat),
                    pow_ten(k as nat) <= 100000,
                decreases dlen - k,
            {
                proof {
                    assert(c + 1 + k < s@.len());
                }
                let b = s[c + 1 + k];
                proof {
                    assert(digits[k as int] == s@[c + 1 + k]);
                }
                if b < 48 || b > 57 {
                    proof {
                        assert(!is_digit(digits[k as int]));
                        assert(!all_digits(digits));
                        assert(!valid_port_digits(digits));
                        assert(first_colon(s@, c as int));
                        assert(exists|i: int| first_colon(s@, i));
                        let w = choose|i: int| first_colon(s@, i);
                        assert(w == c as int);
                        assert(!valid_port_digits(s@.subrange(w + 1, s@.len() as int)));
                        assert(spec_parse_authority(s@, default_port) is None);
                    }
                    return None;
                }
                proof {
                    let pre = digits.subrange(0, k as int);
                    let nxt = digits.subrange(0, k + 1 as int);
                    assert(nxt.drop_last() =~= pre);
                    assert(nxt.last() == digits[k as int]);
                    lemma_pow_ten_vals();
                    assert(pow_ten((k + 1) as nat) == 10 * pow_ten(k as nat));
                    assert(pow_ten(k as nat) <= 10000) by {
                        if k == 0 {
                        } else if k == 1 {
                        } else if k == 2 {
                        } else if k == 3 {
                        } else {
                            assert(k == 4);
                        }
                    }
                }
                acc = acc * 10 + ((b - 48) as u32);
                k = k + 1;
            }
            proof {
                assert(digits.subrange(0, dlen as int) =~= digits);
            }
            if acc > 65535 {
                proof {
                    assert(!valid_port_digits(digits));
                }
                return None;
            }
            proof {
                assert(valid_port_digits(digits));
            }
            let name: Vec<u8> = copy_range(s, 0, c);
            Some(NameAddr { name, port: acc as u16 })
        },
    }
}

/// The canonical decimal digits of `n`, most significant first.
pub open spec fn spec_decimal(n: int) -> Seq<u8>
    decreases n,
{
    if n < 10 {
        seq![(48 + n) as u8]
    } else {
        spec_decimal(n / 10).push((48 + n % 10) as u8)
    }
}

/// The canonical decimal digits of a number: digits, non-empty, reading
/// back as the number, and no longer than the bound the number fits in.
pub proof fn lemma_spec_decimal(n: int)
    requires
        0 <= n,
    ensures
        all_digits(spec_decimal(n)),
        1 <= spec_decimal(n).len(),
        dec_value(spec_decimal(n)) == n,
        forall|k: nat| 1 <= k && n < pow_ten(k) ==> spec_decimal(n).len() <= k,
    decreases n,
{
    if n < 10 {
        let s = spec_decimal(n);
        assert(s.len() == 1);
        assert(s[0] == (48 + n) as u8);
        assert(all_digits(s));
        assert(s.drop_last() =~= Seq::<u8>::empty());
        assert(dec_value(s.drop_last()) == 0);
        assert(s.last() == (48 + n) as u8);
        assert(dec_value(s) == dec_value(s.drop_last()) * 10 + (s.last() - 48));
        assert(dec_value(s) == n);
    } else {
        lemma_spec_decimal(n / 10);
        let pre = spec_decimal(n / 10);
        let s = spec_decimal(n);
        let d = (48 + n % 10) as u8;
        assert(s == pre.push(d));
        assert(s.drop_last() =~= pre);
        assert(s.last() == d);
        vstd::arithmetic::div_mod::lemma_fundamental_div_mod(n, 10);
        assert(dec_value(s) == dec_value(pre) * 10 + (n % 10));
        assert(dec_value(pre) == n / 10);
        assert(n == 10 * (n / 10) + n % 10);
        assert((n / 10) * 10 == 10 * (n / 10)) by (nonlinear_arith);
        assert(dec_value(s) == n);
        assert forall|i: int| 0 <= i < s.len() implies is_digit(#[trigger] s[i]) by {
            if i < pre.len() {
                assert(s[i] == pre[i]);
            } else {
                assert(s[i] == d);
            }
        }
        assert forall|k: nat| 1 <= k && n < pow_ten(k) implies s.len() <= k by {
            assert(pow_ten(k) == 10 * pow_ten((k - 1) as nat));
            assert(10 * (n / 10) <= n);
            assert(10 * (n / 10) < 10 * pow_ten((k - 1) as nat));
            assert(n / 10 < pow_ten((k - 1) as nat));
            assert(1 <= (k - 1) as nat && n / 10 < pow_ten((k - 1) as nat) ==> pre.len() <= (k
                - 1) as nat);
            if k == 1 {
                assert(pow_ten(1) == 10);
                assert(false);
            }
        }
    }
}

/// Renders `n` as canonical decimal digits.
pub fn decimal_bytes(n: u16) -> (r: Vec<u8>)
    ensures
        r@ == spec_decimal(n as int),
    decreases n,
{
    if n < 10 {
        let mut v: Vec<u8> = Vec::new();
        v.push(48 + n as u8);
        proof {
            assert(v@ =~= spec_decimal(n as int));
        }
        v
    } else {
        let mut v = decimal_bytes(n / 10);
        v.push(48 + (n % 10) as u8);
        v
    }
}

impl NameAddr {
    /// The authority `host:port` this address writes as.
    pub fn authority_bytes(&self) -> (r: Vec<u8>)
        ensures
            r@ == self.name@ + seq![58u8] + spec_decimal(self.port as int),
    {
        let mut r = clone_bytes(&self.name);
        r.push(58);
        let mut d = decimal_bytes(self.port);
        r.append(&mut d);
        proof {
            assert(r@ =~= self.name@ + seq![58u8] + spec_decimal(self.port as int));
        }
        r
    }
}

/// The authority a destination address writes as: `host:port` for a
/// name, dotted-quad `a.b.c.d:port` for a socket address.
pub open spec fn spec_authority(a: AddrV) -> Seq<u8> {
    match a {
        AddrV::Name(n, p) => n + seq![58u8] + spec_decimal(p as int),
        AddrV::Sock(ip, p) => spec_decimal(ip as int / 16777216) + seq![46u8] + spec_decimal(
            (ip as int / 65536) % 256,
        ) + seq![46u8] + spec_decimal((ip as int / 256) % 256) + seq![46u8] + spec_decimal(
            ip as int % 256,
        ) + seq![58u8] + spec_decimal(p as int),
    }
}

impl Addr {
    /// Renders the authority this address writes as.
    pub fn authority_bytes(&self) -> (r: Vec<u8>)
        ensures
            r@ == spec_authority(self@),
    {
        match self {
            Addr::Name(na) => {
                let r = na.authority_bytes();
                r
            },
            Addr::Sock(sa) => {
                proof {
                    assert(sa.ip / 16777216 <= 255);
                }
                let mut r = decimal_bytes((sa.ip / 16777216) as u16);
                r.push(46);
                let mut o1 = decimal_bytes(((sa.ip / 65536) % 256) as u16);
                r.append(&mut o1);
                r.push(46);
                let mut o2 = decimal_bytes(((sa.ip / 256) % 256) as u16);
                r.append(&mut o2);
                r.push(46);
                let mut o3 = decimal_bytes((sa.ip % 256) as u16);
                r.append(&mut o3);
                r.push(58);
                let mut p = decimal_bytes(sa.port);
                r.append(&mut p);
                proof {
                    assert(r@ =~= spec_authority(self@));
                }
                r
            },
        }
    }
}

/// Rendering an authority and parsing it back yields the same address,
/// for host names that are non-empty and free of colons.
pub proof fn lemma_authority_round_trip(na: NameAddr)
    requires
        na.name@.len() >= 1,
        forall|i: int| 0 <= i < na.name@.len() ==> na.name@[i] != 58,
    ensures
        spec_parse_authority(na.name@ + seq![58u8] + spec_decimal(na.port as int), None) == Some(
            (na.name@, na.port),
        ),
{
    let digits = spec_decimal(na.port as int);
    let s = na.name@ + seq![58u8] + digits;
    let c = na.name@.len() as int;
    lemma_spec_decimal(na.port as int);
    lemma_pow_ten_vals();
    assert(na.port < pow_ten(5));
    assert(digits.len() <= 5);
    assert(s[c] == 58);
    assert forall|j: int| 0 <= j < c implies s[j] != 58 by {
        assert(s[j] == na.name@[j]);
    }
    assert(first_colon(s, c));
    let w = choose|i: int| first_colon(s, i);
    assert(w == c);
    assert(s.subrange(c + 1, s.len() as int) =~= digits);
    assert(valid_port_digits(digits));
    assert(s.subrange(0, c) =~= na.name@);
}

/// An owned copy of `v[from..to]`.
pub fn copy_range(v: &Vec<u8>, from: usize, to: usize) -> (r: Vec<u8>)
    requires
        from <= to <= v@.len(),
    ensures
        r@ == v@.subrange(from as int, to as int),
{
    let mut r: Vec<u8> = Vec::new();
    let mut i: usize = from;
    while i < to
        invariant
            from <= i <= to <= v@.len(),
            r@ == v@.subrange(from as int, i as int),
        decreases to - i,
    {
        r.push(v[i]);
        proof {
            assert(r@ =~= v@.subrange(from as int, i + 1 as int));
        }
        i = i + 1;
    }
    r
}

} // verus!
