//! IP addresses and their classification into named categories.
//!
//! An address is modelled as a number: an IPv4 address as the 32-bit number
//! whose most significant byte is the first octet, an IPv6 address as the
//! 128-bit number whose most significant 16 bits are the first segment. Every
//! named range is a block of consecutive numbers, stated by its first and its
//! last address. The executable tests look at octets and segments, mostly
//! through bit masks; each is proved to hold exactly on its block.

use vstd::arithmetic::div_mod::{
    lemma_fundamental_div_mod, lemma_fundamental_div_mod_converse, lemma_mod_bound,
};
use vstd::arithmetic::power2::{lemma2_to64, lemma_pow2_adds, lemma_pow2_pos, pow2};
use vstd::prelude::*;

verus! {

/// Category of an IP address.
#[derive(Debug, Clone, Copy, PartialEq, Eq, Hash, Structural)]
#[non_exhaustive]
pub enum IpClass {
    /// Loopback address (127.0.0.0/8, ::1).
    Loopback,
    /// Private network address (RFC 1918, IPv6 unique local).
    Private,
    /// Link-local address (169.254.0.0/16, fe80::/10).
    LinkLocal,
    /// Global unicast address: none of the other categories.
    Global,
    /// Multicast address (224.0.0.0/4, ff00::/8).
    Multicast,
    /// Unspecified address (0.0.0.0, ::).
    Unspecified,
    /// Broadcast address (255.255.255.255).
    Broadcast,
    /// Documentation address (TEST-NET-1, -2, -3 and 2001:db8::/32).
    Documentation,
    /// Shared address space for carrier-grade NAT (100.64.0.0/10, RFC 6598).
    SharedAddress,
    /// Benchmarking address (198.18.0.0/15, RFC 2544).
    Benchmarking,
}

/// An IPv4 address: four octets, the first one the most significant.
#[derive(Debug, Clone, Copy, PartialEq, Eq, Hash)]
pub struct Ipv4Address {
    pub octets: [u8; 4],
}

/// An IPv6 address: eight 16-bit segments, the first one the most significant.
#[derive(Debug, Clone, Copy, PartialEq, Eq, Hash)]
pub struct Ipv6Address {
    pub segments: [u16; 8],
}

/// An IP address of either family.
#[derive(Debug, Clone, Copy, PartialEq, Eq, Hash)]
pub enum Address {
    /// An IPv4 address.
    V4(Ipv4Address),
    /// An IPv6 address.
    V6(Ipv6Address),
}

/// Address family: which of the two kinds of address, and so which kind of
/// socket serves it.
#[derive(Debug, Clone, Copy, PartialEq, Eq, Hash, Structural)]
pub enum Family {
    /// IPv4.
    V4,
    /// IPv6.
    V6,
}

impl Address {
    /// The family of the address.
    pub open spec fn spec_family(&self) -> Family {
        match self {
            Address::V4(_) => Family::V4,
            Address::V6(_) => Family::V6,
        }
    }

    /// The family of the address.
    #[verifier::when_used_as_spec(spec_family)]
    pub fn family(&self) -> (family: Family)
        ensures
            family == self.spec_family(),
    {
        match self {
            Address::V4(_) => Family::V4,
            Address::V6(_) => Family::V6,
        }
    }
}

/// The number of the IPv4 address `a.b.c.d`.
pub open spec fn quad(a: int, b: int, c: int, d: int) -> int {
    ((a * 256 + b) * 256 + c) * 256 + d
}

/// The number of the IPv6 address `a:b:c:d:e:f:g:h`.
pub open spec fn hextets(a: int, b: int, c: int, d: int, e: int, f: int, g: int, h: int) -> int {
    ((((((a * 65536 + b) * 65536 + c) * 65536 + d) * 65536 + e) * 65536 + f) * 65536 + g) * 65536
        + h
}

/// Whether `n` lies in the block of addresses from `first` to `last`, both
/// included.
pub open spec fn between(n: int, first: int, last: int) -> bool {
    first <= n <= last
}

/// 127.0.0.0/8.
pub open spec fn v4_loopback(n: int) -> bool {
    between(n, quad(127, 0, 0, 0), quad(127, 255, 255, 255))
}

/// 0.0.0.0.
pub open spec fn v4_unspecified(n: int) -> bool {
    n == quad(0, 0, 0, 0)
}

/// 224.0.0.0/4.
pub open spec fn v4_multicast(n: int) -> bool {
    between(n, quad(224, 0, 0, 0), quad(239, 255, 255, 255))
}

/// 255.255.255.255.
pub open spec fn v4_broadcast(n: int) -> bool {
    n == quad(255, 255, 255, 255)
}

/// 169.254.0.0/16.
pub open spec fn v4_link_local(n: int) -> bool {
    between(n, quad(169, 254, 0, 0), quad(169, 254, 255, 255))
}

/// 192.0.2.0/24, 198.51.100.0/24 and 203.0.113.0/24.
pub open spec fn v4_documentation(n: int) -> bool {
    ||| between(n, quad(192, 0, 2, 0), quad(192, 0, 2, 255))
    ||| between(n, quad(198, 51, 100, 0), quad(198, 51, 100, 255))
    ||| between(n, quad(203, 0, 113, 0), quad(203, 0, 113, 255))
}

/// 100.64.0.0/10.
pub open spec fn v4_shared(n: int) -> bool {
    between(n, quad(100, 64, 0, 0), quad(100, 127, 255, 255))
}

/// 198.18.0.0/15.
pub open spec fn v4_benchmarking(n: int) -> bool {
    between(n, quad(198, 18, 0, 0), quad(198, 19, 255, 255))
}

/// 10.0.0.0/8, 172.16.0.0/12 and 192.168.0.0/16.
pub open spec fn v4_private(n: int) -> bool {
    ||| between(n, quad(10, 0, 0, 0), quad(10, 255, 255, 255))
    ||| between(n, quad(172, 16, 0, 0), quad(172, 31, 255, 255))
    ||| between(n, quad(192, 168, 0, 0), quad(192, 168, 255, 255))
}

/// ::1.
pub open spec fn v6_loopback(n: int) -> bool {
    n == hextets(0, 0, 0, 0, 0, 0, 0, 1)
}

/// The address `::`.
pub open spec fn v6_unspecified(n: int) -> bool {
    n == hextets(0, 0, 0, 0, 0, 0, 0, 0)
}

/// ff00::/8.
pub open spec fn v6_multicast(n: int) -> bool {
    between(
        n,
        hextets(0xff00, 0, 0, 0, 0, 0, 0, 0),
        hextets(0xffff, 0xffff, 0xffff, 0xffff, 0xffff, 0xffff, 0xffff, 0xffff),
    )
}

/// fe80::/10.
pub open spec fn v6_link_local(n: int) -> bool {
    between(
        n,
        hextets(0xfe80, 0, 0, 0, 0, 0, 0, 0),
        hextets(0xfebf, 0xffff, 0xffff, 0xffff, 0xffff, 0xffff, 0xffff, 0xffff),
    )
}

/// 2001:db8::/32.
pub open spec fn v6_documentation(n: int) -> bool {
    between(
        n,
        hextets(0x2001, 0x0db8, 0, 0, 0, 0, 0, 0),
        hextets(0x2001, 0x0db8, 0xffff, 0xffff, 0xffff, 0xffff, 0xffff, 0xffff),
    )
}

/// fc00::/7.
pub open spec fn v6_unique_local(n: int) -> bool {
    between(
        n,
        hextets(0xfc00, 0, 0, 0, 0, 0, 0, 0),
        hextets(0xfdff, 0xffff, 0xffff, 0xffff, 0xffff, 0xffff, 0xffff, 0xffff),
    )
}

/// The category of the IPv4 address with number `n`: that of the first rule
/// that holds, in this order.
pub open spec fn ipv4_class(n: int) -> IpClass {
    if v4_loopback(n) {
        IpClass::Loopback
    } else if v4_unspecified(n) {
        IpClass::Unspecified
    } else if v4_multicast(n) {
        IpClass::Multicast
    } else if v4_broadcast(n) {
        IpClass::Broadcast
    } else if v4_link_local(n) {
        IpClass::LinkLocal
    } else if v4_documentation(n) {
        IpClass::Documentation
    } else if v4_shared(n) {
        IpClass::SharedAddress
    } else if v4_benchmarking(n) {
        IpClass::Benchmarking
    } else if v4_private(n) {
        IpClass::Private
    } else {
        IpClass::Global
    }
}

/// The category of the IPv6 address with number `n`: that of the first rule
/// that holds, in this order.
pub open spec fn ipv6_class(n: int) -> IpClass {
    if v6_loopback(n) {
        IpClass::Loopback
    } else if v6_unspecified(n) {
        IpClass::Unspecified
    } else if v6_multicast(n) {
        IpClass::Multicast
    } else if v6_link_local(n) {
        IpClass::LinkLocal
    } else if v6_documentation(n) {
        IpClass::Documentation
    } else if v6_unique_local(n) {
        IpClass::Private
    } else {
        IpClass::Global
    }
}

/// The category of an address. The two families have nothing in common: an
/// IPv6 address that embeds an IPv4 address goes by the IPv6 rules.
pub open spec fn ip_class(ip: Address) -> IpClass {
    match ip {
        Address::V4(a) => ipv4_class(a.number()),
        Address::V6(a) => ipv6_class(a.number()),
    }
}

impl Ipv4Address {
    /// The address as a number.
    pub open spec fn number(self) -> int {
        quad(
            self.octets[0] as int,
            self.octets[1] as int,
            self.octets[2] as int,
            self.octets[3] as int,
        )
    }

    /// The address `a.b.c.d`.
    pub fn new(a: u8, b: u8, c: u8, d: u8) -> (addr: Ipv4Address)
        ensures
            addr.octets@ == seq![a, b, c, d],
            addr.number() == quad(a as int, b as int, c as int, d as int),
    {
        Ipv4Address { octets: [a, b, c, d] }
    }

    /// Whether the address is in 127.0.0.0/8.
    pub fn is_loopback(&self) -> (r: bool)
        ensures
            r == v4_loopback(self.number()),
    {
        self.octets[0] == 127
    }

    /// Whether the address is 0.0.0.0.
    pub fn is_unspecified(&self) -> (r: bool)
        ensures
            r == v4_unspecified(self.number()),
    {
        self.octets[0] == 0 && self.octets[1] == 0 && self.octets[2] == 0 && self.octets[3] == 0
    }

    /// Whether the address is in 224.0.0.0/4: the first four bits are 1110.
    pub fn is_multicast(&self) -> (r: bool)
        ensures
            r == v4_multicast(self.number()),
    {
        let a: u8 = self.octets[0];
        assert((a & 0xf0 == 224) <==> (224 <= a <= 239)) by (bit_vector);
        a & 0xf0 == 224
    }

    /// Whether the address is 255.255.255.255.
    pub fn is_broadcast(&self) -> (r: bool)
        ensures
            r == v4_broadcast(self.number()),
    {
        self.octets[0] == 255 && self.octets[1] == 255 && self.octets[2] == 255 && self.octets[3]
            == 255
    }

    /// Whether the address is in 169.254.0.0/16.
    pub fn is_link_local(&self) -> (r: bool)
        ensures
            r == v4_link_local(self.number()),
    {
        self.octets[0] == 169 && self.octets[1] == 254
    }

    /// Whether the address is in one of the three blocks reserved for
    /// documentation.
    pub fn is_documentation(&self) -> (r: bool)
        ensures
            r == v4_documentation(self.number()),
    {
        let a: u8 = self.octets[0];
        let b: u8 = self.octets[1];
        let c: u8 = self.octets[2];
        (a == 192 && b == 0 && c == 2) || (a == 198 && b == 51 && c == 100) || (a == 203 && b == 0
            && c == 113)
    }

    /// Whether the address is in 100.64.0.0/10: the first octet is 100 and
    /// the second one begins with the bits 01.
    pub fn is_shared(&self) -> (r: bool)
        ensures
            r == v4_shared(self.number()),
    {
        let b: u8 = self.octets[1];
        assert((b & 0xc0 == 64) <==> (64 <= b <= 127)) by (bit_vector);
        self.octets[0] == 100 && b & 0xc0 == 64
    }

    /// Whether the address is in 198.18.0.0/15: the first octet is 198 and
    /// the second one, but for its last bit, is 18.
    pub fn is_benchmarking(&self) -> (r: bool)
        ensures
            r == v4_benchmarking(self.number()),
    {
        let b: u8 = self.octets[1];
        assert((b & 0xfe == 18) <==> (18 <= b <= 19)) by (bit_vector);
        self.octets[0] == 198 && b & 0xfe == 18
    }

    /// Whether the address is in one of the three private blocks of RFC 1918.
    pub fn is_private(&self) -> (r: bool)
        ensures
            r == v4_private(self.number()),
    {
        let a: u8 = self.octets[0];
        let b: u8 = self.octets[1];
        assert((b & 0xf0 == 16) <==> (16 <= b <= 31)) by (bit_vector);
        a == 10 || (a == 172 && b & 0xf0 == 16) || (a == 192 && b == 168)
    }
}

impl Ipv6Address {
    /// The address as a number.
    pub open spec fn number(self) -> int {
        hextets(
            self.segments[0] as int,
            self.segments[1] as int,
            self.segments[2] as int,
            self.segments[3] as int,
            self.segments[4] as int,
            self.segments[5] as int,
            self.segments[6] as int,
            self.segments[7] as int,
        )
    }

    /// The address `a:b:c:d:e:f:g:h`.
    pub fn new(a: u16, b: u16, c: u16, d: u16, e: u16, f: u16, g: u16, h: u16) -> (addr:
        Ipv6Address)
        ensures
            addr.segments@ == seq![a, b, c, d, e, f, g, h],
            addr.number() == hextets(
                a as int,
                b as int,
                c as int,
                d as int,
                e as int,
                f as int,
                g as int,
                h as int,
            ),
    {
        Ipv6Address { segments: [a, b, c, d, e, f, g, h] }
    }

    /// Whether the address is ::1.
    pub fn is_loopback(&self) -> (r: bool)
        ensures
            r == v6_loopback(self.number()),
    {
        self.segments[0] == 0 && self.segments[1] == 0 && self.segments[2] == 0 && self.segments[3]
            == 0 && self.segments[4] == 0 && self.segments[5] == 0 && self.segments[6] == 0
            && self.segments[7] == 1
    }

    /// Whether the address is `::`.
    pub fn is_unspecified(&self) -> (r: bool)
        ensures
            r == v6_unspecified(self.number()),
    {
        self.segments[0] == 0 && self.segments[1] == 0 && self.segments[2] == 0 && self.segments[3]
            == 0 && self.segments[4] == 0 && self.segments[5] == 0 && self.segments[6] == 0
            && self.segments[7] == 0
    }

    /// Whether the address is in ff00::/8: the first eight bits are set.
    pub fn is_multicast(&self) -> (r: bool)
        ensures
            r == v6_multicast(self.number()),
    {
        let a: u16 = self.segments[0];
        assert((a & 0xff00 == 0xff00) <==> (0xff00 <= a)) by (bit_vector);
        a & 0xff00 == 0xff00
    }

    /// Whether the address is in fe80::/10: the first ten bits are
    /// 1111111010.
    pub fn is_link_local(&self) -> (r: bool)
        ensures
            r == v6_link_local(self.number()),
    {
        let a: u16 = self.segments[0];
        assert((a & 0xffc0 == 0xfe80) <==> (0xfe80 <= a <= 0xfebf)) by (bit_vector);
        a & 0xffc0 == 0xfe80
    }

    /// Whether the address is in 2001:db8::/32.
    pub fn is_documentation(&self) -> (r: bool)
        ensures
            r == v6_documentation(self.number()),
    {
        self.segments[0] == 0x2001 && self.segments[1] == 0x0db8
    }

    /// Whether the address is in fc00::/7: the first seven bits are 1111110.
    pub fn is_unique_local(&self) -> (r: bool)
        ensures
            r == v6_unique_local(self.number()),
    {
        let a: u16 = self.segments[0];
        assert((a & 0xfe00 == 0xfc00) <==> (0xfc00 <= a <= 0xfdff)) by (bit_vector);
        a & 0xfe00 == 0xfc00
    }
}

/// Classifies an IP address into its category.
///
/// The rules are tried in a fixed order and the first one that holds
/// decides: loopback, unspecified, multicast; then, for IPv4, broadcast,
/// link-local, documentation, shared address space, benchmarking, private;
/// for IPv6, link-local, documentation, unique local. An address that meets
/// none of them is global.
#[must_use]
pub fn classify_ip(ip: Address) -> (class: IpClass)
    ensures
        class == ip_class(ip),
{
    match ip {
        Address::V4(a) => {
            if a.is_loopback() {
                IpClass::Loopback
            } else if a.is_unspecified() {
                IpClass::Unspecified
            } else if a.is_multicast() {
                IpClass::Multicast
            } else if a.is_broadcast() {
                IpClass::Broadcast
            } else if a.is_link_local() {
                IpClass::LinkLocal
            } else if a.is_documentation() {
                IpClass::Documentation
            } else if a.is_shared() {
                IpClass::SharedAddress
            } else if a.is_benchmarking() {
                IpClass::Benchmarking
            } else if a.is_private() {
                IpClass::Private
            } else {
                IpClass::Global
            }
        },
        Address::V6(a) => {
            if a.is_loopback() {
                IpClass::Loopback
            } else if a.is_unspecified() {
                IpClass::Unspecified
            } else if a.is_multicast() {
                IpClass::Multicast
            } else if a.is_link_local() {
                IpClass::LinkLocal
            } else if a.is_documentation() {
                IpClass::Documentation
            } else if a.is_unique_local() {
                IpClass::Private
            } else {
                IpClass::Global
            }
        },
    }
}

/// Whether the IPv4 address with number `n` lies in one of the named blocks.
pub open spec fn v4_reserved(n: int) -> bool {
    v4_loopback(n) || v4_unspecified(n) || v4_multicast(n) || v4_broadcast(n) || v4_link_local(n)
        || v4_documentation(n) || v4_shared(n) || v4_benchmarking(n) || v4_private(n)
}

/// Whether the IPv6 address with number `n` lies in one of the named blocks.
pub open spec fn v6_reserved(n: int) -> bool {
    v6_loopback(n) || v6_unspecified(n) || v6_multicast(n) || v6_link_local(n)
        || v6_documentation(n) || v6_unique_local(n)
}

/// Whether `ip` belongs to `class`, stated by the blocks of `class` alone and
/// without regard to the order of the rules. Global is what no block holds.
pub open spec fn in_category(ip: Address, class: IpClass) -> bool {
    match ip {
        Address::V4(a) => {
            let n = a.number();
            match class {
                IpClass::Loopback => v4_loopback(n),
                IpClass::Unspecified => v4_unspecified(n),
                IpClass::Multicast => v4_multicast(n),
                IpClass::Broadcast => v4_broadcast(n),
                IpClass::LinkLocal => v4_link_local(n),
                IpClass::Documentation => v4_documentation(n),
                IpClass::SharedAddress => v4_shared(n),
                IpClass::Benchmarking => v4_benchmarking(n),
                IpClass::Private => v4_private(n),
                IpClass::Global => !v4_reserved(n),
            }
        },
        Address::V6(a) => {
            let n = a.number();
            match class {
                IpClass::Loopback => v6_loopback(n),
                IpClass::Unspecified => v6_unspecified(n),
                IpClass::Multicast => v6_multicast(n),
                IpClass::LinkLocal => v6_link_local(n),
                IpClass::Documentation => v6_documentation(n),
                IpClass::Private => v6_unique_local(n),
                IpClass::Global => !v6_reserved(n),
                IpClass::Broadcast | IpClass::SharedAddress | IpClass::Benchmarking => false,
            }
        },
    }
}

/// The categories partition the addresses. No two of the named blocks
/// overlap, so an address belongs to exactly one category, and it is the one
/// that classification gives: no rule is shadowed by an earlier one.
pub proof fn lemma_categories_partition(ip: Address)
    ensures
        forall|class: IpClass| in_category(ip, class) <==> ip_class(ip) == class,
{
}

/// Every address of 127.0.0.0/8, whatever its last three octets, is a
/// loopback address, and so is ::1.
pub proof fn lemma_loopback(ip: Address)
    requires
        match ip {
            Address::V4(a) => a.octets[0] == 127,
            Address::V6(a) => a.segments@ == seq![0u16, 0u16, 0u16, 0u16, 0u16, 0u16, 0u16, 1u16],
        },
    ensures
        ip_class(ip) == IpClass::Loopback,
{
}

/// Whether `n` lies in the block written `base/len`, of addresses that are
/// `width` bits long: `n` and `base` agree in their first `len` bits.
pub open spec fn in_prefix(n: int, base: int, len: nat, width: nat) -> bool
    recommends
        len <= width,
{
    n / (pow2((width - len) as nat) as int) == base / (pow2((width - len) as nat) as int)
}

/// The number of an IPv4 address is a 32-bit number, and no two addresses
/// have the same one.
pub proof fn lemma_v4_number_faithful(a: Ipv4Address, b: Ipv4Address)
    ensures
        0 <= a.number() < 0x1_0000_0000,
        a.number() == b.number() <==> a.octets@ == b.octets@,
{
    if a.number() == b.number() {
        assert(a.octets[3] == b.octets[3]);
        assert(a.octets[2] == b.octets[2]);
        assert(a.octets[1] == b.octets[1]);
        assert(a.octets[0] == b.octets[0]);
        assert(a.octets@ =~= b.octets@);
    }
}

/// The number of an IPv6 address is a 128-bit number, and no two addresses
/// have the same one.
pub proof fn lemma_v6_number_faithful(a: Ipv6Address, b: Ipv6Address)
    ensures
        0 <= a.number() < 0x1_0000_0000_0000_0000_0000_0000_0000_0000,
        a.number() == b.number() <==> a.segments@ == b.segments@,
{
    if a.number() == b.number() {
        assert(a.segments[7] == b.segments[7]);
        assert(a.segments[6] == b.segments[6]);
        assert(a.segments[5] == b.segments[5]);
        assert(a.segments[4] == b.segments[4]);
        assert(a.segments[3] == b.segments[3]);
        assert(a.segments[2] == b.segments[2]);
        assert(a.segments[1] == b.segments[1]);
        assert(a.segments[0] == b.segments[0]);
        assert(a.segments@ =~= b.segments@);
    }
}

/// A prefix of `len` bits that ends where `base` has only zeros spans the
/// `size` addresses from `base` on, where `size` is two to the power of the
/// bits that the prefix leaves free.
proof fn lemma_prefix_is_range(n: int, base: int, len: nat, width: nat, size: int)
    requires
        len <= width,
        size == pow2((width - len) as nat),
        base % size == 0,
    ensures
        in_prefix(n, base, len, width) <==> base <= n < base + size,
{
    lemma_pow2_pos((width - len) as nat);
    lemma_fundamental_div_mod(n, size);
    lemma_fundamental_div_mod(base, size);
    lemma_mod_bound(n, size);
    let q = base / size;
    assert(base == size * q);
    if n / size == q {
        assert(n == base + n % size);
    }
    if base <= n < base + size {
        assert(n == q * size + (n - base)) by (nonlinear_arith)
            requires
                base == size * q,
        ;
        lemma_fundamental_div_mod_converse(n, size, q, n - base);
    }
}

/// Each IPv4 block, stated by its first and last address, is the block of
/// its prefix: the addresses that agree with the first one in as many
/// leading bits as the prefix is long.
pub proof fn lemma_v4_blocks_are_prefixes(a: Ipv4Address)
    ensures
        v4_loopback(a.number()) <==> in_prefix(a.number(), quad(127, 0, 0, 0), 8, 32),
        v4_unspecified(a.number()) <==> in_prefix(a.number(), quad(0, 0, 0, 0), 32, 32),
        v4_multicast(a.number()) <==> in_prefix(a.number(), quad(224, 0, 0, 0), 4, 32),
        v4_broadcast(a.number()) <==> in_prefix(a.number(), quad(255, 255, 255, 255), 32, 32),
        v4_link_local(a.number()) <==> in_prefix(a.number(), quad(169, 254, 0, 0), 16, 32),
        v4_documentation(a.number()) <==> in_prefix(a.number(), quad(192, 0, 2, 0), 24, 32)
            || in_prefix(a.number(), quad(198, 51, 100, 0), 24, 32) || in_prefix(
            a.number(),
            quad(203, 0, 113, 0),
            24,
            32,
        ),
        v4_shared(a.number()) <==> in_prefix(a.number(), quad(100, 64, 0, 0), 10, 32),
        v4_benchmarking(a.number()) <==> in_prefix(a.number(), quad(198, 18, 0, 0), 15, 32),
        v4_private(a.number()) <==> in_prefix(a.number(), quad(10, 0, 0, 0), 8, 32) || in_prefix(
            a.number(),
            quad(172, 16, 0, 0),
            12,
            32,
        ) || in_prefix(a.number(), quad(192, 168, 0, 0), 16, 32),
{
    let n = a.number();
    lemma2_to64();
    lemma_prefix_is_range(n, quad(127, 0, 0, 0), 8, 32, 0x100_0000);
    lemma_prefix_is_range(n, quad(0, 0, 0, 0), 32, 32, 1);
    lemma_prefix_is_range(n, quad(224, 0, 0, 0), 4, 32, 0x1000_0000);
    lemma_prefix_is_range(n, quad(255, 255, 255, 255), 32, 32, 1);
    lemma_prefix_is_range(n, quad(169, 254, 0, 0), 16, 32, 0x1_0000);
    lemma_prefix_is_range(n, quad(192, 0, 2, 0), 24, 32, 0x100);
    lemma_prefix_is_range(n, quad(198, 51, 100, 0), 24, 32, 0x100);
    lemma_prefix_is_range(n, quad(203, 0, 113, 0), 24, 32, 0x100);
    lemma_prefix_is_range(n, quad(100, 64, 0, 0), 10, 32, 0x40_0000);
    lemma_prefix_is_range(n, quad(198, 18, 0, 0), 15, 32, 0x2_0000);
    lemma_prefix_is_range(n, quad(10, 0, 0, 0), 8, 32, 0x100_0000);
    lemma_prefix_is_range(n, quad(172, 16, 0, 0), 12, 32, 0x10_0000);
    lemma_prefix_is_range(n, quad(192, 168, 0, 0), 16, 32, 0x1_0000);
}

/// Each IPv6 block, stated by its first and last address, is the block of
/// its prefix: the addresses that agree with the first one in as many
/// leading bits as the prefix is long.
pub proof fn lemma_v6_blocks_are_prefixes(a: Ipv6Address)
    ensures
        v6_loopback(a.number()) <==> in_prefix(
            a.number(),
            hextets(0, 0, 0, 0, 0, 0, 0, 1),
            128,
            128,
        ),
        v6_unspecified(a.number()) <==> in_prefix(
            a.number(),
            hextets(0, 0, 0, 0, 0, 0, 0, 0),
            128,
            128,
        ),
        v6_multicast(a.number()) <==> in_prefix(
            a.number(),
            hextets(0xff00, 0, 0, 0, 0, 0, 0, 0),
            8,
            128,
        ),
        v6_link_local(a.number()) <==> in_prefix(
            a.number(),
            hextets(0xfe80, 0, 0, 0, 0, 0, 0, 0),
            10,
            128,
        ),
        v6_documentation(a.number()) <==> in_prefix(
            a.number(),
            hextets(0x2001, 0x0db8, 0, 0, 0, 0, 0, 0),
            32,
            128,
        ),
        v6_unique_local(a.number()) <==> in_prefix(
            a.number(),
            hextets(0xfc00, 0, 0, 0, 0, 0, 0, 0),
            7,
            128,
        ),
{
    let n = a.number();
    lemma2_to64();
    lemma_pow2_adds(64, 32);
    assert(pow2(96) == 0x1_0000_0000_0000_0000_0000_0000);
    lemma_pow2_adds(96, 22);
    lemma_pow2_adds(96, 24);
    lemma_pow2_adds(96, 25);
    lemma_prefix_is_range(n, hextets(0, 0, 0, 0, 0, 0, 0, 1), 128, 128, 1);
    lemma_prefix_is_range(n, hextets(0, 0, 0, 0, 0, 0, 0, 0), 128, 128, 1);
    lemma_prefix_is_range(
        n,
        hextets(0xff00, 0, 0, 0, 0, 0, 0, 0),
        8,
        128,
        0x100_0000_0000_0000_0000_0000_0000_0000,
    );
    lemma_prefix_is_range(
        n,
        hextets(0xfe80, 0, 0, 0, 0, 0, 0, 0),
        10,
        128,
        0x40_0000_0000_0000_0000_0000_0000_0000,
    );
    lemma_prefix_is_range(
        n,
        hextets(0x2001, 0x0db8, 0, 0, 0, 0, 0, 0),
        32,
        128,
        0x1_0000_0000_0000_0000_0000_0000,
    );
    lemma_prefix_is_range(
        n,
        hextets(0xfc00, 0, 0, 0, 0, 0, 0, 0),
        7,
        128,
        0x200_0000_0000_0000_0000_0000_0000_0000,
    );
}

} // verus!
