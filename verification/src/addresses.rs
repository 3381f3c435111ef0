//! Hardware and network addresses as plain values.

use vstd::prelude::*;
use vstd::string::StringExecFns;
use crate::text::{decimal_text, digit_char, hex_text, push_char, push_decimal, push_hex};
use crate::wire::mac_to_string;

verus! {

/// A 48-bit hardware address, one field per octet in transmission order.
#[derive(Clone, Copy, Debug, PartialEq, Eq, Structural)]
pub struct MacAddress(pub u8, pub u8, pub u8, pub u8, pub u8, pub u8);

/// An IPv4 address, one field per octet in transmission order.
#[derive(Clone, Copy, Debug, PartialEq, Eq, Structural)]
pub struct Ipv4Address(pub u8, pub u8, pub u8, pub u8);

/// An IPv6 address, one field per 16-bit group in transmission order.
#[derive(Clone, Copy, Debug, PartialEq, Eq, Structural)]
pub struct Ipv6Address(pub u16, pub u16, pub u16, pub u16, pub u16, pub u16, pub u16, pub u16);

/// The 16-bit number whose big-endian encoding is `hi`, `lo`.
pub open spec fn be16(hi: u8, lo: u8) -> u16 {
    (hi as int * 256 + lo as int) as u16
}

/// The hardware address held by the six octets of `data` that start at `at`.
pub open spec fn mac_at(data: Seq<u8>, at: int) -> MacAddress {
    MacAddress(data[at], data[at + 1], data[at + 2], data[at + 3], data[at + 4], data[at + 5])
}

/// The IPv4 address held by the four octets of `data` that start at `at`.
pub open spec fn ipv4_at(data: Seq<u8>, at: int) -> Ipv4Address {
    Ipv4Address(data[at], data[at + 1], data[at + 2], data[at + 3])
}

/// The IPv6 address held by the sixteen octets of `data` that start at `at`.
pub open spec fn ipv6_at(data: Seq<u8>, at: int) -> Ipv6Address {
    Ipv6Address(
        be16(data[at], data[at + 1]),
        be16(data[at + 2], data[at + 3]),
        be16(data[at + 4], data[at + 5]),
        be16(data[at + 6], data[at + 7]),
        be16(data[at + 8], data[at + 9]),
        be16(data[at + 10], data[at + 11]),
        be16(data[at + 12], data[at + 13]),
        be16(data[at + 14], data[at + 15]),
    )
}

/// One octet as two lower-case hexadecimal digits.
pub open spec fn hex_pair(octet: u8) -> Seq<char> {
    seq![digit_char(octet as int / 16), digit_char(octet as int % 16)]
}

/// A hardware address as text: its octets as pairs of hexadecimal digits,
/// with a colon between neighbours.
pub open spec fn mac_text(address: MacAddress) -> Seq<char> {
    hex_pair(address.0) + seq![':'] + hex_pair(address.1) + seq![':'] + hex_pair(address.2)
        + seq![':'] + hex_pair(address.3) + seq![':'] + hex_pair(address.4) + seq![':']
        + hex_pair(address.5)
}

/// An IPv4 address as text: its octets as decimal numbers, with a dot
/// between neighbours.
pub open spec fn ipv4_text(address: Ipv4Address) -> Seq<char> {
    decimal_text(address.0 as nat) + seq!['.'] + decimal_text(address.1 as nat) + seq!['.']
        + decimal_text(address.2 as nat) + seq!['.'] + decimal_text(address.3 as nat)
}

/// How many groups in a row are zero, from index `i` on.
pub open spec fn zero_run(groups: Seq<u16>, i: int) -> nat
    decreases groups.len() - i,
{
    if 0 <= i < groups.len() && groups[i] == 0 {
        1 + zero_run(groups, i + 1)
    } else {
        0
    }
}

/// The index, not below `i`, at which the longest run of zero groups starts;
/// of several runs of that length, the first.
pub open spec fn longest_zero_run_from(groups: Seq<u16>, i: int) -> int
    decreases groups.len() - i,
{
    if i >= groups.len() {
        i
    } else {
        let rest = longest_zero_run_from(groups, i + 1);
        if zero_run(groups, i) >= zero_run(groups, rest) {
            i
        } else {
            rest
        }
    }
}

/// Groups as hexadecimal numbers without leading zeros, with a colon between
/// neighbours.
pub open spec fn hex_groups(groups: Seq<u16>) -> Seq<char>
    decreases groups.len(),
{
    if groups.len() == 0 {
        Seq::empty()
    } else if groups.len() == 1 {
        hex_text(groups[0] as nat)
    } else {
        hex_groups(groups.drop_last()) + seq![':'] + hex_text(groups.last() as nat)
    }
}

/// The IPv4 address in the last two groups of an IPv6 address.
pub open spec fn embedded_ipv4(address: Ipv6Address) -> Ipv4Address {
    Ipv4Address(
        (address.6 / 256) as u8,
        (address.6 % 256) as u8,
        (address.7 / 256) as u8,
        (address.7 % 256) as u8,
    )
}

/// An IPv6 address as text, in the canonical form.
///
/// An address that maps an IPv4 address (five zero groups, then `ffff`) is
/// `::ffff:` and that address in dotted form. In any other, the longest run
/// of two or more zero groups, the first of them where several are as long,
/// shrinks to `::`; the groups before and after it, or all of them where
/// there is no such run, are hexadecimal numbers with colons between them.
pub open spec fn ipv6_text(address: Ipv6Address) -> Seq<char> {
    let groups = address.groups();
    let start = longest_zero_run_from(groups, 0);
    let len = zero_run(groups, start);
    if address.is_ipv4_mapped() {
        seq![':', ':', 'f', 'f', 'f', 'f', ':'] + ipv4_text(embedded_ipv4(address))
    } else if len > 1 {
        hex_groups(groups.subrange(0, start)) + seq![':', ':'] + hex_groups(
            groups.subrange(start + len, 8),
        )
    } else {
        hex_groups(groups)
    }
}

/// The run of zero groups that starts at `longest_zero_run_from(groups, i)`
/// is at least as long as the run from any index `j` not below `i`, and
/// longer than the run from any `j` before its own start.
pub proof fn lemma_longest_zero_run_is_first_longest(groups: Seq<u16>, i: int, j: int)
    requires
        0 <= i <= j < groups.len(),
    ensures
        i <= longest_zero_run_from(groups, i) < groups.len(),
        zero_run(groups, j) <= zero_run(groups, longest_zero_run_from(groups, i)),
        j < longest_zero_run_from(groups, i) ==> zero_run(groups, j) < zero_run(
            groups,
            longest_zero_run_from(groups, i),
        ),
    decreases groups.len() - i,
{
    if i + 1 < groups.len() {
        if i < j {
            lemma_longest_zero_run_is_first_longest(groups, i + 1, j);
        } else {
            lemma_longest_zero_run_is_first_longest(groups, i + 1, i + 1);
        }
    } else {
        assert(longest_zero_run_from(groups, i + 1) == i + 1);
        assert(zero_run(groups, i + 1) == 0);
    }
}

/// Six octets cut out of `data` at `at` hold the hardware address that
/// `data` holds at `at`.
pub proof fn lemma_mac_in_subrange(data: Seq<u8>, at: int)
    requires
        0 <= at,
        at + 6 <= data.len(),
    ensures
        mac_at(data.subrange(at, at + 6), 0) == mac_at(data, at),
{
}

/// Four octets cut out of `data` at `at` hold the IPv4 address that `data`
/// holds at `at`.
pub proof fn lemma_ipv4_in_subrange(data: Seq<u8>, at: int)
    requires
        0 <= at,
        at + 4 <= data.len(),
    ensures
        ipv4_at(data.subrange(at, at + 4), 0) == ipv4_at(data, at),
{
}

/// Sixteen octets cut out of `data` at `at` hold the IPv6 address that
/// `data` holds at `at`.
pub proof fn lemma_ipv6_in_subrange(data: Seq<u8>, at: int)
    requires
        0 <= at,
        at + 16 <= data.len(),
    ensures
        ipv6_at(data.subrange(at, at + 16), 0) == ipv6_at(data, at),
{
}

/// Joins two octets, most significant first.
pub fn join_be16(hi: u8, lo: u8) -> (r: u16)
    ensures
        r == be16(hi, lo),
{
    (hi as u16) * 256 + (lo as u16)
}

impl MacAddress {
    /// The address whose octets are `octets`, in order.
    pub fn from_octets(octets: [u8; 6]) -> (r: MacAddress)
        ensures
            r == mac_at(octets@, 0),
    {
        MacAddress(octets[0], octets[1], octets[2], octets[3], octets[4], octets[5])
    }

    /// The address as text, such as `00:11:22:aa:bb:cc`.
    pub fn to_text(&self) -> (r: String)
        ensures
            r@ == mac_text(*self),
    {
        mac_to_string(*self)
    }
}

impl Ipv4Address {
    /// The address whose octets are `octets`, in order.
    pub fn from_octets(octets: [u8; 4]) -> (r: Ipv4Address)
        ensures
            r == ipv4_at(octets@, 0),
    {
        Ipv4Address(octets[0], octets[1], octets[2], octets[3])
    }

    /// Appends the address in dotted form to `s`.
    pub fn push_text(&self, s: &mut String)
        ensures
            final(s)@ == old(s)@ + ipv4_text(*self),
    {
        push_decimal(s, self.0 as u16);
        push_char(s, '.');
        push_decimal(s, self.1 as u16);
        push_char(s, '.');
        push_decimal(s, self.2 as u16);
        push_char(s, '.');
        push_decimal(s, self.3 as u16);
    }

    /// The address as text, such as `192.168.0.1`.
    pub fn to_text(&self) -> (r: String)
        ensures
            r@ == ipv4_text(*self),
    {
        let mut s = String::new();
        self.push_text(&mut s);
        s
    }
}

/// Appends the groups of `groups` from index `from` up to `to` to `s`, as
/// hexadecimal numbers with colons between them.
fn push_hex_groups(s: &mut String, groups: &[u16; 8], from: usize, to: usize)
    requires
        from <= to <= 8,
    ensures
        final(s)@ == old(s)@ + hex_groups(groups@.subrange(from as int, to as int)),
{
    let mut i: usize = from;
    assert(groups@.subrange(from as int, from as int) =~= Seq::<u16>::empty());
    while i < to
        invariant
            from <= i <= to <= 8,
            s@ == old(s)@ + hex_groups(groups@.subrange(from as int, i as int)),
        decreases to - i,
    {
        let ghost before = groups@.subrange(from as int, i as int);
        let ghost after = groups@.subrange(from as int, i + 1);
        assert(after.drop_last() =~= before);
        assert(after.last() == groups@[i as int]);
        if i > from {
            push_char(s, ':');
        }
        push_hex(s, groups[i]);
        i = i + 1;
    }
}

impl Ipv6Address {
    /// The eight groups of the address, in order.
    pub open spec fn groups(self) -> Seq<u16> {
        seq![self.0, self.1, self.2, self.3, self.4, self.5, self.6, self.7]
    }

    /// The address maps an IPv4 address: five zero groups, then `ffff`.
    pub open spec fn is_ipv4_mapped(self) -> bool {
        self.0 == 0 && self.1 == 0 && self.2 == 0 && self.3 == 0 && self.4 == 0 && self.5
            == 0xffff
    }

    /// The address whose sixteen octets are `octets`, in order.
    pub fn from_octets(octets: [u8; 16]) -> (r: Ipv6Address)
        ensures
            r == ipv6_at(octets@, 0),
    {
        Ipv6Address(
            join_be16(octets[0], octets[1]),
            join_be16(octets[2], octets[3]),
            join_be16(octets[4], octets[5]),
            join_be16(octets[6], octets[7]),
            join_be16(octets[8], octets[9]),
            join_be16(octets[10], octets[11]),
            join_be16(octets[12], octets[13]),
            join_be16(octets[14], octets[15]),
        )
    }

    /// Start and length of the longest run of zero groups; of several runs of
    /// that length, the first.
    pub fn longest_zero_run(groups: &[u16; 8]) -> (r: (usize, usize))
        ensures
            r.0 == longest_zero_run_from(groups@, 0),
            r.1 == zero_run(groups@, r.0 as int),
            r.0 + r.1 <= 8,
    {
        let mut i: usize = 8;
        let mut run: usize = 0;
        let mut best: usize = 8;
        let mut best_len: usize = 0;
        while i > 0
            invariant
                i <= 8,
                run == zero_run(groups@, i as int),
                best == longest_zero_run_from(groups@, i as int),
                best_len == zero_run(groups@, best as int),
                i + run <= 8,
                i <= best,
                best + best_len <= 8,
            decreases i,
        {
            i = i - 1;
            if groups[i] == 0 {
                run = run + 1;
            } else {
                run = 0;
            }
            if run >= best_len {
                best = i;
                best_len = run;
            }
        }
        (best, best_len)
    }

    /// The address as text in the canonical form, such as `fe80::1`.
    pub fn to_text(&self) -> (r: String)
        ensures
            r@ == ipv6_text(*self),
    {
        let groups: [u16; 8] = [
            self.0,
            self.1,
            self.2,
            self.3,
            self.4,
            self.5,
            self.6,
            self.7,
        ];
        assert(groups@ =~= self.groups());
        let mut s = String::new();
        if self.0 == 0 && self.1 == 0 && self.2 == 0 && self.3 == 0 && self.4 == 0 && self.5
            == 0xffff {
            proof {
                reveal_strlit("::ffff:");
            }
            s.append("::ffff:");
            assert(s@ =~= seq![':', ':', 'f', 'f', 'f', 'f', ':']);
            let embedded = Ipv4Address(
                (self.6 / 256) as u8,
                (self.6 % 256) as u8,
                (self.7 / 256) as u8,
                (self.7 % 256) as u8,
            );
            embedded.push_text(&mut s);
        } else {
            let (start, len) = Self::longest_zero_run(&groups);
            if len > 1 {
                push_hex_groups(&mut s, &groups, 0, start);
                push_char(&mut s, ':');
                push_char(&mut s, ':');
                push_hex_groups(&mut s, &groups, start + len, 8);
                assert(s@ =~= hex_groups(groups@.subrange(0, start as int)) + seq![':', ':']
                    + hex_groups(groups@.subrange(start + len, 8)));
            } else {
                push_hex_groups(&mut s, &groups, 0, 8);
                assert(groups@.subrange(0, 8) =~= groups@);
            }
        }
        s
    }
}

} // verus!
