//! Addresses the node listens on or is called from.

use vstd::prelude::*;
use vstd::string::*;

use crate::decimal::{
    all_digits, decimal, law_decimal_read_back, lemma_decimal_digits, print_u64,
};

verus! {

/// The number an IP address stands for.
#[derive(Debug, Clone, Copy, PartialEq, Eq)]
pub enum IpBits {
    /// IPv4, as four octets.
    V4([u8; 4]),
    /// IPv6, as eight segments.
    V6([u16; 8]),
}

/// An IP address together with the text it is printed as.
#[derive(Debug, PartialEq, Eq)]
pub struct IpAddr {
    /// What the address is.
    pub bits: IpBits,
    /// How `std` prints it.
    pub text: String,
}

impl Clone for IpAddr {
    fn clone(&self) -> (r: IpAddr)
        ensures
            r == *self,
    {
        IpAddr { bits: self.bits, text: self.text.clone() }
    }
}

/// `127.0.0.0/8` or `::1`.
pub open spec fn is_loopback_bits(bits: IpBits) -> bool {
    match bits {
        IpBits::V4(octets) => octets@[0] == 127,
        IpBits::V6(segments) => {
            &&& forall|i: int| 0 <= i < 7 ==> #[trigger] segments@[i] == 0
            &&& segments@[7] == 1
        },
    }
}

/// How `std` prints an IPv4 address: four numbers with dots between them.
pub open spec fn dotted(octets: Seq<u8>) -> Seq<char> {
    decimal(octets[0] as nat) + "."@ + decimal(octets[1] as nat) + "."@ + decimal(
        octets[2] as nat,
    ) + "."@ + decimal(octets[3] as nat)
}

/// The text of an address is that of its number, as far as loopback goes: every
/// IPv4 address, and `::1`.
pub open spec fn names_itself(ip: IpAddr) -> bool {
    match ip.bits {
        IpBits::V4(octets) => ip.text@ == dotted(octets@),
        IpBits::V6(_) => is_loopback_bits(ip.bits) ==> ip.text@ == "::1"@,
    }
}

/// `127.0.0.1:port` style text: the address, a colon, the port.
pub open spec fn host_port(ip: IpAddr, port: u16) -> Seq<char> {
    ip.text@ + ":"@ + decimal(port as nat)
}

impl IpAddr {
    /// Whether this address is loopback.
    pub fn is_loopback(&self) -> (r: bool)
        ensures
            r == is_loopback_bits(self.bits),
    {
        match &self.bits {
            IpBits::V4(octets) => octets[0] == 127,
            IpBits::V6(segments) => {
                let mut i: usize = 0;
                while i < 7
                    invariant
                        i <= 7,
                        self.bits == IpBits::V6(*segments),
                        forall|k: int| 0 <= k < i ==> #[trigger] segments@[k] == 0,
                    decreases 7 - i,
                {
                    if segments[i] != 0 {
                        assert(segments@[i as int] != 0);
                        return false;
                    }
                    i += 1;
                }
                segments[7] == 1
            },
        }
    }

    /// The IPv4 address with these octets.
    pub fn v4(octets: [u8; 4]) -> (r: IpAddr)
        ensures
            r.bits == IpBits::V4(octets),
            r.text@ == dotted(octets@),
            names_itself(r),
    {
        let mut text = print_u64(octets[0] as u64);
        text.append(".");
        text.append(print_u64(octets[1] as u64).as_str());
        text.append(".");
        text.append(print_u64(octets[2] as u64).as_str());
        text.append(".");
        text.append(print_u64(octets[3] as u64).as_str());
        IpAddr { bits: IpBits::V4(octets), text }
    }

    /// The IPv6 address with these segments, which `std` prints as `printed`.
    /// The loopback address is printed as `::1` in any case.
    pub fn v6(segments: [u16; 8], printed: String) -> (r: IpAddr)
        ensures
            r.bits == IpBits::V6(segments),
            r.text@ == if is_loopback_bits(r.bits) {
                "::1"@
            } else {
                printed@
            },
            names_itself(r),
    {
        let r = IpAddr { bits: IpBits::V6(segments), text: printed };
        if r.is_loopback() {
            IpAddr { bits: r.bits, text: "::1".to_string() }
        } else {
            r
        }
    }

    /// `127.0.0.1`.
    pub fn localhost() -> (r: IpAddr)
        ensures
            r.bits == IpBits::V4([127u8, 0, 0, 1]),
            r.text@ == "127.0.0.1"@,
            is_loopback_bits(r.bits),
            names_itself(r),
    {
        proof {
            lemma_localhost_text();
        }
        IpAddr { bits: IpBits::V4([127, 0, 0, 1]), text: "127.0.0.1".to_string() }
    }

    /// The address, a colon and `port`.
    pub fn with_port(&self, port: u16) -> (r: String)
        ensures
            r@ == host_port(*self, port),
    {
        let mut r = self.text.clone();
        r.append(":");
        r.append(print_u64(port as u64).as_str());
        r
    }
}

/// `127.0.0.1` by its four numbers.
pub proof fn lemma_localhost_text()
    ensures
        dotted(seq![127u8, 0, 0, 1]) == "127.0.0.1"@,
{
    reveal_strlit("127.0.0.1");
    reveal_strlit(".");
    reveal_with_fuel(decimal, 4);
    assert(dotted(seq![127u8, 0, 0, 1]) =~= "127.0.0.1"@);
}

/// Digits up to the first dot say where the dot is.
proof fn lemma_first_dot(a: Seq<char>, x: Seq<char>, b: Seq<char>, y: Seq<char>)
    requires
        all_digits(a),
        all_digits(b),
        a + seq!['.'] + x == b + seq!['.'] + y,
    ensures
        a == b,
        x == y,
{
    let left = a + seq!['.'] + x;
    let right = b + seq!['.'] + y;
    assert(left[a.len() as int] == '.');
    assert(right[b.len() as int] == '.');
    if a.len() < b.len() {
        assert(right[a.len() as int] == b[a.len() as int]);
    } else if b.len() < a.len() {
        assert(left[b.len() as int] == a[b.len() as int]);
    }
    assert(a =~= left.take(a.len() as int));
    assert(b =~= right.take(b.len() as int));
    assert(x =~= left.skip(a.len() as int + 1));
    assert(y =~= right.skip(b.len() as int + 1));
}

/// A number before a dot can be read off a text.
proof fn lemma_first_number(m: nat, x: Seq<char>, n: nat, y: Seq<char>)
    requires
        decimal(m) + seq!['.'] + x == decimal(n) + seq!['.'] + y,
    ensures
        m == n,
        x == y,
{
    lemma_decimal_digits(m);
    lemma_decimal_digits(n);
    lemma_first_dot(decimal(m), x, decimal(n), y);
    law_decimal_read_back(m);
    law_decimal_read_back(n);
}

/// The text of an address from its second number on.
spec fn second_on(octets: Seq<u8>) -> Seq<char> {
    decimal(octets[1] as nat) + seq!['.'] + third_on(octets)
}

/// The text of an address from its third number on.
spec fn third_on(octets: Seq<u8>) -> Seq<char> {
    decimal(octets[2] as nat) + seq!['.'] + decimal(octets[3] as nat)
}

proof fn lemma_dotted_from_the_left(octets: Seq<u8>)
    ensures
        dotted(octets) == decimal(octets[0] as nat) + seq!['.'] + second_on(octets),
{
    reveal_strlit(".");
    assert("."@ =~= seq!['.']);
    assert(dotted(octets) =~= decimal(octets[0] as nat) + seq!['.'] + second_on(octets));
}

/// The four numbers of an address can be read off its text.
proof fn lemma_dotted_tells_apart(a: Seq<u8>, b: Seq<u8>)
    requires
        a.len() == 4,
        b.len() == 4,
        dotted(a) == dotted(b),
    ensures
        a == b,
{
    lemma_dotted_from_the_left(a);
    lemma_dotted_from_the_left(b);
    lemma_first_number(a[0] as nat, second_on(a), b[0] as nat, second_on(b));
    lemma_first_number(a[1] as nat, third_on(a), b[1] as nat, third_on(b));
    let a3 = decimal(a[3] as nat);
    let b3 = decimal(b[3] as nat);
    lemma_first_number(a[2] as nat, a3, b[2] as nat, b3);
    law_decimal_read_back(a[3] as nat);
    law_decimal_read_back(b[3] as nat);
    assert(a =~= b);
}

/// Two addresses that are printed alike are one address, where both are IPv4.
pub proof fn law_printed_address_is_the_address(a: IpAddr, b: IpAddr)
    requires
        names_itself(a),
        names_itself(b),
        a.bits is V4,
        b.bits is V4,
        a.text@ == b.text@,
    ensures
        a.bits == b.bits,
{
    let x = a.bits->V4_0;
    let y = b.bits->V4_0;
    lemma_dotted_tells_apart(x@, y@);
    assert(x =~= y);
}

/// An IP address and a port.
#[derive(Debug, PartialEq, Eq)]
pub struct SocketAddr {
    /// Address.
    pub ip: IpAddr,
    /// Port.
    pub port: u16,
}

impl Clone for SocketAddr {
    fn clone(&self) -> (r: SocketAddr)
        ensures
            r == *self,
    {
        SocketAddr { ip: self.ip.clone(), port: self.port }
    }
}

/// How a socket address is printed: an IPv6 address stands in brackets.
pub open spec fn socket_text(addr: SocketAddr) -> Seq<char> {
    match addr.ip.bits {
        IpBits::V4(_) => addr.ip.text@ + ":"@ + decimal(addr.port as nat),
        IpBits::V6(_) => "["@ + addr.ip.text@ + "]:"@ + decimal(addr.port as nat),
    }
}

impl SocketAddr {
    /// The address as it is printed.
    pub fn print(&self) -> (r: String)
        ensures
            r@ == socket_text(*self),
    {
        match &self.ip.bits {
            IpBits::V4(_) => {
                let mut r = self.ip.text.clone();
                r.append(":");
                r.append(print_u64(self.port as u64).as_str());
                r
            },
            IpBits::V6(_) => {
                let mut r = "[".to_string();
                r.append(self.ip.text.as_str());
                r.append("]:");
                r.append(print_u64(self.port as u64).as_str());
                r
            },
        }
    }
}

} // verus!
