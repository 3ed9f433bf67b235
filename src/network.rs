use vstd::prelude::*;
use vstd::string::*;

verus! {

/// An address of a local network interface.
#[derive(Debug, PartialEq, Eq, Structural, Clone, Copy)]
pub enum IpAddress {
    /// The four octets of an IPv4 address, most significant first.
    V4(u8, u8, u8, u8),
    /// An IPv6 address as one 128-bit number.
    V6(u128),
}

/// An IPv4 address outside the loopback block 127.0.0.0/8.
pub open spec fn is_usable(a: IpAddress) -> bool {
    match a {
        IpAddress::V4(x, _, _, _) => x != 127,
        IpAddress::V6(_) => false,
    }
}

/// The character of a decimal digit.
pub open spec fn digit_char(d: nat) -> char {
    seq!['0', '1', '2', '3', '4', '5', '6', '7', '8', '9'][d as int]
}

/// Decimal text of a number, without leading zeros.
pub open spec fn decimal(n: nat) -> Seq<char>
    decreases n,
{
    if n < 10 {
        seq![digit_char(n)]
    } else {
        decimal(n / 10).push(digit_char(n % 10))
    }
}

/// Dotted-decimal text of an IPv4 address.
pub open spec fn dotted_quad(a: u8, b: u8, c: u8, d: u8) -> Seq<char> {
    decimal(a as nat) + seq!['.'] + decimal(b as nat) + seq!['.'] + decimal(c as nat) + seq!['.']
        + decimal(d as nat)
}

/// Text of each usable address, in the order given.
pub open spec fn usable_ipv4_texts(s: Seq<IpAddress>) -> Seq<Seq<char>>
    decreases s.len(),
{
    if s.len() == 0 {
        seq![]
    } else {
        let rest = usable_ipv4_texts(s.drop_last());
        match s.last() {
            IpAddress::V4(a, b, c, d) => if a != 127 {
                rest.push(dotted_quad(a, b, c, d))
            } else {
                rest
            },
            IpAddress::V6(_) => rest,
        }
    }
}

fn digit_text(d: u8) -> (r: &'static str)
    requires
        d < 10,
    ensures
        r@ == seq![digit_char(d as nat)],
{
    if d == 0 {
        proof { reveal_strlit("0"); }
        "0"
    } else if d == 1 {
        proof { reveal_strlit("1"); }
        "1"
    } else if d == 2 {
        proof { reveal_strlit("2"); }
        "2"
    } else if d == 3 {
        proof { reveal_strlit("3"); }
        "3"
    } else if d == 4 {
        proof { reveal_strlit("4"); }
        "4"
    } else if d == 5 {
        proof { reveal_strlit("5"); }
        "5"
    } else if d == 6 {
        proof { reveal_strlit("6"); }
        "6"
    } else if d == 7 {
        proof { reveal_strlit("7"); }
        "7"
    } else if d == 8 {
        proof { reveal_strlit("8"); }
        "8"
    } else {
        proof { reveal_strlit("9"); }
        "9"
    }
}

fn append_decimal(s: &mut String, n: u8)
    ensures
        final(s)@ == old(s)@ + decimal(n as nat),
{
    proof {
        reveal_with_fuel(decimal, 3);
    }
    if n >= 100 {
        s.append(digit_text(n / 100));
        s.append(digit_text((n / 10) % 10));
        s.append(digit_text(n % 10));
        assert(decimal((n / 10) as nat) == decimal((n / 100) as nat).push(digit_char(((n / 10) % 10) as nat)));
    } else if n >= 10 {
        s.append(digit_text(n / 10));
        s.append(digit_text(n % 10));
    } else {
        s.append(digit_text(n));
    }
    assert(final(s)@ =~= old(s)@ + decimal(n as nat));
}

/// Dotted-decimal text of an IPv4 address.
pub fn ipv4_text(a: u8, b: u8, c: u8, d: u8) -> (r: String)
    ensures
        r@ == dotted_quad(a, b, c, d),
{
    let mut s = String::new();
    proof { reveal_strlit("."); }
    append_decimal(&mut s, a);
    s.append(".");
    append_decimal(&mut s, b);
    s.append(".");
    append_decimal(&mut s, c);
    s.append(".");
    append_decimal(&mut s, d);
    assert(s@ =~= dotted_quad(a, b, c, d));
    s
}

/// The text of each IPv4, non-loopback address among `addrs`, in order.
pub fn usable_ipv4_list(addrs: &Vec<IpAddress>) -> (r: Vec<String>)
    ensures
        r@.len() == usable_ipv4_texts(addrs@).len(),
        forall|i: int| 0 <= i < r@.len() ==> #[trigger] r@[i]@ == usable_ipv4_texts(addrs@)[i],
{
    let mut r: Vec<String> = Vec::new();
    let mut i: usize = 0;
    while i < addrs.len()
        invariant
            i <= addrs@.len(),
            r@.len() == usable_ipv4_texts(addrs@.subrange(0, i as int)).len(),
            forall|j: int| 0 <= j < r@.len() ==> #[trigger] r@[j]@ == usable_ipv4_texts(addrs@.subrange(0, i as int))[j],
        decreases addrs@.len() - i,
    {
        proof {
            assert(addrs@.subrange(0, i + 1).drop_last() =~= addrs@.subrange(0, i as int));
        }
        match addrs[i] {
            IpAddress::V4(a, b, c, d) => {
                if a != 127 {
                    r.push(ipv4_text(a, b, c, d));
                }
            },
            IpAddress::V6(_) => {},
        }
        i = i + 1;
    }
    assert(addrs@.subrange(0, addrs@.len() as int) =~= addrs@);
    r
}

/// No IPv4, non-loopback address among `s` leaves no address text.
pub proof fn lemma_no_usable_addresses(s: Seq<IpAddress>)
    requires
        forall|i: int| 0 <= i < s.len() ==> !is_usable(#[trigger] s[i]),
    ensures
        usable_ipv4_texts(s).len() == 0,
    decreases s.len(),
{
    if s.len() > 0 {
        assert forall|i: int| 0 <= i < s.drop_last().len() implies !is_usable(#[trigger] s.drop_last()[i]) by {
            assert(s.drop_last()[i] == s[i]);
        }
        lemma_no_usable_addresses(s.drop_last());
        assert(!is_usable(s[s.len() - 1]));
    }
}

} // verus!
