//! Small verified helpers on strings and bytes that the rest of the library
//! builds on.
use vstd::prelude::*;
use vstd::string::*;

verus! {

/// `String::push`: appends one character.
#[verifier::external_body]
pub(crate) fn push_char(s: &mut String, c: char)
    ensures
        final(s)@ == old(s)@.push(c),
{
    s.push(c);
}

/// Whether two string slices hold the same characters.
pub fn str_eq(a: &str, b: &str) -> (res: bool)
    ensures
        res == (a@ == b@),
{
    let n = a.unicode_len();
    if n != b.unicode_len() {
        return false;
    }
    let mut i: usize = 0;
    while i < n
        invariant
            n == a@.len(),
            n == b@.len(),
            i <= n,
            forall|j: int| 0 <= j < i ==> a@[j] == b@[j],
        decreases n - i,
    {
        if a.get_char(i) != b.get_char(i) {
            return false;
        }
        i = i + 1;
    }
    assert(a@ =~= b@);
    true
}

/// An owned copy of a string slice.
pub fn owned(s: &str) -> (res: String)
    ensures
        res@ == s@,
{
    s.to_owned()
}

/// The decimal digits of a natural number, most significant first, with no
/// leading zeros (zero itself is "0").
pub open spec fn decimal(n: nat) -> Seq<char>
    decreases n,
{
    if n < 10 {
        seq![digit_char(n)]
    } else {
        decimal(n / 10).push(digit_char(n % 10))
    }
}

/// The character of a single decimal digit.
pub open spec fn digit_char(d: nat) -> char {
    if d == 0 { '0' }
    else if d == 1 { '1' }
    else if d == 2 { '2' }
    else if d == 3 { '3' }
    else if d == 4 { '4' }
    else if d == 5 { '5' }
    else if d == 6 { '6' }
    else if d == 7 { '7' }
    else if d == 8 { '8' }
    else { '9' }
}

fn digit(d: u64) -> (c: char)
    requires
        d < 10,
    ensures
        c == digit_char(d as nat),
{
    if d == 0 { '0' }
    else if d == 1 { '1' }
    else if d == 2 { '2' }
    else if d == 3 { '3' }
    else if d == 4 { '4' }
    else if d == 5 { '5' }
    else if d == 6 { '6' }
    else if d == 7 { '7' }
    else if d == 8 { '8' }
    else { '9' }
}

/// Appends the decimal digits of `n`.
pub fn push_decimal(s: &mut String, n: u64)
    ensures
        final(s)@ == old(s)@ + decimal(n as nat),
    decreases n,
{
    if n < 10 {
        push_char(s, digit(n));
    } else {
        push_decimal(s, n / 10);
        push_char(s, digit(n % 10));
    }
}

/// Appends the decimal digits of `n`, padded with leading zeros to at least
/// two characters.
pub fn push_decimal_2(s: &mut String, n: u64)
    ensures
        final(s)@ == old(s)@ + (if n < 10 { seq!['0'] + decimal(n as nat) } else { decimal(n as nat) }),
{
    if n < 10 {
        push_char(s, '0');
    }
    push_decimal(s, n);
}

/// The decimal digits of a signed number, with a leading '-' when negative.
pub open spec fn signed_decimal(n: int) -> Seq<char> {
    if n < 0 {
        seq!['-'] + decimal((-n) as nat)
    } else {
        decimal(n as nat)
    }
}

/// Appends the decimal digits of a signed number.
pub fn push_signed_decimal(s: &mut String, n: isize)
    ensures
        final(s)@ == old(s)@ + signed_decimal(n as int),
{
    if n < 0 {
        push_char(s, '-');
        let m: u64 = if n == isize::MIN {
            (isize::MAX as u64) + 1
        } else {
            (-n) as u64
        };
        push_decimal(s, m);
        assert(old(s)@ + seq!['-'] + decimal(m as nat) =~= old(s)@ + signed_decimal(n as int));
    } else {
        push_decimal(s, n as u64);
    }
}

/// The dotted-decimal text of an IPv4 address followed by ":port", as a
/// socket address is displayed.
pub open spec fn socket_addr_v4_text(ip: Seq<u8>, port: u16) -> Seq<char> {
    decimal(ip[0] as nat) + "."@ + decimal(ip[1] as nat) + "."@ + decimal(ip[2] as nat) + "."@
        + decimal(ip[3] as nat) + ":"@ + decimal(port as nat)
}

/// Appends the text of an IPv4 socket address.
pub fn push_socket_addr_v4(s: &mut String, ip: [u8; 4], port: u16)
    ensures
        final(s)@ == old(s)@ + socket_addr_v4_text(ip@, port),
{
    push_decimal(s, ip[0] as u64);
    s.append(".");
    push_decimal(s, ip[1] as u64);
    s.append(".");
    push_decimal(s, ip[2] as u64);
    s.append(".");
    push_decimal(s, ip[3] as u64);
    s.append(":");
    push_decimal(s, port as u64);
    assert(final(s)@ =~= old(s)@ + socket_addr_v4_text(ip@, port));
}

} // verus!
