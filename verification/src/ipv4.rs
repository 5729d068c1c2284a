//! Address codec: the transport carries each IPv4 entry as a 3-element array
//! of 32-bit words whose byte order is reversed relative to host order.  This
//! module decodes such triples, encodes them back, and renders an entry as
//! dotted-quad "address/prefix" text.

use vstd::prelude::*;
use crate::error::NetworkError;

verus! {

/// One IPv4 entry: address, prefix length and gateway.  The address and the
/// gateway are host-order values whose most significant byte is the first
/// octet of the dotted quad.
#[derive(Clone, Copy, PartialEq, Eq, Structural, Debug)]
pub struct Ipv4Address {
    pub address: u32,
    pub prefix: u32,
    pub gateway: u32,
}

/// Reversal of the byte order of one 32-bit word.
pub open spec fn spec_swap(w: u32) -> u32 {
    ((w & 0x000000FF) << 24) | ((w & 0x0000FF00) << 8) | ((w & 0x00FF0000) >> 8) | ((w
        & 0xFF000000) >> 24)
}

/// What decoding a word triple yields.
pub open spec fn spec_decode_words(words: Seq<u32>) -> Ipv4Address
    recommends
        words.len() >= 3,
{
    Ipv4Address { address: spec_swap(words[0]), prefix: words[1], gateway: spec_swap(words[2]) }
}

/// What encoding an entry back into wire form yields.
pub open spec fn spec_encode_words(a: Ipv4Address) -> Seq<u32> {
    seq![spec_swap(a.address), a.prefix, spec_swap(a.gateway)]
}

/// Reverses the byte order of one 32-bit word.
pub fn swap_bytes(w: u32) -> (r: u32)
    ensures
        r == spec_swap(w),
{
    ((w & 0x000000FF) << 24) | ((w & 0x0000FF00) << 8) | ((w & 0x00FF0000) >> 8) | ((w
        & 0xFF000000) >> 24)
}

proof fn lemma_swap_swap_bits(w: u32, s: u32)
    by (bit_vector)
    requires
        s == ((w & 0x000000FF) << 24) | ((w & 0x0000FF00) << 8) | ((w & 0x00FF0000) >> 8) | ((w
            & 0xFF000000) >> 24),
    ensures
        ((s & 0x000000FF) << 24) | ((s & 0x0000FF00) << 8) | ((s & 0x00FF0000) >> 8) | ((s
            & 0xFF000000) >> 24) == w,
{
}

/// Swapping the byte order twice gives the original word back.
pub proof fn lemma_swap_involution(w: u32)
    ensures
        spec_swap(spec_swap(w)) == w,
{
    lemma_swap_swap_bits(w, spec_swap(w));
}

impl Ipv4Address {
    /// Decodes one wire triple.  A triple with fewer than three words is a
    /// decode failure, never a silent default; extra words are ignored.
    pub fn from_words(words: &Vec<u32>) -> (r: Result<Ipv4Address, NetworkError>)
        ensures
            words@.len() >= 3 ==> (r matches Ok(a) && a == spec_decode_words(words@)),
            words@.len() < 3 ==> r matches Err(NetworkError::ReplyShape(_)),
    {
        if words.len() < 3 {
            Err(NetworkError::ReplyShape(String::from_str("short address triple")))
        } else {
            Ok(
                Ipv4Address {
                    address: swap_bytes(words[0]),
                    prefix: words[1],
                    gateway: swap_bytes(words[2]),
                },
            )
        }
    }

    /// Encodes the entry back into the swapped-endian wire triple.
    pub fn to_words(&self) -> (r: Vec<u32>)
        ensures
            r@ =~= spec_encode_words(*self),
    {
        let mut r: Vec<u32> = Vec::new();
        r.push(swap_bytes(self.address));
        r.push(self.prefix);
        r.push(swap_bytes(self.gateway));
        r
    }

    /// Renders the entry as "address/prefix" with the address in dotted-quad
    /// form.
    pub fn to_text(&self) -> (r: String)
        ensures
            r@ =~= spec_addr_text(*self),
    {
        let mut s = u32_to_dec(self.address / 0x1000000);
        s.append(".");
        let o2 = u32_to_dec((self.address / 0x10000) % 0x100);
        s.append(o2.as_str());
        s.append(".");
        let o1 = u32_to_dec((self.address / 0x100) % 0x100);
        s.append(o1.as_str());
        s.append(".");
        let o0 = u32_to_dec(self.address % 0x100);
        s.append(o0.as_str());
        s.append("/");
        let p = u32_to_dec(self.prefix);
        s.append(p.as_str());
        s
    }
}

/// Decoding a wire triple and encoding the result reproduces the first three
/// words; encoding an entry and decoding the result reproduces the entry, and
/// with it the rendered "address/prefix" text, exactly.
pub proof fn lemma_words_round_trip(a: Ipv4Address, words: Seq<u32>)
    requires
        words.len() == 3,
    ensures
        spec_decode_words(spec_encode_words(a)) == a,
        spec_addr_text(spec_decode_words(spec_encode_words(a))) == spec_addr_text(a),
        spec_encode_words(spec_decode_words(words)) =~= words,
{
    lemma_swap_involution(a.address);
    lemma_swap_involution(a.gateway);
    lemma_swap_involution(words[0]);
    lemma_swap_involution(words[2]);
}

/// The decimal digit characters.
pub open spec fn spec_digit(d: int) -> char {
    if d == 0 {
        '0'
    } else if d == 1 {
        '1'
    } else if d == 2 {
        '2'
    } else if d == 3 {
        '3'
    } else if d == 4 {
        '4'
    } else if d == 5 {
        '5'
    } else if d == 6 {
        '6'
    } else if d == 7 {
        '7'
    } else if d == 8 {
        '8'
    } else {
        '9'
    }
}

/// The decimal representation of a number, most significant digit first.
pub open spec fn spec_dec(n: nat) -> Seq<char>
    decreases n,
{
    if n < 10 {
        seq![spec_digit(n as int)]
    } else {
        spec_dec(n / 10) + seq![spec_digit((n % 10) as int)]
    }
}

/// The "address/prefix" text of one entry.
pub open spec fn spec_addr_text(a: Ipv4Address) -> Seq<char> {
    spec_dec((a.address / 0x1000000) as nat) + "."@ + spec_dec(
        ((a.address / 0x10000) % 0x100) as nat,
    ) + "."@ + spec_dec(((a.address / 0x100) % 0x100) as nat) + "."@ + spec_dec(
        (a.address % 0x100) as nat,
    ) + "/"@ + spec_dec(a.prefix as nat)
}

fn digit_str(d: u32) -> (r: &'static str)
    requires
        d < 10,
    ensures
        r@ =~= seq![spec_digit(d as int)],
{
    proof {
        reveal_strlit("0");
        reveal_strlit("1");
        reveal_strlit("2");
        reveal_strlit("3");
        reveal_strlit("4");
        reveal_strlit("5");
        reveal_strlit("6");
        reveal_strlit("7");
        reveal_strlit("8");
        reveal_strlit("9");
    }
    match d {
        0u32 => "0",
        1u32 => "1",
        2u32 => "2",
        3u32 => "3",
        4u32 => "4",
        5u32 => "5",
        6u32 => "6",
        7u32 => "7",
        8u32 => "8",
        _ => "9",
    }
}

/// Renders a number in decimal, most significant digit first.
pub fn u32_to_dec(n: u32) -> (s: String)
    ensures
        s@ =~= spec_dec(n as nat),
    decreases n,
{
    if n < 10 {
        String::from_str(digit_str(n))
    } else {
        let mut s = u32_to_dec(n / 10);
        s.append(digit_str(n % 10));
        s
    }
}

} // verus!
