//! Hardware and protocol addresses as plain octets.

use vstd::prelude::*;
use vstd::string::StringExecFns;
use crate::text::{decimal, hex_octet, push_decimal, push_hex_octet};

verus! {

/// A 48-bit Ethernet hardware address, most significant octet first.
#[derive(Clone, Copy, Debug, PartialEq, Eq, Structural, Hash)]
pub struct Mac(pub u8, pub u8, pub u8, pub u8, pub u8, pub u8);

/// An IPv4 address, in network order.
#[derive(Clone, Copy, Debug, PartialEq, Eq, Structural, Hash)]
pub struct Ipv4(pub u8, pub u8, pub u8, pub u8);

impl Mac {
    /// The six octets in wire order.
    pub open spec fn octets(self) -> Seq<u8> {
        seq![self.0, self.1, self.2, self.3, self.4, self.5]
    }

    /// The address held by the six octets of `buf` that start at `at`.
    pub open spec fn at(buf: Seq<u8>, at: int) -> Mac {
        Mac(buf[at], buf[at + 1], buf[at + 2], buf[at + 3], buf[at + 4], buf[at + 5])
    }

    /// The address every station on the link listens to, `ff:ff:ff:ff:ff:ff`.
    pub fn broadcast() -> (mac: Mac)
        ensures
            mac == Mac(0xff, 0xff, 0xff, 0xff, 0xff, 0xff),
    {
        Mac(0xff, 0xff, 0xff, 0xff, 0xff, 0xff)
    }

    /// Reads an address from the six octets of `buf` that start at `at`.
    pub fn read(buf: &[u8], at: usize) -> (mac: Mac)
        requires
            at + 6 <= buf@.len(),
        ensures
            mac == Mac::at(buf@, at as int),
    {
        Mac(buf[at], buf[at + 1], buf[at + 2], buf[at + 3], buf[at + 4], buf[at + 5])
    }

    /// Appends the six octets to `out`.
    pub fn write(self, out: &mut Vec<u8>)
        ensures
            final(out)@ == old(out)@ + self.octets(),
    {
        out.push(self.0);
        out.push(self.1);
        out.push(self.2);
        out.push(self.3);
        out.push(self.4);
        out.push(self.5);
        assert(out@ =~= old(out)@ + self.octets());
    }
}

impl Ipv4 {
    /// The four octets in wire order.
    pub open spec fn octets(self) -> Seq<u8> {
        seq![self.0, self.1, self.2, self.3]
    }

    /// The address held by the four octets of `buf` that start at `at`.
    pub open spec fn at(buf: Seq<u8>, at: int) -> Ipv4 {
        Ipv4(buf[at], buf[at + 1], buf[at + 2], buf[at + 3])
    }

    /// Reads an address from the four octets of `buf` that start at `at`.
    pub fn read(buf: &[u8], at: usize) -> (ip: Ipv4)
        requires
            at + 4 <= buf@.len(),
        ensures
            ip == Ipv4::at(buf@, at as int),
    {
        Ipv4(buf[at], buf[at + 1], buf[at + 2], buf[at + 3])
    }

    /// Appends the four octets to `out`.
    pub fn write(self, out: &mut Vec<u8>)
        ensures
            final(out)@ == old(out)@ + self.octets(),
    {
        out.push(self.0);
        out.push(self.1);
        out.push(self.2);
        out.push(self.3);
        assert(out@ =~= old(out)@ + self.octets());
    }
}

impl Mac {
    /// The address in words: six octets of two hexadecimal digits each, in
    /// lower case, with colons between them.
    pub open spec fn spec_text(self) -> Seq<char> {
        hex_octet(self.0) + seq![':'] + hex_octet(self.1) + seq![':'] + hex_octet(self.2) + seq![
            ':',
        ] + hex_octet(self.3) + seq![':'] + hex_octet(self.4) + seq![':'] + hex_octet(self.5)
    }

    /// Appends the address in words to `out`.
    pub fn push_text(&self, out: &mut String)
        ensures
            final(out)@ == old(out)@ + self.spec_text(),
    {
        proof {
            reveal_strlit(":");
        }
        push_hex_octet(out, self.0);
        out.append(":");
        push_hex_octet(out, self.1);
        out.append(":");
        push_hex_octet(out, self.2);
        out.append(":");
        push_hex_octet(out, self.3);
        out.append(":");
        push_hex_octet(out, self.4);
        out.append(":");
        push_hex_octet(out, self.5);
        assert(":"@ =~= seq![':']);
        assert(out@ =~= old(out)@ + self.spec_text());
    }

    /// The address in words.
    pub fn text(&self) -> (text: String)
        ensures
            text@ == self.spec_text(),
    {
        let mut text = String::new();
        self.push_text(&mut text);
        assert(text@ =~= self.spec_text());
        text
    }
}

impl Ipv4 {
    /// The address in words: four decimal numbers with dots between them.
    pub open spec fn spec_text(self) -> Seq<char> {
        decimal(self.0 as nat) + seq!['.'] + decimal(self.1 as nat) + seq!['.'] + decimal(
            self.2 as nat,
        ) + seq!['.'] + decimal(self.3 as nat)
    }

    /// The address in words.
    pub fn text(&self) -> (text: String)
        ensures
            text@ == self.spec_text(),
    {
        proof {
            reveal_strlit(".");
        }
        let mut text = String::new();
        push_decimal(&mut text, self.0 as u64);
        text.append(".");
        push_decimal(&mut text, self.1 as u64);
        text.append(".");
        push_decimal(&mut text, self.2 as u64);
        text.append(".");
        push_decimal(&mut text, self.3 as u64);
        assert("."@ =~= seq!['.']);
        assert(text@ =~= self.spec_text());
        text
    }
}

} // verus!
