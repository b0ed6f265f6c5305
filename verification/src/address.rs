use vstd::prelude::*;

use crate::text::{decimal, law_decimal_reads_back, numeral_value, push_decimal};

verus! {

/// An IPv4 socket address: four octets and a port.
#[derive(Debug, Clone, Copy)]
pub struct TargetAddress {
    pub octets: [u8; 4],
    pub port: u16,
}

/// `a.b.c.d:port`, the usual notation of an IPv4 socket address.
pub open spec fn address_text(address: TargetAddress) -> Seq<char> {
    decimal(address.octets@[0] as nat) + seq!['.'] + decimal(address.octets@[1] as nat) + seq!['.']
        + decimal(address.octets@[2] as nat) + seq!['.'] + decimal(address.octets@[3] as nat)
        + seq![':'] + decimal(address.port as nat)
}

impl TargetAddress {
    /// Appends the notation of the address to `out`.
    pub fn push_text(&self, out: &mut String)
        ensures
            final(out)@ == old(out)@ + address_text(*self),
    {
        let ghost start = out@;
        push_decimal(out, self.octets[0] as u16);
        out.append(".");
        push_decimal(out, self.octets[1] as u16);
        out.append(".");
        push_decimal(out, self.octets[2] as u16);
        out.append(".");
        push_decimal(out, self.octets[3] as u16);
        out.append(":");
        push_decimal(out, self.port);
        proof {
            reveal_strlit(".");
            reveal_strlit(":");
        }
        assert(out@ =~= start + address_text(*self));
    }
}

/// The notation of an address is the dotted quad then the port: four
/// decimal fields separated by `.`, each reading back as its octet, then
/// `:` and a decimal field reading back as the port.
pub proof fn law_address_text_reads_back(address: TargetAddress)
    ensures
        exists|f0: Seq<char>, f1: Seq<char>, f2: Seq<char>, f3: Seq<char>, p: Seq<char>|
            {
                &&& address_text(address) == f0 + seq!['.'] + f1 + seq!['.'] + f2 + seq!['.'] + f3
                    + seq![':'] + p
                &&& numeral_value(f0) == address.octets@[0]
                &&& numeral_value(f1) == address.octets@[1]
                &&& numeral_value(f2) == address.octets@[2]
                &&& numeral_value(f3) == address.octets@[3]
                &&& numeral_value(p) == address.port
                &&& !f0.contains('.') && !f1.contains('.') && !f2.contains('.') && !f3.contains('.')
                &&& !p.contains(':') && !f3.contains(':')
            },
{
    let f0 = decimal(address.octets@[0] as nat);
    let f1 = decimal(address.octets@[1] as nat);
    let f2 = decimal(address.octets@[2] as nat);
    let f3 = decimal(address.octets@[3] as nat);
    let p = decimal(address.port as nat);
    law_decimal_reads_back(address.octets@[0] as nat);
    law_decimal_reads_back(address.octets@[1] as nat);
    law_decimal_reads_back(address.octets@[2] as nat);
    law_decimal_reads_back(address.octets@[3] as nat);
    law_decimal_reads_back(address.port as nat);
    assert(!f0.contains('.')) by {
        if f0.contains('.') {
            let i = choose|i: int| 0 <= i < f0.len() && f0[i] == '.';
            assert(crate::text::is_decimal_digit(f0[i]));
        }
    }
    assert(!f1.contains('.')) by {
        if f1.contains('.') {
            let i = choose|i: int| 0 <= i < f1.len() && f1[i] == '.';
            assert(crate::text::is_decimal_digit(f1[i]));
        }
    }
    assert(!f2.contains('.')) by {
        if f2.contains('.') {
            let i = choose|i: int| 0 <= i < f2.len() && f2[i] == '.';
            assert(crate::text::is_decimal_digit(f2[i]));
        }
    }
    assert(!f3.contains('.') && !f3.contains(':')) by {
        if f3.contains('.') {
            let i = choose|i: int| 0 <= i < f3.len() && f3[i] == '.';
            assert(crate::text::is_decimal_digit(f3[i]));
        }
        if f3.contains(':') {
            let i = choose|i: int| 0 <= i < f3.len() && f3[i] == ':';
            assert(crate::text::is_decimal_digit(f3[i]));
        }
    }
    assert(!p.contains(':')) by {
        if p.contains(':') {
            let i = choose|i: int| 0 <= i < p.len() && p[i] == ':';
            assert(crate::text::is_decimal_digit(p[i]));
        }
    }
    assert(address_text(address) == f0 + seq!['.'] + f1 + seq!['.'] + f2 + seq!['.'] + f3 + seq![':'] + p);
}

} // verus!
