//! What the startup resolves from the operator's configuration: the template
//! provider's address and the operator's public key.

use crate::error::Error;
use key_utils::Secp256k1PublicKey;
use std::str::FromStr;
use vstd::prelude::*;

verus! {

/// How many bytes an operator's public key has.
pub const AUTHORITY_KEY_LEN: usize = 32;

/// The bytes of the public key that a text encodes, if it encodes one.
pub uninterp spec fn decoded_authority_key(encoded: Seq<char>) -> Option<Seq<u8>>;

/// The mathematical value of an optional byte string.
pub open spec fn bytes_of(key: Option<Vec<u8>>) -> Option<Seq<u8>> {
    match key {
        Some(k) => Some(k@),
        None => None,
    }
}

/// Calls `Secp256k1PublicKey::from_str` of `key_utils` and, where it finds a
/// key, `into_bytes` on it. Not proved: that the result is the named value of
/// the text, and that a key has 32 bytes (the length of the array that
/// `into_bytes` returns).
#[verifier::external_body]
fn decode_authority_key(encoded: &str) -> (key: Option<Vec<u8>>)
    ensures
        bytes_of(key) == decoded_authority_key(encoded@),
        key matches Some(k) ==> k@.len() == AUTHORITY_KEY_LEN,
{
    match Secp256k1PublicKey::from_str(encoded) {
        Ok(k) => Some(k.into_bytes().to_vec()),
        Err(_) => None,
    }
}

/// The operator's key, or the error of a startup that has none.
pub fn key_or_unrecoverable(decoded: Option<Vec<u8>>) -> (r: Result<Vec<u8>, Error>)
    ensures
        match decoded {
            Some(k) => r == Ok::<Vec<u8>, Error>(k),
            None => r == Err::<Vec<u8>, Error>(Error::Unrecoverable),
        },
{
    match decoded {
        Some(k) => Ok(k),
        None => Err(Error::Unrecoverable),
    }
}

/// Resolves the operator's public key from its text form. A text that encodes
/// no key ends the startup as unrecoverable.
pub fn resolve_authority_key(encoded: &str) -> (r: Result<Vec<u8>, Error>)
    ensures
        match decoded_authority_key(encoded@) {
            Some(k) => r is Ok && r->Ok_0@ == k && k.len() == AUTHORITY_KEY_LEN,
            None => r == Err::<Vec<u8>, Error>(Error::Unrecoverable),
        },
{
    key_or_unrecoverable(decode_authority_key(encoded))
}

/// The byte that parts the fields of an address.
pub const COLON: u8 = 0x3a;

/// The sign that a port may begin with.
pub const PLUS: u8 = 0x2b;

/// The digit zero.
pub const DIGIT_ZERO: u8 = 0x30;

/// The digit nine.
pub const DIGIT_NINE: u8 = 0x39;

/// Where the field that begins at `from` ends: at the first colon at or after
/// `from`, or at the end of the text.
pub open spec fn field_end(s: Seq<u8>, from: int) -> int
    decreases s.len() - from,
{
    if from >= s.len() {
        s.len() as int
    } else if s[from] == COLON {
        from
    } else {
        field_end(s, from + 1)
    }
}

/// Whether a byte is a decimal digit.
pub open spec fn is_digit(b: u8) -> bool {
    DIGIT_ZERO <= b <= DIGIT_NINE
}

/// Whether a text holds decimal digits only.
pub open spec fn all_digits(d: Seq<u8>) -> bool {
    forall|i: int| 0 <= i < d.len() ==> is_digit(#[trigger] d[i])
}

/// The number that a text of decimal digits stands for.
pub open spec fn decimal_value(d: Seq<u8>) -> nat
    decreases d.len(),
{
    if d.len() == 0 {
        0
    } else {
        decimal_value(d.drop_last()) * 10 + (d.last() - DIGIT_ZERO) as nat
    }
}

/// A text without the plus sign that it may begin with.
pub open spec fn unsigned_part(t: Seq<u8>) -> Seq<u8> {
    if t.len() > 0 && t[0] == PLUS {
        t.skip(1)
    } else {
        t
    }
}

/// The port that a text stands for: one or more decimal digits, after an
/// optional plus sign, whose number fits sixteen bits.
pub open spec fn port_of(t: Seq<u8>) -> Option<u16> {
    let d = unsigned_part(t);
    if d.len() > 0 && all_digits(d) && decimal_value(d) <= u16::MAX {
        Some(decimal_value(d) as u16)
    } else {
        None
    }
}

/// The host and the port of an address: the host is what stands before the
/// first colon, the port what stands between the first colon and the second,
/// or the end. What follows a second colon is not looked at.
pub open spec fn endpoint_of(s: Seq<u8>) -> Option<(Seq<u8>, u16)> {
    let host_end = field_end(s, 0);
    if host_end >= s.len() {
        None
    } else {
        let port_end = field_end(s, host_end + 1);
        match port_of(s.subrange(host_end + 1, port_end)) {
            Some(port) => Some((s.subrange(0, host_end), port)),
            None => None,
        }
    }
}

/// The number of the first digits of a text is at most the number of the
/// whole text.
pub proof fn lemma_prefix_value_le(d: Seq<u8>, k: int)
    requires
        0 <= k <= d.len(),
    ensures
        decimal_value(d.take(k)) <= decimal_value(d),
    decreases d.len(),
{
    if k == d.len() {
        assert(d.take(k) =~= d);
    } else {
        lemma_prefix_value_le(d.drop_last(), k);
        assert(d.drop_last().take(k) =~= d.take(k));
    }
}

/// Finds the end of the field that begins at `from`.
pub fn find_field_end(s: &[u8], from: usize) -> (end: usize)
    requires
        from <= s@.len(),
    ensures
        end == field_end(s@, from as int),
        from <= end <= s@.len(),
{
    let mut i: usize = from;
    while i < s.len() && s[i] != COLON
        invariant
            from <= i <= s@.len(),
            field_end(s@, i as int) == field_end(s@, from as int),
        decreases s@.len() - i,
    {
        i = i + 1;
    }
    i
}

/// Reads the port that stands in `s` from `start` to `end`.
pub fn parse_port(s: &[u8], start: usize, end: usize) -> (port: Option<u16>)
    requires
        start <= end <= s@.len(),
    ensures
        port == port_of(s@.subrange(start as int, end as int)),
{
    let ghost text = s@.subrange(start as int, end as int);
    let mut i: usize = start;
    if i < end && s[i] == PLUS {
        i = i + 1;
    }
    let first: usize = i;
    let ghost digits = s@.subrange(first as int, end as int);
    proof {
        assert(unsigned_part(text) =~= digits);
        assert(unsigned_part(text) == digits);
    }
    if first == end {
        return None;
    }
    let mut value: u32 = 0;
    while i < end
        invariant
            first <= i <= end <= s@.len(),
            start <= first,
            digits == s@.subrange(first as int, end as int),
            digits == unsigned_part(s@.subrange(start as int, end as int)),
            value <= u16::MAX,
            value == decimal_value(digits.take(i - first)),
            all_digits(digits.take(i - first)),
        decreases end - i,
    {
        let b: u8 = s[i];
        if b < DIGIT_ZERO || b > DIGIT_NINE {
            proof {
                assert(digits[i - first] == b);
            }
            return None;
        }
        let next: u32 = value * 10 + (b - DIGIT_ZERO) as u32;
        proof {
            let longer = digits.take(i + 1 - first);
            assert(longer.drop_last() =~= digits.take(i - first));
            assert(longer.last() == b);
            assert(all_digits(longer));
        }
        if next > 65535 {
            proof {
                lemma_prefix_value_le(digits, i + 1 - first);
            }
            return None;
        }
        value = next;
        i = i + 1;
    }
    proof {
        assert(digits.take(end - first) =~= digits);
    }
    Some(value as u16)
}

/// Copies the bytes of `s` before `end`.
fn copy_prefix(s: &[u8], end: usize) -> (v: Vec<u8>)
    requires
        end <= s@.len(),
    ensures
        v@ == s@.subrange(0, end as int),
{
    let mut v: Vec<u8> = Vec::new();
    let mut i: usize = 0;
    while i < end
        invariant
            i <= end <= s@.len(),
            v@ == s@.subrange(0, i as int),
        decreases end - i,
    {
        v.push(s[i]);
        i = i + 1;
        proof {
            assert(v@ =~= s@.subrange(0, i as int));
        }
    }
    v
}

/// Parts an address of the form `host:port` into its host and its port. An
/// address without a colon, or with a port that is no number of sixteen
/// bits, is unrecoverable.
pub fn split_endpoint(address: &[u8]) -> (r: Result<(Vec<u8>, u16), Error>)
    ensures
        match endpoint_of(address@) {
            Some((host, port)) => r is Ok && r->Ok_0.0@ == host && r->Ok_0.1 == port,
            None => r == Err::<(Vec<u8>, u16), Error>(Error::Unrecoverable),
        },
{
    let host_end = find_field_end(address, 0);
    if host_end >= address.len() {
        return Err(Error::Unrecoverable);
    }
    let port_end = find_field_end(address, host_end + 1);
    match parse_port(address, host_end + 1, port_end) {
        Some(port) => Ok((copy_prefix(address, host_end), port)),
        None => Err(Error::Unrecoverable),
    }
}

/// What the startup takes from the configuration: where the template provider
/// listens, and the operator's public key.
#[derive(Clone, Debug, PartialEq, Eq)]
pub struct ResolvedConfiguration {
    pub template_provider_host: Vec<u8>,
    pub template_provider_port: u16,
    pub authority_key: Vec<u8>,
}

/// Resolves the template provider's address and the operator's key. It
/// succeeds exactly when the address has a host and a port and the text of
/// the key encodes a key; any other configuration is unrecoverable.
pub fn resolve_configuration(tp_address: &[u8], authority_key: &str) -> (r: Result<
    ResolvedConfiguration,
    Error,
>)
    ensures
        match (endpoint_of(tp_address@), decoded_authority_key(authority_key@)) {
            (Some((host, port)), Some(key)) => r is Ok && r->Ok_0.template_provider_host@ == host
                && r->Ok_0.template_provider_port == port && r->Ok_0.authority_key@ == key
                && key.len() == AUTHORITY_KEY_LEN,
            _ => r == Err::<ResolvedConfiguration, Error>(Error::Unrecoverable),
        },
{
    let (host, port) = match split_endpoint(tp_address) {
        Ok(endpoint) => endpoint,
        Err(_) => {
            return Err(Error::Unrecoverable);
        },
    };
    match resolve_authority_key(authority_key) {
        Ok(key) => Ok(
            ResolvedConfiguration {
                template_provider_host: host,
                template_provider_port: port,
                authority_key: key,
            },
        ),
        Err(_) => Err(Error::Unrecoverable),
    }
}

} // verus!
