use vstd::prelude::*;
use vstd::string::StringSliceAdditionalSpecFns;

verus! {

/// Instruction tag of the token-metadata program's "create metadata
/// accounts" call, version three.
pub const CREATE_METADATA_ACCOUNTS_V3: u8 = 33;

/// The four little-endian bytes of `n`.
pub open spec fn u32_le_bytes(n: u32) -> Seq<u8> {
    seq![
        (n % 0x100) as u8,
        (n / 0x100 % 0x100) as u8,
        (n / 0x1_0000 % 0x100) as u8,
        (n / 0x100_0000) as u8,
    ]
}

/// A string as the metadata program reads it: its byte length as a
/// little-endian `u32`, then its bytes.
pub open spec fn length_prefixed(bytes: Seq<u8>) -> Seq<u8> {
    u32_le_bytes(bytes.len() as u32) + bytes
}

/// The call data that labels the point token with a name, a symbol and a
/// URI: the tag, the three strings, a zero seller fee, no creators, no
/// collection, no uses, mutable, and no collection details.
pub open spec fn metadata_call_data(name: Seq<u8>, symbol: Seq<u8>, uri: Seq<u8>) -> Seq<u8> {
    seq![CREATE_METADATA_ACCOUNTS_V3] + length_prefixed(name) + length_prefixed(symbol)
        + length_prefixed(uri) + seq![0u8, 0u8, 0u8, 0u8, 0u8, 1u8, 0u8]
}

fn push_u32_le(out: &mut Vec<u8>, n: u32)
    ensures
        final(out)@ == old(out)@ + u32_le_bytes(n),
{
    out.push((n % 0x100) as u8);
    out.push((n / 0x100 % 0x100) as u8);
    out.push((n / 0x1_0000 % 0x100) as u8);
    out.push((n / 0x100_0000) as u8);
    assert(final(out)@ =~= old(out)@ + u32_le_bytes(n));
}

fn push_bytes(out: &mut Vec<u8>, bytes: &[u8])
    ensures
        final(out)@ == old(out)@ + bytes@,
{
    let ghost start = out@;
    let mut i: usize = 0;
    while i < bytes.len()
        invariant
            i <= bytes@.len(),
            out@ == start + bytes@.subrange(0, i as int),
        decreases bytes@.len() - i,
    {
        out.push(bytes[i]);
        i = i + 1;
        assert(out@ =~= start + bytes@.subrange(0, i as int));
    }
    assert(bytes@.subrange(0, i as int) =~= bytes@);
}

/// Appends `s` as a length-prefixed string.
fn push_string(out: &mut Vec<u8>, s: &str)
    requires
        s.spec_bytes().len() <= u32::MAX,
    ensures
        final(out)@ == old(out)@ + length_prefixed(s.spec_bytes()),
{
    let bytes = s.as_bytes();
    push_u32_le(out, s.len() as u32);
    push_bytes(out, bytes);
    assert(final(out)@ =~= old(out)@ + length_prefixed(s.spec_bytes()));
}

/// Encodes `s` as a length-prefixed string.
pub fn borsh_string(s: &str) -> (r: Vec<u8>)
    requires
        s.spec_bytes().len() <= u32::MAX,
    ensures
        r@ == length_prefixed(s.spec_bytes()),
{
    let mut out: Vec<u8> = Vec::new();
    push_string(&mut out, s);
    assert(out@ =~= length_prefixed(s.spec_bytes()));
    out
}

/// Builds the call data that labels the point token.
pub fn metadata_instruction_data(name: &str, symbol: &str, uri: &str) -> (r: Vec<u8>)
    requires
        name.spec_bytes().len() <= u32::MAX,
        symbol.spec_bytes().len() <= u32::MAX,
        uri.spec_bytes().len() <= u32::MAX,
    ensures
        r@ == metadata_call_data(name.spec_bytes(), symbol.spec_bytes(), uri.spec_bytes()),
{
    let mut data: Vec<u8> = Vec::new();
    data.push(CREATE_METADATA_ACCOUNTS_V3);
    push_string(&mut data, name);
    push_string(&mut data, symbol);
    push_string(&mut data, uri);
    data.push(0u8);
    data.push(0u8);
    data.push(0u8);
    data.push(0u8);
    data.push(0u8);
    data.push(1u8);
    data.push(0u8);
    assert(data@ =~= metadata_call_data(name.spec_bytes(), symbol.spec_bytes(), uri.spec_bytes()));
    data
}

} // verus!
