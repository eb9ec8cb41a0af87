//! Writing fields to a growing buffer.
use crate::address::Address;
use crate::codec::fields::{
    bool_bytes, i64_bytes, lengths_fit, list_bytes, text_bytes, texts_bytes,
    texts_bytes_of_joined, texts_bytes_of_one, zeros,
};
use crate::state::byte_len;
use vstd::bytes::{spec_u32_to_le_bytes, spec_u64_to_le_bytes, u32_to_le_bytes, u64_to_le_bytes};
use vstd::prelude::*;

verus! {

/// Appends `bytes` to `out`.
pub(crate) fn write_bytes(out: &mut Vec<u8>, bytes: &[u8])
    ensures
        final(out)@ == old(out)@ + bytes@,
{
    let mut i: usize = 0;
    while i < bytes.len()
        invariant
            i <= bytes.len(),
            out@ == old(out)@ + bytes@.take(i as int),
        decreases bytes.len() - i,
    {
        out.push(bytes[i]);
        i += 1;
        assert(bytes@.take(i as int) =~= bytes@.take(i - 1).push(bytes@[i - 1]));
        assert(out@ =~= old(out)@ + bytes@.take(i as int));
    }
    assert(bytes@.take(bytes.len() as int) =~= bytes@);
}

/// Appends zero bytes to `out` until it is `len` bytes long.
pub(crate) fn pad_to(out: &mut Vec<u8>, len: usize)
    requires
        old(out).len() <= len,
    ensures
        final(out)@ == old(out)@ + zeros((len - old(out).len()) as nat),
{
    assert(out@ =~= old(out)@ + zeros(0));
    while out.len() < len
        invariant
            old(out).len() <= out.len() <= len,
            out@ == old(out)@ + zeros((out.len() - old(out).len()) as nat),
        decreases len - out.len(),
    {
        let ghost before = out@;
        out.push(0u8);
        assert(out@ =~= old(out)@ + zeros((out.len() - old(out).len()) as nat));
    }
}

/// Appends a flag.
pub(crate) fn write_bool(out: &mut Vec<u8>, flag: bool)
    ensures
        final(out)@ == old(out)@ + bool_bytes(flag),
{
    out.push(if flag { 1u8 } else { 0u8 });
    assert(out@ =~= old(out)@ + bool_bytes(flag));
}

/// Appends one byte.
pub(crate) fn write_byte(out: &mut Vec<u8>, x: u8)
    ensures
        final(out)@ == old(out)@ + seq![x],
{
    out.push(x);
    assert(out@ =~= old(out)@ + seq![x]);
}

/// Appends an unsigned 32-bit number, lowest byte first.
pub(crate) fn write_u32(out: &mut Vec<u8>, x: u32)
    ensures
        final(out)@ == old(out)@ + spec_u32_to_le_bytes(x),
{
    let bytes = u32_to_le_bytes(x);
    write_bytes(out, bytes.as_slice());
}

/// Appends an unsigned 64-bit number, lowest byte first.
pub(crate) fn write_u64(out: &mut Vec<u8>, x: u64)
    ensures
        final(out)@ == old(out)@ + spec_u64_to_le_bytes(x),
{
    let bytes = u64_to_le_bytes(x);
    write_bytes(out, bytes.as_slice());
}

/// Appends a signed 64-bit number in two's complement.
pub(crate) fn write_i64(out: &mut Vec<u8>, x: i64)
    ensures
        final(out)@ == old(out)@ + i64_bytes(x),
{
    let bits: u64 = if x >= 0 {
        x as u64
    } else {
        u64::MAX - ((-(x + 1)) as u64)
    };
    write_u64(out, bits);
}

/// Appends the 32 bytes of an identity.
pub(crate) fn write_address(out: &mut Vec<u8>, a: &Address)
    ensures
        final(out)@ == old(out)@ + a@,
{
    write_bytes(out, a.bytes.as_slice());
}

/// Appends a text: its length in bytes, then its bytes.
pub(crate) fn write_text(out: &mut Vec<u8>, text: &String)
    requires
        byte_len(text@) <= u32::MAX,
    ensures
        final(out)@ == old(out)@ + text_bytes(text@),
{
    let bytes = text.as_str().as_bytes();
    write_u32(out, bytes.len() as u32);
    write_bytes(out, bytes);
    assert(out@ =~= old(out)@ + text_bytes(text@));
}

/// Appends a list of texts: their number, then each of them.
pub(crate) fn write_list(out: &mut Vec<u8>, texts: &Vec<String>)
    requires
        texts.len() <= u32::MAX,
        lengths_fit(texts.deep_view()),
    ensures
        final(out)@ == old(out)@ + list_bytes(texts.deep_view()),
{
    write_u32(out, texts.len() as u32);
    let ghost all = texts.deep_view();
    let ghost start = out@;
    let mut i: usize = 0;
    assert(all.take(0) =~= Seq::<Seq<char>>::empty());
    assert(out@ =~= start + texts_bytes(all.take(0)));
    while i < texts.len()
        invariant
            i <= texts.len(),
            all == texts.deep_view(),
            all.len() == texts.len(),
            lengths_fit(all),
            out@ == start + texts_bytes(all.take(i as int)),
        decreases texts.len() - i,
    {
        assert(all[i as int] == texts[i as int]@);
        write_text(out, &texts[i]);
        proof {
            texts_bytes_of_joined(all.take(i as int), seq![all[i as int]]);
            assert(all.take(i + 1) =~= all.take(i as int) + seq![all[i as int]]);
            texts_bytes_of_one(all[i as int]);
            assert(out@ =~= start + texts_bytes(all.take(i + 1)));
        }
        i += 1;
    }
    assert(all.take(texts.len() as int) =~= all);
    assert(out@ =~= old(out)@ + list_bytes(all));
}

} // verus!
