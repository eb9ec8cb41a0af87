//! Layout of the single fields: what each is as bytes, what parsing
//! bytes gives, and that the two agree.
use crate::address::Address;
use crate::state::byte_len;
use vstd::array::{axiom_spec_array_update, spec_array_update};
use vstd::bytes::{
    lemma_auto_spec_u32_to_from_le_bytes, lemma_auto_spec_u64_to_from_le_bytes,
    spec_u32_from_le_bytes, spec_u32_to_le_bytes, spec_u64_from_le_bytes, spec_u64_to_le_bytes,
};
use vstd::prelude::*;
use vstd::utf8::{
    decode_utf8, decode_utf8_encode_utf8, encode_utf8, encode_utf8_decode_utf8,
    encode_utf8_valid_utf8, valid_utf8,
};

verus! {

/// What reading one value from the front of some bytes gives: the value,
/// and the bytes that follow it.
pub struct Parsed<V> {
    pub value: V,
    pub rest: Seq<u8>,
}

/// The first `n` bytes, if there are that many.
pub open spec fn parse_block(b: Seq<u8>, n: nat) -> Option<Parsed<Seq<u8>>> {
    if b.len() >= n {
        Some(Parsed { value: b.take(n as int), rest: b.skip(n as int) })
    } else {
        None
    }
}

/// One byte.
pub open spec fn parse_byte(b: Seq<u8>) -> Option<Parsed<u8>> {
    if b.len() >= 1 {
        Some(Parsed { value: b[0], rest: b.skip(1) })
    } else {
        None
    }
}

/// A flag is stored as 1 or 0.
pub open spec fn bool_bytes(flag: bool) -> Seq<u8> {
    seq![if flag { 1u8 } else { 0u8 }]
}

/// A flag is read from one byte, which must be 0 or 1.
pub open spec fn parse_bool(b: Seq<u8>) -> Option<Parsed<bool>> {
    if b.len() >= 1 && b[0] <= 1 {
        Some(Parsed { value: b[0] == 1, rest: b.skip(1) })
    } else {
        None
    }
}

/// An unsigned 32-bit number, from 4 bytes, lowest first.
pub open spec fn parse_u32(b: Seq<u8>) -> Option<Parsed<u32>> {
    match parse_block(b, 4) {
        Some(p) => Some(Parsed { value: spec_u32_from_le_bytes(p.value), rest: p.rest }),
        None => None,
    }
}

/// An unsigned 64-bit number, from 8 bytes, lowest first.
pub open spec fn parse_u64(b: Seq<u8>) -> Option<Parsed<u64>> {
    match parse_block(b, 8) {
        Some(p) => Some(Parsed { value: spec_u64_from_le_bytes(p.value), rest: p.rest }),
        None => None,
    }
}

/// The 64 bits of a signed number in two's complement, as an unsigned one.
pub open spec fn bits_of(x: i64) -> u64 {
    if x >= 0 {
        x as u64
    } else {
        (x + 0x1_0000_0000_0000_0000) as u64
    }
}

/// The signed number that 64 bits stand for in two's complement.
pub open spec fn signed_of(bits: u64) -> i64 {
    if bits <= i64::MAX {
        bits as i64
    } else {
        (bits - 0x1_0000_0000_0000_0000) as i64
    }
}

/// A signed 64-bit number is stored as its two's complement bits.
pub open spec fn i64_bytes(x: i64) -> Seq<u8> {
    spec_u64_to_le_bytes(bits_of(x))
}

/// A signed 64-bit number, from 8 bytes.
pub open spec fn parse_i64(b: Seq<u8>) -> Option<Parsed<i64>> {
    match parse_u64(b) {
        Some(p) => Some(Parsed { value: signed_of(p.value), rest: p.rest }),
        None => None,
    }
}

/// The identity whose bytes are `bytes`.
pub open spec fn address_from(bytes: Seq<u8>) -> Address {
    choose|a: Address| a@ == bytes
}

/// An identity, from 32 bytes.
pub open spec fn parse_address(b: Seq<u8>) -> Option<Parsed<Address>> {
    match parse_block(b, 32) {
        Some(p) => Some(Parsed { value: address_from(p.value), rest: p.rest }),
        None => None,
    }
}

/// Joining three runs of bytes gives the same whichever two are joined
/// first.
pub proof fn joined_thrice(x: Seq<u8>, y: Seq<u8>, z: Seq<u8>)
    ensures
        (x + y) + z == x + (y + z),
{
    assert((x + y) + z =~= x + (y + z));
}

/// Reading a block that was written gives the block back, and what
/// followed it.
pub proof fn block_round_trip(block: Seq<u8>, rest: Seq<u8>)
    ensures
        parse_block(block + rest, block.len()) == Some(Parsed { value: block, rest }),
{
    assert((block + rest).take(block.len() as int) =~= block);
    assert((block + rest).skip(block.len() as int) =~= rest);
}

/// A block that was read stands at the front of the bytes, followed by
/// the rest.
pub proof fn block_is_prefix(b: Seq<u8>, n: nat)
    requires
        parse_block(b, n) is Some,
    ensures
        b == parse_block(b, n)->0.value + parse_block(b, n)->0.rest,
        parse_block(b, n)->0.value.len() == n,
{
    assert(b =~= b.take(n as int) + b.skip(n as int));
}

/// A flag that was written is read back, with what followed it.
pub proof fn bool_round_trip(flag: bool, rest: Seq<u8>)
    ensures
        parse_bool(bool_bytes(flag) + rest) == Some(Parsed { value: flag, rest }),
{
    assert((bool_bytes(flag) + rest).skip(1) =~= rest);
}

/// A flag that was read stands at the front of the bytes, before the rest.
pub proof fn bool_is_prefix(b: Seq<u8>)
    requires
        parse_bool(b) is Some,
    ensures
        b == bool_bytes(parse_bool(b)->0.value) + parse_bool(b)->0.rest,
{
    assert(b =~= bool_bytes(b[0] == 1) + b.skip(1));
}

/// A byte that was written is read back, with what followed it.
pub proof fn byte_round_trip(x: u8, rest: Seq<u8>)
    ensures
        parse_byte(seq![x] + rest) == Some(Parsed { value: x, rest }),
{
    assert((seq![x] + rest).skip(1) =~= rest);
}

/// A byte that was read stands at the front of the bytes, before the rest.
pub proof fn byte_is_prefix(b: Seq<u8>)
    requires
        parse_byte(b) is Some,
    ensures
        b == seq![parse_byte(b)->0.value] + parse_byte(b)->0.rest,
{
    assert(b =~= seq![b[0]] + b.skip(1));
}

/// A 32-bit number that was written is read back, with what followed it.
pub proof fn u32_round_trip(x: u32, rest: Seq<u8>)
    ensures
        spec_u32_to_le_bytes(x).len() == 4,
        parse_u32(spec_u32_to_le_bytes(x) + rest) == Some(Parsed { value: x, rest }),
{
    lemma_auto_spec_u32_to_from_le_bytes();
    block_round_trip(spec_u32_to_le_bytes(x), rest);
}

/// A 32-bit number that was read stands at the front of the bytes, before the rest.
pub proof fn u32_is_prefix(b: Seq<u8>)
    requires
        parse_u32(b) is Some,
    ensures
        b == spec_u32_to_le_bytes(parse_u32(b)->0.value) + parse_u32(b)->0.rest,
{
    lemma_auto_spec_u32_to_from_le_bytes();
    block_is_prefix(b, 4);
}

/// A 64-bit number that was written is read back, with what followed it.
pub proof fn u64_round_trip(x: u64, rest: Seq<u8>)
    ensures
        spec_u64_to_le_bytes(x).len() == 8,
        parse_u64(spec_u64_to_le_bytes(x) + rest) == Some(Parsed { value: x, rest }),
{
    lemma_auto_spec_u64_to_from_le_bytes();
    block_round_trip(spec_u64_to_le_bytes(x), rest);
}

/// A 64-bit number that was read stands at the front of the bytes, before the rest.
pub proof fn u64_is_prefix(b: Seq<u8>)
    requires
        parse_u64(b) is Some,
    ensures
        b == spec_u64_to_le_bytes(parse_u64(b)->0.value) + parse_u64(b)->0.rest,
{
    lemma_auto_spec_u64_to_from_le_bytes();
    block_is_prefix(b, 8);
}

/// Two's complement loses nothing, in either direction.
pub proof fn signed_bits_round_trip(x: i64, bits: u64)
    ensures
        signed_of(bits_of(x)) == x,
        bits_of(signed_of(bits)) == bits,
{
}

/// A signed number that was written is read back, with what followed it.
pub proof fn i64_round_trip(x: i64, rest: Seq<u8>)
    ensures
        i64_bytes(x).len() == 8,
        parse_i64(i64_bytes(x) + rest) == Some(Parsed { value: x, rest }),
{
    u64_round_trip(bits_of(x), rest);
    signed_bits_round_trip(x, 0);
}

/// A signed number that was read stands at the front of the bytes, before the rest.
pub proof fn i64_is_prefix(b: Seq<u8>)
    requires
        parse_i64(b) is Some,
    ensures
        b == i64_bytes(parse_i64(b)->0.value) + parse_i64(b)->0.rest,
{
    u64_is_prefix(b);
    signed_bits_round_trip(0, parse_u64(b)->0.value);
}

/// `base` with its first `n` bytes replaced by those of `bytes`.
spec fn overwritten(base: [u8; 32], bytes: Seq<u8>, n: nat) -> [u8; 32]
    decreases n,
{
    if n == 0 {
        base
    } else {
        spec_array_update(overwritten(base, bytes, (n - 1) as nat), n - 1, bytes[n - 1])
    }
}

/// The bytes that were put in place are there.
proof fn overwritten_holds(base: [u8; 32], bytes: Seq<u8>, n: nat)
    requires
        n <= 32,
        bytes.len() == 32,
    ensures
        forall|i: int| 0 <= i < n ==> overwritten(base, bytes, n)@[i] == bytes[i],
    decreases n,
{
    if n > 0 {
        overwritten_holds(base, bytes, (n - 1) as nat);
        axiom_spec_array_update(overwritten(base, bytes, (n - 1) as nat), n - 1, bytes[n - 1]);
    }
}

/// Any 32 bytes are the bytes of an identity.
pub proof fn address_from_bytes(bytes: Seq<u8>)
    requires
        bytes.len() == 32,
    ensures
        address_from(bytes)@ == bytes,
{
    let base: [u8; 32] = arbitrary();
    overwritten_holds(base, bytes, 32);
    let witness = Address { bytes: overwritten(base, bytes, 32) };
    assert(witness@ =~= bytes);
}

/// An identity is determined by its bytes.
pub proof fn address_of_its_bytes(a: Address)
    ensures
        a@.len() == 32,
        address_from(a@) == a,
{
    let b = address_from(a@);
    assert(b@ == a@);
    assert(b.bytes@ =~= a.bytes@);
    assert(b.bytes == a.bytes);
}

/// An identity that was written is read back, with what followed it.
pub proof fn address_round_trip(a: Address, rest: Seq<u8>)
    ensures
        parse_address(a@ + rest) == Some(Parsed { value: a, rest }),
{
    address_of_its_bytes(a);
    block_round_trip(a@, rest);
}

/// An identity that was read stands at the front of the bytes, before the rest.
pub proof fn address_is_prefix(b: Seq<u8>)
    requires
        parse_address(b) is Some,
    ensures
        b == parse_address(b)->0.value@ + parse_address(b)->0.rest,
{
    block_is_prefix(b, 32);
    address_from_bytes(parse_block(b, 32)->0.value);
}

/// A text is stored as its length in bytes, then its UTF-8 bytes.
pub open spec fn text_bytes(text: Seq<char>) -> Seq<u8> {
    spec_u32_to_le_bytes(byte_len(text) as u32) + encode_utf8(text)
}

/// A text is read from a length and that many bytes, which must be
/// well-formed UTF-8.
pub open spec fn parse_text(b: Seq<u8>) -> Option<Parsed<Seq<char>>> {
    match parse_u32(b) {
        Some(n) => match parse_block(n.rest, n.value as nat) {
            Some(p) => if valid_utf8(p.value) {
                Some(Parsed { value: decode_utf8(p.value), rest: p.rest })
            } else {
                None
            },
            None => None,
        },
        None => None,
    }
}

/// A text that was written is read back, with what followed it.
pub proof fn text_round_trip(text: Seq<char>, rest: Seq<u8>)
    requires
        byte_len(text) <= u32::MAX,
    ensures
        text_bytes(text).len() == 4 + byte_len(text),
        parse_text(text_bytes(text) + rest) == Some(Parsed { value: text, rest }),
{
    let n = byte_len(text) as u32;
    let body = encode_utf8(text);
    u32_round_trip(n, body + rest);
    assert(text_bytes(text) + rest =~= spec_u32_to_le_bytes(n) + (body + rest));
    block_round_trip(body, rest);
    encode_utf8_valid_utf8(text);
    encode_utf8_decode_utf8(text);
}

/// A text that was read stands at the front of the bytes, before the rest.
pub proof fn text_is_prefix(b: Seq<u8>)
    requires
        parse_text(b) is Some,
    ensures
        b == text_bytes(parse_text(b)->0.value) + parse_text(b)->0.rest,
        byte_len(parse_text(b)->0.value) <= u32::MAX,
{
    let n = parse_u32(b)->0;
    let p = parse_block(n.rest, n.value as nat)->0;
    u32_is_prefix(b);
    block_is_prefix(n.rest, n.value as nat);
    decode_utf8_encode_utf8(p.value);
    assert(b =~= (spec_u32_to_le_bytes(n.value) + p.value) + p.rest);
}

/// Texts one after the other.
pub open spec fn texts_bytes(texts: Seq<Seq<char>>) -> Seq<u8>
    decreases texts.len(),
{
    if texts.len() == 0 {
        Seq::<u8>::empty()
    } else {
        text_bytes(texts[0]) + texts_bytes(texts.drop_first())
    }
}

/// A list of texts is stored as their number, then the texts.
pub open spec fn list_bytes(texts: Seq<Seq<char>>) -> Seq<u8> {
    spec_u32_to_le_bytes(texts.len() as u32) + texts_bytes(texts)
}

/// `count` texts one after the other.
pub open spec fn parse_texts(b: Seq<u8>, count: nat) -> Option<Parsed<Seq<Seq<char>>>>
    decreases count,
{
    if count == 0 {
        Some(Parsed { value: Seq::<Seq<char>>::empty(), rest: b })
    } else {
        match parse_text(b) {
            Some(first) => match parse_texts(first.rest, (count - 1) as nat) {
                Some(more) => Some(Parsed { value: seq![first.value] + more.value, rest: more.rest }),
                None => None,
            },
            None => None,
        }
    }
}

/// A list of texts is read from a count and that many texts.
pub open spec fn parse_list(b: Seq<u8>) -> Option<Parsed<Seq<Seq<char>>>> {
    match parse_u32(b) {
        Some(n) => parse_texts(n.rest, n.value as nat),
        None => None,
    }
}

/// Every text of the list has a length that its 4-byte prefix can hold.
pub open spec fn lengths_fit(texts: Seq<Seq<char>>) -> bool {
    forall|i: int| 0 <= i < texts.len() ==> byte_len(#[trigger] texts[i]) <= u32::MAX
}

/// The bytes of two lists in a row are the bytes of the joined list.
pub proof fn texts_bytes_of_joined(front: Seq<Seq<char>>, back: Seq<Seq<char>>)
    ensures
        texts_bytes(front + back) == texts_bytes(front) + texts_bytes(back),
    decreases front.len(),
{
    if front.len() == 0 {
        assert(front + back =~= back);
        assert(texts_bytes(front) + texts_bytes(back) =~= texts_bytes(back));
    } else {
        texts_bytes_of_joined(front.drop_first(), back);
        assert((front + back).drop_first() =~= front.drop_first() + back);
        assert(texts_bytes(front + back) =~= texts_bytes(front) + texts_bytes(back));
    }
}

/// The bytes of a list of one text are the bytes of that text.
pub proof fn texts_bytes_of_one(text: Seq<char>)
    ensures
        texts_bytes(seq![text]) == text_bytes(text),
{
    let one = seq![text];
    assert(one.drop_first() =~= Seq::<Seq<char>>::empty());
    assert(texts_bytes(one.drop_first()) =~= Seq::<u8>::empty());
    assert(texts_bytes(one) =~= text_bytes(text));
}

/// A run of texts that was written is read back, with what followed it.
pub proof fn texts_round_trip(texts: Seq<Seq<char>>, rest: Seq<u8>)
    requires
        lengths_fit(texts),
    ensures
        parse_texts(texts_bytes(texts) + rest, texts.len()) == Some(Parsed { value: texts, rest }),
    decreases texts.len(),
{
    if texts.len() == 0 {
        assert(texts_bytes(texts) + rest =~= rest);
        assert(texts =~= Seq::<Seq<char>>::empty());
    } else {
        let tail = texts.drop_first();
        assert(lengths_fit(tail)) by {
            assert forall|i: int| 0 <= i < tail.len() implies byte_len(#[trigger] tail[i])
                <= u32::MAX by {
                assert(tail[i] == texts[i + 1]);
            }
        }
        texts_round_trip(tail, rest);
        text_round_trip(texts[0], texts_bytes(tail) + rest);
        assert(texts_bytes(texts) + rest =~= text_bytes(texts[0]) + (texts_bytes(tail) + rest));
        assert(seq![texts[0]] + tail =~= texts);
    }
}

/// A run of texts that was read stands at the front of the bytes, before the rest.
pub proof fn texts_is_prefix(b: Seq<u8>, count: nat)
    requires
        parse_texts(b, count) is Some,
    ensures
        b == texts_bytes(parse_texts(b, count)->0.value) + parse_texts(b, count)->0.rest,
        parse_texts(b, count)->0.value.len() == count,
        lengths_fit(parse_texts(b, count)->0.value),
    decreases count,
{
    if count == 0 {
        assert(b =~= texts_bytes(Seq::<Seq<char>>::empty()) + b);
    } else {
        let first = parse_text(b)->0;
        let more = parse_texts(first.rest, (count - 1) as nat)->0;
        let all = seq![first.value] + more.value;
        text_is_prefix(b);
        texts_is_prefix(first.rest, (count - 1) as nat);
        assert(all.drop_first() =~= more.value);
        assert(b =~= texts_bytes(all) + more.rest);
        assert forall|i: int| 0 <= i < all.len() implies byte_len(#[trigger] all[i])
            <= u32::MAX by {
            if i > 0 {
                assert(all[i] == more.value[i - 1]);
            }
        }
    }
}

/// A list of texts that was written is read back, with what followed it.
pub proof fn list_round_trip(texts: Seq<Seq<char>>, rest: Seq<u8>)
    requires
        texts.len() <= u32::MAX,
        lengths_fit(texts),
    ensures
        parse_list(list_bytes(texts) + rest) == Some(Parsed { value: texts, rest }),
{
    u32_round_trip(texts.len() as u32, texts_bytes(texts) + rest);
    assert(list_bytes(texts) + rest =~= spec_u32_to_le_bytes(texts.len() as u32) + (texts_bytes(
        texts,
    ) + rest));
    texts_round_trip(texts, rest);
}

/// A list of texts that was read stands at the front of the bytes, before the rest.
pub proof fn list_is_prefix(b: Seq<u8>)
    requires
        parse_list(b) is Some,
    ensures
        b == list_bytes(parse_list(b)->0.value) + parse_list(b)->0.rest,
        parse_list(b)->0.value.len() <= u32::MAX,
        lengths_fit(parse_list(b)->0.value),
{
    let n = parse_u32(b)->0;
    let p = parse_texts(n.rest, n.value as nat)->0;
    u32_is_prefix(b);
    texts_is_prefix(n.rest, n.value as nat);
    assert(b =~= (spec_u32_to_le_bytes(n.value) + texts_bytes(p.value)) + p.rest);
}

/// `n` zero bytes.
pub open spec fn zeros(n: nat) -> Seq<u8> {
    Seq::new(n, |i: int| 0u8)
}

/// `content` in a space of `space` bytes: the content, then zeros.
pub open spec fn stored(content: Seq<u8>, space: nat) -> Seq<u8> {
    content + zeros((space - content.len()) as nat)
}

/// A stored text takes 4 bytes more than the text itself.
pub proof fn text_bytes_len(text: Seq<char>)
    ensures
        text_bytes(text).len() == 4 + byte_len(text),
{
    lemma_auto_spec_u32_to_from_le_bytes();
}

/// Each text of a list takes its 4 bytes and its own bytes within the
/// bytes of the list.
pub proof fn texts_bytes_bounds(texts: Seq<Seq<char>>)
    ensures
        texts_bytes(texts).len() >= 4 * texts.len(),
        forall|i: int|
            0 <= i < texts.len() ==> 4 + byte_len(#[trigger] texts[i]) <= texts_bytes(texts).len(),
    decreases texts.len(),
{
    if texts.len() > 0 {
        let tail = texts.drop_first();
        texts_bytes_bounds(tail);
        text_bytes_len(texts[0]);
        assert forall|i: int| 0 <= i < texts.len() implies 4 + byte_len(#[trigger] texts[i])
            <= texts_bytes(texts).len() by {
            if i > 0 {
                assert(texts[i] == tail[i - 1]);
            }
        }
    }
}

/// Texts of at most 64 bytes each take at most 68 bytes each.
pub proof fn texts_bytes_of_short_texts(texts: Seq<Seq<char>>)
    requires
        forall|i: int| 0 <= i < texts.len() ==> byte_len(#[trigger] texts[i]) <= 64,
    ensures
        texts_bytes(texts).len() <= 68 * texts.len(),
    decreases texts.len(),
{
    if texts.len() > 0 {
        let tail = texts.drop_first();
        assert forall|i: int| 0 <= i < tail.len() implies byte_len(#[trigger] tail[i]) <= 64 by {
            assert(tail[i] == texts[i + 1]);
        }
        texts_bytes_of_short_texts(tail);
        text_bytes_len(texts[0]);
    }
}

/// The first `k + 1` texts take what the first `k` take and the next one
/// in addition, and no more than the whole list.
pub proof fn texts_bytes_of_front(texts: Seq<Seq<char>>, k: int)
    requires
        0 <= k < texts.len(),
    ensures
        texts_bytes(texts.take(k + 1)).len() == texts_bytes(texts.take(k)).len() + 4 + byte_len(
            texts[k],
        ),
        texts_bytes(texts.take(k + 1)).len() <= texts_bytes(texts).len(),
{
    texts_bytes_of_joined(texts.take(k), seq![texts[k]]);
    texts_bytes_of_one(texts[k]);
    text_bytes_len(texts[k]);
    assert(texts.take(k + 1) =~= texts.take(k) + seq![texts[k]]);
    texts_bytes_of_joined(texts.take(k + 1), texts.skip(k + 1));
    assert(texts =~= texts.take(k + 1) + texts.skip(k + 1));
}

} // verus!
