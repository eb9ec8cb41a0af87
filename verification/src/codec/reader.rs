//! Reading fields from a buffer, never beyond its end.
use crate::address::Address;
use crate::codec::fields::{
    address_of_its_bytes, parse_address, parse_block, parse_bool, parse_byte, parse_i64,
    parse_list, parse_text, parse_texts, parse_u32, parse_u64, Parsed,
};
use vstd::bytes::{u32_from_le_bytes, u64_from_le_bytes};
use vstd::prelude::*;
use vstd::slice::slice_subrange;
use vstd::string::StringSliceAdditionalSpecFns;
use vstd::utf8::{encode_utf8_decode_utf8, valid_utf8};

verus! {

/// What a reader that works at a position of a buffer returns, held
/// against what parsing the bytes from that position on gives.
pub open spec fn reads<V>(r: Option<(V, usize)>, parsed: Option<Parsed<V>>, all: Seq<u8>) -> bool {
    match r {
        Some((value, next)) => next <= all.len() && parsed == Some(
            Parsed { value, rest: all.skip(next as int) },
        ),
        None => parsed is None,
    }
}

/// Calls `std::str::from_utf8`. As its documentation says, it succeeds
/// exactly on well-formed UTF-8, and the text it returns is the given
/// bytes read as UTF-8.
#[verifier::external_body]
fn utf8_text(bytes: &[u8]) -> (r: Option<&str>)
    ensures
        r is Some <==> valid_utf8(bytes@),
        r is Some ==> r->0.spec_bytes() == bytes@,
{
    match std::str::from_utf8(bytes) {
        Ok(text) => Some(text),
        Err(_) => None,
    }
}

/// What a reader of a text returns, held against what parsing gives.
pub open spec fn reads_text(
    r: Option<(String, usize)>,
    parsed: Option<Parsed<Seq<char>>>,
    all: Seq<u8>,
) -> bool {
    match r {
        Some((text, next)) => next <= all.len() && parsed == Some(
            Parsed { value: text@, rest: all.skip(next as int) },
        ),
        None => parsed is None,
    }
}

/// What a reader of a list of texts returns, held against what parsing
/// gives.
pub open spec fn reads_list(
    r: Option<(Vec<String>, usize)>,
    parsed: Option<Parsed<Seq<Seq<char>>>>,
    all: Seq<u8>,
) -> bool {
    match r {
        Some((texts, next)) => next <= all.len() && parsed == Some(
            Parsed { value: texts.deep_view(), rest: all.skip(next as int) },
        ),
        None => parsed is None,
    }
}

/// What a reader of a block returns, held against what parsing gives.
pub open spec fn reads_block(
    r: Option<(&[u8], usize)>,
    parsed: Option<Parsed<Seq<u8>>>,
    all: Seq<u8>,
) -> bool {
    match r {
        Some((block, next)) => next <= all.len() && parsed == Some(
            Parsed { value: block@, rest: all.skip(next as int) },
        ),
        None => parsed is None,
    }
}

/// Takes `n` bytes at `pos`.
pub(crate) fn read_block<'a>(bytes: &'a [u8], pos: usize, n: usize) -> (r: Option<
    (&'a [u8], usize),
>)
    requires
        pos <= bytes@.len(),
    ensures
        reads_block(r, parse_block(bytes@.skip(pos as int), n as nat), bytes@),
{
    if bytes.len() - pos < n {
        None
    } else {
        let block = slice_subrange(bytes, pos, pos + n);
        assert(bytes@.skip(pos as int).take(n as int) =~= block@);
        assert(bytes@.skip(pos as int).skip(n as int) =~= bytes@.skip(pos + n));
        Some((block, pos + n))
    }
}

/// Reads one byte at `pos`.
pub(crate) fn read_byte(bytes: &[u8], pos: usize) -> (r: Option<(u8, usize)>)
    requires
        pos <= bytes@.len(),
    ensures
        reads(r, parse_byte(bytes@.skip(pos as int)), bytes@),
{
    if pos < bytes.len() {
        assert(bytes@.skip(pos as int).skip(1) =~= bytes@.skip(pos + 1));
        Some((bytes[pos], pos + 1))
    } else {
        None
    }
}

/// Reads a flag at `pos`.
pub(crate) fn read_bool(bytes: &[u8], pos: usize) -> (r: Option<(bool, usize)>)
    requires
        pos <= bytes@.len(),
    ensures
        reads(r, parse_bool(bytes@.skip(pos as int)), bytes@),
{
    if pos < bytes.len() && bytes[pos] <= 1 {
        assert(bytes@.skip(pos as int).skip(1) =~= bytes@.skip(pos + 1));
        Some((bytes[pos] == 1, pos + 1))
    } else {
        None
    }
}

/// Reads an unsigned 32-bit number at `pos`.
pub(crate) fn read_u32(bytes: &[u8], pos: usize) -> (r: Option<(u32, usize)>)
    requires
        pos <= bytes@.len(),
    ensures
        reads(r, parse_u32(bytes@.skip(pos as int)), bytes@),
{
    match read_block(bytes, pos, 4) {
        Some((block, next)) => Some((u32_from_le_bytes(block), next)),
        None => None,
    }
}

/// Reads an unsigned 64-bit number at `pos`.
pub(crate) fn read_u64(bytes: &[u8], pos: usize) -> (r: Option<(u64, usize)>)
    requires
        pos <= bytes@.len(),
    ensures
        reads(r, parse_u64(bytes@.skip(pos as int)), bytes@),
{
    match read_block(bytes, pos, 8) {
        Some((block, next)) => Some((u64_from_le_bytes(block), next)),
        None => None,
    }
}

/// Reads a signed 64-bit number at `pos`.
pub(crate) fn read_i64(bytes: &[u8], pos: usize) -> (r: Option<(i64, usize)>)
    requires
        pos <= bytes@.len(),
    ensures
        reads(r, parse_i64(bytes@.skip(pos as int)), bytes@),
{
    match read_u64(bytes, pos) {
        Some((bits, next)) => {
            let x: i64 = if bits <= i64::MAX as u64 {
                bits as i64
            } else {
                -((u64::MAX - bits) as i64) - 1
            };
            Some((x, next))
        },
        None => None,
    }
}

/// Reads an identity at `pos`.
pub(crate) fn read_address(bytes: &[u8], pos: usize) -> (r: Option<(Address, usize)>)
    requires
        pos <= bytes@.len(),
    ensures
        reads(r, parse_address(bytes@.skip(pos as int)), bytes@),
{
    match read_block(bytes, pos, 32) {
        Some((block, next)) => {
            let mut raw = [0u8;32];
            let mut i: usize = 0;
            while i < 32
                invariant
                    i <= 32,
                    block@.len() == 32,
                    forall|j: int| 0 <= j < i ==> raw@[j] == block@[j],
                decreases 32 - i,
            {
                raw[i] = block[i];
                i += 1;
            }
            let a = Address { bytes: raw };
            proof {
                assert(a@ =~= block@);
                address_of_its_bytes(a);
            }
            Some((a, next))
        },
        None => None,
    }
}

/// Reads a text at `pos`: its length, then that many bytes of UTF-8.
pub(crate) fn read_text(bytes: &[u8], pos: usize) -> (r: Option<(String, usize)>)
    requires
        pos <= bytes@.len(),
    ensures
        reads_text(r, parse_text(bytes@.skip(pos as int)), bytes@),
{
    let (n, body) = read_u32(bytes, pos)?;
    let (block, next) = read_block(bytes, body, n as usize)?;
    match utf8_text(block) {
        Some(text) => {
            proof {
                encode_utf8_decode_utf8(text@);
            }
            Some((text.to_owned(), next))
        },
        None => None,
    }
}

/// What parsing gives once `front` has been read and `tail` is what
/// parsing the remainder gives.
pub open spec fn after_front(
    front: Seq<Seq<char>>,
    tail: Option<Parsed<Seq<Seq<char>>>>,
) -> Option<Parsed<Seq<Seq<char>>>> {
    match tail {
        Some(p) => Some(Parsed { value: front + p.value, rest: p.rest }),
        None => None,
    }
}

/// Reads a list of texts at `pos`: its count, then the texts.
pub(crate) fn read_list(bytes: &[u8], pos: usize) -> (r: Option<(Vec<String>, usize)>)
    requires
        pos <= bytes@.len(),
    ensures
        reads_list(r, parse_list(bytes@.skip(pos as int)), bytes@),
{
    let (n, start) = read_u32(bytes, pos)?;
    let ghost goal = parse_texts(bytes@.skip(start as int), n as nat);
    let mut texts: Vec<String> = Vec::new();
    let mut at: usize = start;
    let mut i: u32 = 0;
    proof {
        let tail = parse_texts(bytes@.skip(at as int), n as nat);
        if tail is Some {
            assert(texts.deep_view() + tail->0.value =~= tail->0.value);
        }
    }
    while i < n
        invariant
            i <= n,
            at <= bytes@.len(),
            pos <= bytes@.len(),
            parse_list(bytes@.skip(pos as int)) == goal,
            goal == after_front(
                texts.deep_view(),
                parse_texts(bytes@.skip(at as int), (n - i) as nat),
            ),
        decreases n - i,
    {
        let ghost before = texts.deep_view();
        let ghost here = bytes@.skip(at as int);
        match read_text(bytes, at) {
            Some((text, next)) => {
                texts.push(text);
                proof {
                    let more = parse_texts(bytes@.skip(next as int), (n - i - 1) as nat);
                    assert(texts.deep_view() =~= before.push(text@));
                    if more is Some {
                        assert(before + (seq![text@] + more->0.value) =~= texts.deep_view()
                            + more->0.value);
                    }
                }
                at = next;
            },
            None => {
                return None;
            },
        }
        i += 1;
    }
    assert(texts.deep_view() + Seq::<Seq<char>>::empty() =~= texts.deep_view());
    Some((texts, at))
}

/// Whether two runs of bytes are the same.
pub(crate) fn same_bytes(a: &[u8], b: &[u8]) -> (same: bool)
    ensures
        same == (a@ == b@),
{
    if a.len() != b.len() {
        return false;
    }
    let mut i: usize = 0;
    while i < a.len()
        invariant
            i <= a.len(),
            a.len() == b.len(),
            forall|j: int| 0 <= j < i ==> a@[j] == b@[j],
        decreases a.len() - i,
    {
        if a[i] != b[i] {
            return false;
        }
        i += 1;
    }
    assert(a@ =~= b@);
    true
}

} // verus!
