use vstd::prelude::*;
use vstd::string::*;

use crate::fields::is_mov;
use crate::instruction::{decode_pair, decode_pair_spec};

verus! {

/// Why decoding stopped.
#[derive(Debug, Clone, Copy, PartialEq, Eq, Structural)]
pub enum DecodeError {
    /// The first byte of the instruction at `offset` does not carry the
    /// `mov` opcode.
    UnsupportedOpcode { offset: usize, byte: u8 },
}

/// The text produced from a byte stream: the header line, one line per
/// decoded instruction in input order, and the error that stopped decoding,
/// if any.
#[derive(Debug)]
pub struct Listing {
    pub lines: Vec<String>,
    pub error: Option<DecodeError>,
}

/// The line that opens every listing: operands are sixteen-bit by default.
pub open spec fn header_spec() -> Seq<char> {
    seq!['b', 'i', 't', 's', ' ', '1', '6']
}

/// The contents of a sequence of lines.
pub open spec fn lines_view(lines: Seq<String>) -> Seq<Seq<char>> {
    lines.map_values(|s: String| s@)
}

/// The listing of the first `k` instruction pairs of `bytes`: decoding stops
/// at the first pair whose opcode is not recognized, and the lines decoded
/// before it are kept.
pub open spec fn listing_upto(bytes: Seq<u8>, k: nat) -> (Seq<Seq<char>>, Option<DecodeError>)
    decreases k,
{
    if k == 0 {
        (seq![header_spec()], None)
    } else {
        let prev = listing_upto(bytes, (k - 1) as nat);
        let at = 2 * (k - 1);
        if prev.1 is Some {
            prev
        } else {
            match decode_pair_spec(bytes[at], bytes[at + 1]) {
                Some(inst) => (prev.0.push(inst.spec_text()), None),
                None => (
                    prev.0,
                    Some(DecodeError::UnsupportedOpcode { offset: at as usize, byte: bytes[at] }),
                ),
            }
        }
    }
}

/// The listing of a whole byte stream. A trailing byte that does not fill a
/// pair is not decoded.
pub open spec fn disassemble_spec(bytes: Seq<u8>) -> (Seq<Seq<char>>, Option<DecodeError>) {
    listing_upto(bytes, bytes.len() / 2)
}

/// The text of the instruction held by pair `i` of `bytes`.
pub open spec fn pair_text(bytes: Seq<u8>, i: int) -> Seq<char> {
    decode_pair_spec(bytes[2 * i], bytes[2 * i + 1])->0.spec_text()
}

proof fn lemma_error_persists(bytes: Seq<u8>, k: nat, m: nat)
    requires
        k <= m,
        listing_upto(bytes, k).1 is Some,
    ensures
        listing_upto(bytes, m) == listing_upto(bytes, k),
    decreases m - k,
{
    if k < m {
        lemma_error_persists(bytes, k, (m - 1) as nat);
    }
}

proof fn lemma_prefix_determines(a: Seq<u8>, b: Seq<u8>, k: nat)
    requires
        2 * k <= a.len(),
        2 * k <= b.len(),
        forall|i: int| 0 <= i < 2 * k ==> a[i] == b[i],
    ensures
        listing_upto(a, k) == listing_upto(b, k),
    decreases k,
{
    if k > 0 {
        lemma_prefix_determines(a, b, (k - 1) as nat);
        assert(a[2 * (k - 1)] == b[2 * (k - 1)]);
        assert(a[2 * (k - 1) + 1] == b[2 * (k - 1) + 1]);
    }
}

proof fn lemma_lines_without_error(bytes: Seq<u8>, k: nat)
    requires
        2 * k <= bytes.len(),
        listing_upto(bytes, k).1 is None,
    ensures
        listing_upto(bytes, k).0.len() == k + 1,
        listing_upto(bytes, k).0[0] == header_spec(),
        forall|i: int|
            0 <= i < k ==> is_mov(#[trigger] bytes[2 * i]) && listing_upto(bytes, k).0[i + 1]
                == pair_text(bytes, i),
    decreases k,
{
    if k > 0 {
        lemma_lines_without_error(bytes, (k - 1) as nat);
        let prev = listing_upto(bytes, (k - 1) as nat);
        assert(prev.1 is None);
        assert forall|i: int| 0 <= i < k implies is_mov(#[trigger] bytes[2 * i]) && listing_upto(
            bytes,
            k,
        ).0[i + 1] == pair_text(bytes, i) by {
            if i < k - 1 {
                assert(is_mov(bytes[2 * i]));
            }
        }
    }
}

proof fn lemma_all_recognized(bytes: Seq<u8>, k: nat)
    requires
        2 * k <= bytes.len(),
        forall|i: int| 0 <= i < k ==> is_mov(#[trigger] bytes[2 * i]),
    ensures
        listing_upto(bytes, k).1 is None,
    decreases k,
{
    if k > 0 {
        lemma_all_recognized(bytes, (k - 1) as nat);
        assert(is_mov(bytes[2 * (k - 1)]));
    }
}

proof fn lemma_error_shape(bytes: Seq<u8>, k: nat)
    requires
        2 * k <= bytes.len(),
        bytes.len() <= usize::MAX,
        listing_upto(bytes, k).1 is Some,
    ensures
        ({
            let e = listing_upto(bytes, k).1->0;
            let offset = e->UnsupportedOpcode_offset as int;
            &&& offset % 2 == 0
            &&& offset / 2 < k
            &&& e->UnsupportedOpcode_byte == bytes[offset]
            &&& !is_mov(bytes[offset])
            &&& listing_upto(bytes, (offset / 2) as nat) == (
                listing_upto(bytes, k).0,
                None::<DecodeError>,
            )
        }),
    decreases k,
{
    let prev = listing_upto(bytes, (k - 1) as nat);
    if prev.1 is Some {
        lemma_error_shape(bytes, (k - 1) as nat);
    } else {
        assert((2 * (k - 1)) as usize as int == 2 * (k - 1));
    }
}

/// A byte left over after the last full pair adds no line and no error.
pub proof fn lemma_trailing_byte_ignored(bytes: Seq<u8>, extra: u8)
    requires
        bytes.len() % 2 == 0,
    ensures
        disassemble_spec(bytes.push(extra)) == disassemble_spec(bytes),
{
    lemma_prefix_determines(bytes.push(extra), bytes, bytes.len() / 2);
}

/// Where every pair carries the `mov` opcode, the listing has no error and
/// holds the header followed by exactly one line per pair, in input order.
pub proof fn lemma_one_line_per_pair(bytes: Seq<u8>)
    requires
        forall|i: int| 0 <= i < bytes.len() / 2 ==> is_mov(#[trigger] bytes[2 * i]),
    ensures
        disassemble_spec(bytes).1 is None,
        disassemble_spec(bytes).0.len() == bytes.len() / 2 + 1,
        disassemble_spec(bytes).0[0] == header_spec(),
        forall|i: int|
            0 <= i < bytes.len() / 2 ==> #[trigger] disassemble_spec(bytes).0[i + 1] == pair_text(
                bytes,
                i,
            ),
{
    lemma_all_recognized(bytes, bytes.len() / 2);
    lemma_lines_without_error(bytes, bytes.len() / 2);
}

/// An unrecognized opcode stops decoding: the error names the first pair
/// whose first byte is not `mov`, and the lines are exactly those of the
/// pairs before it, as if the stream had ended there.
pub proof fn lemma_unsupported_opcode_halts(bytes: Seq<u8>)
    requires
        bytes.len() <= usize::MAX,
        disassemble_spec(bytes).1 is Some,
    ensures
        ({
            let e = disassemble_spec(bytes).1->0;
            let offset = e->UnsupportedOpcode_offset as int;
            &&& offset % 2 == 0
            &&& offset + 1 < bytes.len()
            &&& e->UnsupportedOpcode_byte == bytes[offset]
            &&& !is_mov(bytes[offset])
            &&& forall|i: int| 0 <= i < offset / 2 ==> is_mov(#[trigger] bytes[2 * i])
            &&& disassemble_spec(bytes).0.len() == offset / 2 + 1
            &&& disassemble_spec(bytes.take(offset)) == (
                disassemble_spec(bytes).0,
                None::<DecodeError>,
            )
        }),
{
    let n = bytes.len() / 2;
    lemma_error_shape(bytes, n);
    let offset = disassemble_spec(bytes).1->0->UnsupportedOpcode_offset as int;
    let j = (offset / 2) as nat;
    lemma_lines_without_error(bytes, j);
    let prefix = bytes.take(offset);
    assert(prefix.len() / 2 == j);
    lemma_prefix_determines(prefix, bytes, j);
}

/// Decodes a byte stream, two bytes per instruction, into its listing.
/// Decoding stops at the first instruction whose opcode is not recognized;
/// the lines decoded before it are kept and the error says where it stood.
pub fn disassemble(bytes: &Vec<u8>) -> (r: Listing)
    ensures
        (lines_view(r.lines@), r.error) == disassemble_spec(bytes@),
{
    let mut lines: Vec<String> = Vec::new();
    proof {
        reveal_strlit("bits 16");
    }
    let header = String::from_str("bits 16");
    assert(header@ =~= header_spec());
    lines.push(header);
    assert(lines_view(lines@) =~= seq![header_spec()]);
    let len: usize = bytes.len();
    let n: usize = len / 2;
    let mut k: usize = 0;
    while k < n
        invariant
            k <= n,
            len == bytes@.len(),
            n == len / 2,
            listing_upto(bytes@, k as nat) == (lines_view(lines@), None::<DecodeError>),
        decreases n - k,
    {
        let at: usize = k + k;
        let first = bytes[at];
        let second = bytes[at + 1];
        match decode_pair(first, second) {
            Some(inst) => {
                let text = inst.to_text();
                proof {
                    assert(lines_view(lines@.push(text)) =~= lines_view(lines@).push(text@));
                }
                lines.push(text);
            },
            None => {
                let error = DecodeError::UnsupportedOpcode { offset: at, byte: first };
                proof {
                    lemma_error_persists(bytes@, (k + 1) as nat, n as nat);
                }
                return Listing { lines, error: Some(error) };
            },
        }
        k = k + 1;
    }
    Listing { lines, error: None }
}

} // verus!
