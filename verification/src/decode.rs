//! Decode-and-collect: walks one executable code region instruction by
//! instruction and folds each instruction's required CPU features into a
//! feature set. The instruction decoder is an external collaborator; this
//! module only bounds the loop by the remaining buffer length and advances
//! the cursor strictly monotonically, which the decoder's contract allows.

use vstd::prelude::*;
use crate::FeatureId;
use crate::features::known;
use crate::features::feats_of;
use crate::features::FeatureSet;

verus! {

/// The encoded length of the instruction that begins at byte `pos` of the
/// region `code` loaded at `addr`. A pure function of the three arguments:
/// x86 instruction decoding has no other input.
pub uninterp spec fn instr_len_at(code: Seq<u8>, addr: u64, pos: nat) -> nat;

/// The CPU feature identifiers required by the instruction that begins at
/// byte `pos` of the region `code` loaded at `addr`; possibly empty, and
/// empty for an invalid encoding. A pure function of the three arguments.
pub uninterp spec fn instr_features_at(code: Seq<u8>, addr: u64, pos: nat) -> Seq<FeatureId>;

/// Relies on `iced_x86::Decoder::decode` (64-bit mode, default options) and
/// `iced_x86::Instruction::cpuid_features`: decodes the single instruction
/// beginning at `pos`, with instruction pointer `addr + pos` as a decoder
/// walking the whole region would have it. The decoder never aborts on
/// malformed bytes and always advances: with at least one byte left it
/// consumes between one byte and the rest of the buffer, yielding an
/// "invalid" marker with no features where the bytes decode to nothing.
#[verifier::external_body]
fn decode_at(code: &Vec<u8>, addr: u64, pos: usize) -> (r: (usize, Vec<FeatureId>))
    requires
        pos < code@.len(),
    ensures
        r.0 as nat == instr_len_at(code@, addr, pos as nat),
        1 <= r.0 && pos + r.0 <= code@.len(),
        r.1@ == instr_features_at(code@, addr, pos as nat),
{
    let ip = addr.wrapping_add(pos as u64);
    let mut decoder = iced_x86::Decoder::with_ip(64, &code[pos..], ip, iced_x86::DecoderOptions::NONE);
    let instruction = decoder.decode();
    let ids = instruction.cpuid_features().iter().map(|f| *f as u16).collect();
    (decoder.position(), ids)
}

/// The features required by the instructions of `code` from byte `pos` on.
/// The cursor advances by each instruction's length, at least one byte per
/// step; a length the decoder could not honour (out of bounds) ends the walk
/// at the end of the buffer.
pub open spec fn region_features_from(code: Seq<u8>, addr: u64, pos: nat) -> Set<FeatureId>
    decreases code.len() - pos,
{
    if pos >= code.len() {
        Set::empty()
    } else {
        let n = instr_len_at(code, addr, pos);
        let step: nat = if 1 <= n && pos + n <= code.len() {
            n
        } else {
            (code.len() - pos) as nat
        };
        feats_of(instr_features_at(code, addr, pos)).union(
            region_features_from(code, addr, pos + step),
        )
    }
}

/// The features required by one whole executable code region.
pub open spec fn region_features(code: Seq<u8>, addr: u64) -> Set<FeatureId> {
    region_features_from(code, addr, 0)
}

/// One executable section of one object: its load address and its bytes.
/// Created per object, consumed immediately by decode-and-collect, then
/// discarded — never persisted.
pub struct CodeRegion {
    /// The address the section is loaded at.
    pub base: u64,
    /// The section's raw machine code.
    pub bytes: Vec<u8>,
}

impl CodeRegion {
    /// The features this region's instructions require.
    pub open spec fn features(self) -> Set<FeatureId> {
        region_features(self.bytes@, self.base)
    }
}

/// Decodes the region until the byte buffer is exhausted and unions every
/// instruction's required features into `fs`; ids beyond the registry's
/// capacity are ignored.
pub fn collect_region(fs: &mut FeatureSet, region: &CodeRegion)
    requires
        old(fs).wf(),
    ensures
        final(fs).wf(),
        final(fs)@ == old(fs)@.union(known(region.features())),
{
    let addr = region.base;
    let code = &region.bytes;
    let mut pos: usize = 0;
    while pos < code.len()
        invariant
            fs.wf(),
            pos <= code@.len(),
            fs@.union(known(region_features_from(code@, addr, pos as nat))) == old(fs)@.union(
                known(region_features(code@, addr)),
            ),
            fs@.subset_of(old(fs)@.union(known(region_features(code@, addr)))),
        decreases code@.len() - pos,
    {
        let (n, ids) = decode_at(code, addr, pos);
        let ghost pre = fs@;
        fs.union_all(&ids);
        proof {
            let c = code@;
            let p = pos as nat;
            let here = feats_of(instr_features_at(c, addr, p));
            let rest = region_features_from(c, addr, p + n as nat);
            assert(region_features_from(c, addr, p) == here.union(rest));
            assert(known(here.union(rest)) =~= known(here).union(known(rest)));
            assert(fs@ == pre.union(known(here)));
            assert(fs@.union(known(rest)) =~= pre.union(known(region_features_from(c, addr, p))));
            assert(fs@.subset_of(old(fs)@.union(known(region_features(c, addr)))));
        }
        pos = pos + n;
    }
    proof {
        assert(region_features_from(code@, addr, pos as nat) =~= Set::<FeatureId>::empty());
        assert(known(Set::<FeatureId>::empty()) =~= Set::<FeatureId>::empty());
        assert(fs@.union(Set::empty()) =~= fs@);
        assert(fs@ =~= old(fs)@.union(known(region_features(code@, addr))));
    }
}

} // verus!
