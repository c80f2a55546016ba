//! Properties that hold across the operations of the codec.
use vstd::prelude::*;
use crate::bits::bit;
use crate::cam::{with_bit, lemma_with_bit, CONTROLLEE_ENABLE, CONTROLLEE_FORMAT, CONTROLLER_ENABLE, CONTROLLER_FORMAT};
use crate::cif::{
    CifModel, block_wf, block_data, data_from, decode_model, slot_words, popcount, popcount_from,
    lemma_data_prefix, lemma_decode_block, lemma_decode_block_sound, lemma_slot_at, decode_block,
};
use crate::cifs::{CifSetModel, set_wf, set_indicator_words, set_words, opt_data, field_of, copies_of, b2n};
use crate::command::side_wf;
use crate::error::VitaError;
use crate::header::{Tsi, Tsf, has_stream_id};
use crate::schema::{FieldKind, Layout, kind_of, CIF1_ENABLE, CIF2_ENABLE, CIF3_ENABLE, CIF7_ENABLE};
use crate::vrt::{
    VrtModel, vrt_wf, sized, with_size, packet_words, packet_bytes, preamble_words, decode_bytes,
    lemma_round_trip, lemma_size_independent, lemma_decode_packet_sound, lemma_preamble, payload_words,
};
use crate::bits::{bytes_to_words, lemma_bytes_words_round_trip};

verus! {

/// Round trip: every well-formed packet whose size field counts its words
/// reads back, from the bytes it is written as, to the same packet.
pub proof fn law_round_trip(v: VrtModel)
    requires
        vrt_wf(v),
        sized(v),
    ensures
        decode_bytes(packet_bytes(v)) == Ok::<VrtModel, VitaError>(v),
{
    lemma_round_trip(v);
}

/// Byte stability: bytes that parse into a packet whose size field covers
/// all of them are written back, by that packet, as exactly those bytes.
pub proof fn law_bytes_stable(bs: Seq<u8>)
    ensures
        decode_bytes(bs) matches Ok(v) ==> (bs.len() == 4 * v.header.packet_size ==> packet_bytes(v) == bs),
{
    if let Ok(v) = decode_bytes(bs) {
        if bs.len() == 4 * v.header.packet_size {
            lemma_decode_packet_sound(bytes_to_words(bs));
            lemma_bytes_words_round_trip(bs);
        }
    }
}

/// Updating the size twice is updating it once, and afterwards the size
/// field, in words, times four is the length of the packet's bytes.
pub proof fn law_update_size(v: VrtModel)
    requires
        vrt_wf(v),
        packet_words(v).len() <= 0xFFFF,
    ensures
        with_size(with_size(v)) == with_size(v),
        sized(with_size(v)),
        with_size(v).header.packet_size * 4 == packet_bytes(with_size(v)).len(),
{
    lemma_size_independent(v, packet_words(v).len() as u16);
    lemma_size_independent(with_size(v), packet_words(v).len() as u16);
}

/// CIF/field coherence: in a well-formed block the set indicator bits are
/// exactly the filled field slots, and reading its data block back, from
/// wherever it stands, finds exactly those fields.
pub proof fn law_cif_field_coherence(m: CifModel, cif: u8, l: Layout, copies: nat, ws: Seq<u32>, pos: int)
    requires
        block_wf(m, cif, l, copies),
        0 <= pos,
        pos + block_data(m).len() <= ws.len(),
        ws.subrange(pos, pos + block_data(m).len()) == block_data(m),
    ensures
        forall|b: u32| b < 32 ==> (#[trigger] bit(m.indicator, b) <==> m.slots[b as int] is Some),
        decode_model(m.indicator, cif, l, copies, ws, pos) == m,
{
    lemma_decode_block(m, cif, l, copies, ws, pos);
}

/// Bit ordering: the field of bit `b` sits in the data block right after
/// the fields of every higher set bit, so before the field of any lower bit
/// `c`.
pub proof fn law_bit_ordering(m: CifModel, cif: u8, l: Layout, copies: nat, b: int, c: int)
    requires
        block_wf(m, cif, l, copies),
        0 <= c < b < 32,
    ensures
        block_data(m).subrange(data_from(m.slots, b + 1).len() as int, data_from(m.slots, b).len() as int)
            == slot_words(m.slots[b]),
        block_data(m).subrange(data_from(m.slots, c + 1).len() as int, data_from(m.slots, c).len() as int)
            == slot_words(m.slots[c]),
        data_from(m.slots, b).len() <= data_from(m.slots, c + 1).len(),
{
    lemma_slot_at(m, b);
    lemma_slot_at(m, c);
    lemma_data_prefix(m.slots, c + 1, b);
}

/// Meta-bit coherence: CIF1, CIF2, CIF3 and CIF7 are present, in the value
/// and in the indicator words on the wire, exactly when CIF0's meta-bit for
/// them is set.
pub proof fn law_meta_bits(m: CifSetModel)
    requires
        set_wf(m),
    ensures
        m.cif1 is Some <==> bit(m.cif0.indicator, CIF1_ENABLE),
        m.cif2 is Some <==> bit(m.cif0.indicator, CIF2_ENABLE),
        m.cif3 is Some <==> bit(m.cif0.indicator, CIF3_ENABLE),
        m.cif7 is Some <==> bit(m.cif0.indicator, CIF7_ENABLE),
        set_indicator_words(m).len() == 1 + b2n(bit(m.cif0.indicator, CIF1_ENABLE)) + b2n(
            bit(m.cif0.indicator, CIF2_ENABLE),
        ) + b2n(bit(m.cif0.indicator, CIF3_ENABLE)) + b2n(bit(m.cif0.indicator, CIF7_ENABLE)),
{
}

/// Id/UUID exclusion: from a controllee or controller side that agrees
/// with the CAM, setting the 32-bit identifier (allowed only while no UUID
/// is present) or the UUID (allowed only while no 32-bit identifier is
/// present) leaves a side that still agrees with the CAM: at most one of the
/// two, the enable bit set exactly when one is present, the format bit
/// naming which.
pub proof fn law_id_uuid_exclusion(
    cam: u32,
    enable: u32,
    format: u32,
    id: Option<u32>,
    uuid: Option<u128>,
    new_id: Option<u32>,
    new_uuid: Option<u128>,
)
    requires
        (enable == CONTROLLEE_ENABLE && format == CONTROLLEE_FORMAT) || (enable == CONTROLLER_ENABLE
            && format == CONTROLLER_FORMAT),
        side_wf(cam, enable, format, id, uuid),
    ensures
        uuid is None ==> side_wf(with_bit(with_bit(cam, enable, new_id is Some), format, false), enable, format, new_id, None),
        id is None ==> side_wf(
            with_bit(with_bit(cam, enable, new_uuid is Some), format, new_uuid is Some),
            enable,
            format,
            None,
            new_uuid,
        ),
{
    let c1 = with_bit(cam, enable, new_id is Some);
    lemma_with_bit(cam, enable, new_id is Some, enable);
    lemma_with_bit(c1, format, false, enable);
    lemma_with_bit(c1, format, false, format);
    let c2 = with_bit(cam, enable, new_uuid is Some);
    lemma_with_bit(cam, enable, new_uuid is Some, enable);
    lemma_with_bit(c2, format, new_uuid is Some, enable);
    lemma_with_bit(c2, format, new_uuid is Some, format);
}

/// Timestamp coherence: in a well-formed packet the integer timestamp is
/// present exactly when TSI is not `Null`, the fractional one exactly when
/// TSF is not `Null`, and the words before the payload count them so.
pub proof fn law_timestamp_coherence(v: VrtModel)
    requires
        vrt_wf(v),
    ensures
        v.integer_timestamp is Some <==> v.header.tsi != Tsi::Null,
        v.fractional_timestamp is Some <==> v.header.tsf != Tsf::Null,
        preamble_words(v).len() == 1 + b2n(has_stream_id(v.header.packet_type)) + 2 * b2n(v.header.class_id_included)
            + b2n(v.header.tsi != Tsi::Null) + 2 * b2n(v.header.tsf != Tsf::Null),
{
}

proof fn lemma_popcount_current(w: u32, k: int)
    requires
        0 <= k <= 31,
    ensures
        popcount_from(w, k) >= b2n(bit(w, 31)),
    decreases 31 - k,
{
    if k < 31 {
        lemma_popcount_current(w, k + 1);
    }
}

/// CIF7 replica count: with CIF7 present, every set data field of a value
/// section holds one primary value if CIF7's current-value bit is set, and
/// popcount(CIF7) minus that many attribute replicas, each as wide as the
/// primary.
pub proof fn law_cif7_replicas(m: CifSetModel, cif: u8, b: u32, width: u32)
    requires
        set_wf(m),
        m.layout == Layout::Values,
        cif <= 3,
        b < 32,
        m.cif7 is Some,
        kind_of(cif, b) == FieldKind::Data(width),
        field_of(m, cif, b) is Some,
    ensures
        popcount(m.cif7->0) >= b2n(bit(m.cif7->0, 31)),
        field_of(m, cif, b)->0.len() == width * (b2n(bit(m.cif7->0, 31)) + (popcount(m.cif7->0) - b2n(
            bit(m.cif7->0, 31),
        ))),
{
    lemma_popcount_current(m.cif7->0, 0);
    let c = copies_of(m.cif7);
    if cif == 0 {
        assert(m.cif0.slots[b as int] is Some);
    } else if cif == 1 {
        assert(m.cif1->0.slots[b as int] is Some);
    } else if cif == 2 {
        assert(m.cif2->0.slots[b as int] is Some);
    } else {
        assert(m.cif3->0.slots[b as int] is Some);
    }
}

/// Block round trip: the data block of a well-formed block, wherever it
/// stands in a word sequence, reads back as that block and is consumed
/// exactly; and whatever a block parse reads is written back as exactly the
/// words it consumed.
pub proof fn law_block_round_trip(m: CifModel, cif: u8, l: Layout, copies: nat, ws: Seq<u32>, pos: int)
    requires
        block_wf(m, cif, l, copies),
        0 <= pos,
        pos + block_data(m).len() <= ws.len(),
        ws.subrange(pos, pos + block_data(m).len()) == block_data(m),
    ensures
        decode_block(m.indicator, cif, l, copies, ws, pos) == Ok::<(CifModel, int), VitaError>((m, pos + block_data(m).len())),
        decode_block(m.indicator, cif, l, copies, ws, pos) matches Ok((m2, e)) ==> block_data(m2) == ws.subrange(pos, e),
{
    lemma_decode_block(m, cif, l, copies, ws, pos);
    lemma_decode_block_sound(m.indicator, cif, l, copies, ws, pos);
}

proof fn lemma_no_data(m: CifModel, k: int)
    requires
        m.slots.len() == 32,
        forall|b: int| 0 <= b < 32 && (#[trigger] m.slots[b]) is Some ==> m.slots[b]->0.len() == 0,
    ensures
        data_from(m.slots, k).len() == 0,
    decreases 32 - k,
{
    if 0 <= k < 32 {
        lemma_no_data(m, k + 1);
    }
}

proof fn lemma_indicator_block_empty(m: CifModel, cif: u8, copies: nat)
    requires
        block_wf(m, cif, Layout::Indicators, copies),
    ensures
        block_data(m).len() == 0,
{
    assert forall|b: int| 0 <= b < 32 && (#[trigger] m.slots[b]) is Some implies m.slots[b]->0.len() == 0 by {
        assert(m.slots[(b as u32) as int] is Some);
    }
    lemma_no_data(m, 0);
}

/// Section size: a section is its CIF0 word, one word for each of CIF1,
/// CIF2, CIF3 and CIF7 whose meta-bit CIF0 sets, and the data blocks of
/// CIF0..CIF3; a cancellation section carries no data at all.
pub proof fn law_section_size(m: CifSetModel)
    requires
        set_wf(m),
    ensures
        set_words(m).len() == 1 + b2n(bit(m.cif0.indicator, CIF1_ENABLE)) + b2n(bit(m.cif0.indicator, CIF2_ENABLE))
            + b2n(bit(m.cif0.indicator, CIF3_ENABLE)) + b2n(bit(m.cif0.indicator, CIF7_ENABLE)) + block_data(m.cif0).len()
            + opt_data(m.cif1).len() + opt_data(m.cif2).len() + opt_data(m.cif3).len(),
        m.layout == Layout::Indicators ==> set_words(m).len() == set_indicator_words(m).len(),
{
    if m.layout == Layout::Indicators {
        let c = copies_of(m.cif7);
        lemma_indicator_block_empty(m.cif0, 0, c);
        if let Some(x) = m.cif1 {
            lemma_indicator_block_empty(x, 1, c);
        }
        if let Some(x) = m.cif2 {
            lemma_indicator_block_empty(x, 2, c);
        }
        if let Some(x) = m.cif3 {
            lemma_indicator_block_empty(x, 3, c);
        }
    }
}

/// Packet size: a well-formed packet is one header word, one for the stream
/// id, two for the class id, one for the integer and two for the fractional
/// timestamp, one for the trailer (each where present), and its payload.
pub proof fn law_packet_size(v: VrtModel)
    requires
        vrt_wf(v),
    ensures
        packet_words(v).len() == 1 + b2n(has_stream_id(v.header.packet_type)) + 2 * b2n(v.header.class_id_included)
            + b2n(v.header.tsi != Tsi::Null) + 2 * b2n(v.header.tsf != Tsf::Null) + b2n(v.header.spec_trailer_included())
            + payload_words(v.payload).len(),
{
    lemma_preamble(v);
}

} // verus!
