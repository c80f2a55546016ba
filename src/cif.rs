//! One indicator word together with the data fields it announces, and the
//! container codec that walks the set bits from bit 31 down to bit 0.
use vstd::prelude::*;
use crate::bits::{bit, lemma_set_bit, lemma_clear_bit, lemma_zero_bits};
use crate::error::VitaError;
use crate::schema::{FieldKind, Layout, kind_of, field_kind, allowed, slot_len, slot_ok, var_value_len, var_copies_len};

verus! {

/// The content of a block: its indicator word and, for each bit, the words
/// of its data field (primary value followed by CIF7 replicas).
pub ghost struct CifModel {
    pub indicator: u32,
    pub slots: Seq<Option<Seq<u32>>>,
}

/// An indicator word and its data fields, one slot per bit.
#[derive(Clone, Debug, PartialEq, Eq)]
pub struct CifBlock {
    indicator: u32,
    slots: Vec<Option<Vec<u32>>>,
}

pub open spec fn opt_view(o: Option<Vec<u32>>) -> Option<Seq<u32>> {
    match o {
        Some(v) => Some(v@),
        None => None,
    }
}

pub open spec fn slot_words(o: Option<Seq<u32>>) -> Seq<u32> {
    match o {
        Some(s) => s,
        None => seq![],
    }
}

/// The data words of bits 31 down to `k`, in wire order.
pub open spec fn data_from(slots: Seq<Option<Seq<u32>>>, k: int) -> Seq<u32>
    decreases 32 - k,
{
    if k >= 32 || k < 0 {
        seq![]
    } else {
        data_from(slots, k + 1) + slot_words(slots[k])
    }
}

/// The data block of a block: every set field, highest bit first.
pub open spec fn block_data(m: CifModel) -> Seq<u32> {
    data_from(m.slots, 0)
}

/// Words that bit `b` of `ind` calls for when its data starts at `p` in
/// `ws`; `None` where a variable-length field cannot be measured there, or
/// measures more than 65535 words.
pub open spec fn set_len_at(ind: u32, cif: u8, l: Layout, copies: nat, ws: Seq<u32>, p: int, b: u32) -> Option<nat> {
    if !bit(ind, b) {
        Some(0)
    } else {
        field_len_at(cif, l, copies, ws, p, b)
    }
}

/// Words of the field of bit `b` when its data starts at `p` in `ws`.
pub open spec fn field_len_at(cif: u8, l: Layout, copies: nat, ws: Seq<u32>, p: int, b: u32) -> Option<nat> {
    if kind_of(cif, b) == FieldKind::Variable && l == Layout::Values {
        match var_copies_len(b, ws, p, copies) {
            Some(t) => if t <= 0xFFFF {
                Some(t)
            } else {
                None
            },
            None => None,
        }
    } else {
        Some(slot_len(kind_of(cif, b), l, copies))
    }
}

/// Words that the bits 31 down to `k` of `ind` call for, their data
/// starting at `pos` in `ws`.
pub open spec fn off_from(ind: u32, cif: u8, l: Layout, copies: nat, ws: Seq<u32>, pos: int, k: int) -> Option<nat>
    decreases 32 - k,
{
    if k >= 32 || k < 0 {
        Some(0)
    } else {
        match off_from(ind, cif, l, copies, ws, pos, k + 1) {
            None => None,
            Some(o) => match set_len_at(ind, cif, l, copies, ws, pos + o, k as u32) {
                None => None,
                Some(n) => Some(o + n),
            },
        }
    }
}

/// `off_from` as a number (zero where it is `None`).
pub open spec fn off(ind: u32, cif: u8, l: Layout, copies: nat, ws: Seq<u32>, pos: int, k: int) -> int {
    match off_from(ind, cif, l, copies, ws, pos, k) {
        Some(o) => o as int,
        None => 0,
    }
}

/// The highest bit among 31 down to `k` that is set in `ind` but may not be.
pub open spec fn bad_from(ind: u32, cif: u8, l: Layout, k: int) -> Option<u32>
    decreases 32 - k,
{
    if k >= 32 || k < 0 {
        None
    } else {
        match bad_from(ind, cif, l, k + 1) {
            Some(b) => Some(b),
            None => if bit(ind, k as u32) && !allowed(kind_of(cif, k as u32), l) {
                Some(k as u32)
            } else {
                None
            },
        }
    }
}

/// The error reported for a set bit that may not be set.
pub open spec fn bad_bit_error(cif: u8, b: u32) -> VitaError {
    match kind_of(cif, b) {
        FieldKind::Unimplemented => VitaError::UnimplementedField { cif: cif, bit: b as u8 },
        _ => VitaError::ReservedField,
    }
}

/// The block that indicator `ind` and the words from `pos` on describe.
pub open spec fn decode_model(
    ind: u32,
    cif: u8,
    l: Layout,
    copies: nat,
    ws: Seq<u32>,
    pos: int,
) -> CifModel {
    CifModel {
        indicator: ind,
        slots: Seq::new(
            32,
            |b: int|
                if bit(ind, b as u32) {
                    Some(
                        ws.subrange(
                            pos + off(ind, cif, l, copies, ws, pos, b + 1),
                            pos + off(ind, cif, l, copies, ws, pos, b),
                        ),
                    )
                } else {
                    None
                },
        ),
    }
}

/// What parsing the data block of `ind` at `pos` yields: the block and the
/// position after it, or the error.
#[verifier::opaque]
pub open spec fn decode_block(
    ind: u32,
    cif: u8,
    l: Layout,
    copies: nat,
    ws: Seq<u32>,
    pos: int,
) -> Result<(CifModel, int), VitaError> {
    match bad_from(ind, cif, l, 0) {
        Some(b) => Err(bad_bit_error(cif, b)),
        None => match off_from(ind, cif, l, copies, ws, pos, 0) {
            None => Err(VitaError::Framing),
            Some(t) => if pos + t > ws.len() {
                Err(VitaError::Framing)
            } else {
                Ok((decode_model(ind, cif, l, copies, ws, pos), pos + t))
            },
        },
    }
}

/// A block is well formed when its set bits are exactly its filled slots,
/// each filled slot is a bit that may be set, and each holds the words that
/// its bit calls for.
pub open spec fn block_wf(m: CifModel, cif: u8, l: Layout, copies: nat) -> bool {
    &&& m.slots.len() == 32
    &&& forall|b: u32| b < 32 ==> (#[trigger] bit(m.indicator, b) <==> m.slots[b as int] is Some)
    &&& forall|b: u32|
        b < 32 && (#[trigger] m.slots[b as int]) is Some ==> allowed(kind_of(cif, b), l)
            && slot_ok(kind_of(cif, b), l, copies, b, m.slots[b as int]->0)
}

/// The model of a block with no bit set.
pub open spec fn empty_model() -> CifModel {
    CifModel { indicator: 0, slots: Seq::new(32, |b: int| None) }
}

pub proof fn lemma_bad_from_none(m: CifModel, cif: u8, l: Layout, copies: nat, k: int)
    requires
        block_wf(m, cif, l, copies),
        0 <= k <= 32,
    ensures
        bad_from(m.indicator, cif, l, k) is None,
    decreases 32 - k,
{
    if k < 32 {
        lemma_bad_from_none(m, cif, l, copies, k + 1);
        assert(bit(m.indicator, k as u32) <==> m.slots[(k as u32) as int] is Some);
    }
}

/// Where the words of bits 31 down to `k` can be measured, so can those of
/// bits 31 down to any `j` above `k`, and they are no more.
pub proof fn lemma_off_mono(ind: u32, cif: u8, l: Layout, copies: nat, ws: Seq<u32>, pos: int, k: int, j: int)
    requires
        0 <= k <= j <= 32,
        off_from(ind, cif, l, copies, ws, pos, k) is Some,
    ensures
        off_from(ind, cif, l, copies, ws, pos, j) is Some,
        off_from(ind, cif, l, copies, ws, pos, j)->0 <= off_from(ind, cif, l, copies, ws, pos, k)->0,
    decreases j - k,
{
    if k < j {
        lemma_off_mono(ind, cif, l, copies, ws, pos, k + 1, j);
    }
}

/// The data of the bits 31 down to `k` is a prefix of the data of the bits
/// 31 down to any `j` below `k`.
pub proof fn lemma_data_prefix(slots: Seq<Option<Seq<u32>>>, j: int, k: int)
    requires
        0 <= j <= k <= 32,
    ensures
        data_from(slots, k) == data_from(slots, j).subrange(0, data_from(slots, k).len() as int),
        data_from(slots, k).len() <= data_from(slots, j).len(),
    decreases k - j,
{
    if j < k {
        lemma_data_prefix(slots, j + 1, k);
        let a = data_from(slots, j + 1);
        let s = slot_words(slots[j]);
        assert(data_from(slots, j) == a + s);
        assert((a + s).subrange(0, data_from(slots, k).len() as int) =~= a.subrange(0, data_from(slots, k).len() as int));
    } else {
        assert(data_from(slots, k) =~= data_from(slots, k).subrange(0, data_from(slots, k).len() as int));
    }
}

/// Measuring variable-length values gives the same inside a segment as in
/// the sequence that holds it, as long as the values lie in the segment.
pub proof fn lemma_var_transfer(b: u32, s: Seq<u32>, ws: Seq<u32>, q: int, p: int, n: nat)
    requires
        0 <= q,
        0 <= p,
        q + s.len() <= ws.len(),
        ws.subrange(q, q + s.len()) == s,
    ensures
        var_copies_len(b, s, p, n) matches Some(t) ==> (p + t <= s.len() ==> var_copies_len(b, ws, q + p, n) == Some(t)),
        var_copies_len(b, ws, q + p, n) matches Some(t) ==> (p + t <= s.len() ==> var_copies_len(b, s, p, n) == Some(t)),
    decreases n,
{
    if n > 0 {
        if p + 2 <= s.len() {
            assert(ws[q + p] == s[p]);
            assert(ws[q + p + 1] == s[p + 1]);
            let l1 = var_value_len(b, s[p], s[p + 1]);
            lemma_var_transfer(b, s, ws, q, p + l1, (n - 1) as nat);
        }
    }
}

proof fn lemma_off_data(m: CifModel, cif: u8, l: Layout, copies: nat, ws: Seq<u32>, pos: int, k: int)
    requires
        block_wf(m, cif, l, copies),
        0 <= pos,
        0 <= k <= 32,
        pos + block_data(m).len() <= ws.len(),
        ws.subrange(pos, pos + block_data(m).len()) == block_data(m),
    ensures
        off_from(m.indicator, cif, l, copies, ws, pos, k) == Some(data_from(m.slots, k).len()),
    decreases 32 - k,
{
    if k < 32 {
        lemma_off_data(m, cif, l, copies, ws, pos, k + 1);
        let b = k as u32;
        assert(bit(m.indicator, b) <==> m.slots[b as int] is Some);
        let o = data_from(m.slots, k + 1).len() as int;
        if let Some(sl) = m.slots[k] {
            if kind_of(cif, b) == FieldKind::Variable && l == Layout::Values {
                let d = block_data(m);
                lemma_data_prefix(m.slots, 0, k);
                assert(data_from(m.slots, k) == data_from(m.slots, k + 1) + sl);
                assert(ws.subrange(pos + o, pos + o + sl.len()) =~= sl) by {
                    assert forall|i: int| 0 <= i < sl.len() implies ws[pos + o + i] == sl[i] by {
                        assert(data_from(m.slots, k)[o + i] == sl[i]);
                        assert(d[o + i] == data_from(m.slots, k)[o + i]);
                        assert(ws.subrange(pos, pos + d.len())[o + i] == d[o + i]);
                    }
                }
                lemma_var_transfer(b, sl, ws, pos + o, 0, copies);
            }
        }
    }
}

/// Where the field of bit `b` sits in the data block: after the fields of
/// every higher set bit.
pub proof fn lemma_slot_at(m: CifModel, b: int)
    requires
        m.slots.len() == 32,
        0 <= b < 32,
    ensures
        block_data(m).subrange(data_from(m.slots, b + 1).len() as int, data_from(m.slots, b).len() as int)
            == slot_words(m.slots[b]),
        data_from(m.slots, b + 1).len() <= data_from(m.slots, b).len(),
{
    lemma_data_prefix(m.slots, 0, b);
    let a = data_from(m.slots, b + 1);
    let s = slot_words(m.slots[b]);
    assert(data_from(m.slots, b) == a + s);
    assert(block_data(m).subrange(a.len() as int, (a + s).len() as int) =~= (a + s).subrange(a.len() as int, (a + s).len() as int));
    assert((a + s).subrange(a.len() as int, (a + s).len() as int) =~= s);
}

/// Decoding the data block of a well-formed block, wherever it stands in a
/// word sequence, gives back that block.
pub proof fn lemma_decode_block(
    m: CifModel,
    cif: u8,
    l: Layout,
    copies: nat,
    ws: Seq<u32>,
    pos: int,
)
    requires
        block_wf(m, cif, l, copies),
        0 <= pos,
        pos + block_data(m).len() <= ws.len(),
        ws.subrange(pos, pos + block_data(m).len()) == block_data(m),
    ensures
        bad_from(m.indicator, cif, l, 0) is None,
        off_from(m.indicator, cif, l, copies, ws, pos, 0) == Some(block_data(m).len()),
        decode_model(m.indicator, cif, l, copies, ws, pos) == m,
        decode_block(m.indicator, cif, l, copies, ws, pos) == Ok::<(CifModel, int), VitaError>((m, pos + block_data(m).len())),
{
    reveal(decode_block);
    let ind = m.indicator;
    let d = block_data(m);
    lemma_bad_from_none(m, cif, l, copies, 0);
    lemma_off_data(m, cif, l, copies, ws, pos, 0);
    let dm = decode_model(ind, cif, l, copies, ws, pos);
    assert forall|b: int| 0 <= b < 32 implies #[trigger] dm.slots[b] == m.slots[b] by {
        assert(bit(ind, b as u32) <==> m.slots[(b as u32) as int] is Some);
        if bit(ind, b as u32) {
            lemma_off_data(m, cif, l, copies, ws, pos, b);
            lemma_off_data(m, cif, l, copies, ws, pos, b + 1);
            lemma_slot_at(m, b);
            lemma_data_prefix(m.slots, 0, b);
            let lo = data_from(m.slots, b + 1).len() as int;
            let hi = data_from(m.slots, b).len() as int;
            assert(ws.subrange(pos + lo, pos + hi) =~= d.subrange(lo, hi));
        }
    }
    assert(dm.slots =~= m.slots);
}

proof fn lemma_decode_data(ind: u32, cif: u8, l: Layout, copies: nat, ws: Seq<u32>, pos: int, k: int)
    requires
        0 <= k <= 32,
        0 <= pos,
        off_from(ind, cif, l, copies, ws, pos, 0) is Some,
        pos + off(ind, cif, l, copies, ws, pos, 0) <= ws.len(),
    ensures
        data_from(decode_model(ind, cif, l, copies, ws, pos).slots, k) == ws.subrange(
            pos,
            pos + off(ind, cif, l, copies, ws, pos, k),
        ),
    decreases 32 - k,
{
    let dm = decode_model(ind, cif, l, copies, ws, pos);
    lemma_off_mono(ind, cif, l, copies, ws, pos, 0, k);
    if k == 32 {
        assert(ws.subrange(pos, pos) =~= Seq::<u32>::empty());
    } else {
        lemma_decode_data(ind, cif, l, copies, ws, pos, k + 1);
        lemma_off_mono(ind, cif, l, copies, ws, pos, k, k + 1);
        let a = pos + off(ind, cif, l, copies, ws, pos, k + 1);
        let b = pos + off(ind, cif, l, copies, ws, pos, k);
        assert(ws.subrange(pos, b) =~= ws.subrange(pos, a) + slot_words(dm.slots[k]));
    }
}

/// What a successful block parse yields is written back as exactly the
/// words it was read from.
pub proof fn lemma_decode_block_sound(ind: u32, cif: u8, l: Layout, copies: nat, ws: Seq<u32>, pos: int)
    requires
        0 <= pos <= ws.len(),
    ensures
        decode_block(ind, cif, l, copies, ws, pos) matches Ok((m, e)) ==> pos <= e <= ws.len()
            && m.indicator == ind && block_data(m) == ws.subrange(pos, e),
{
    reveal(decode_block);
    if decode_block(ind, cif, l, copies, ws, pos) is Ok {
        lemma_decode_data(ind, cif, l, copies, ws, pos, 0);
    }
}

/// A parsed block is well formed.
proof fn lemma_decoded_wf(ind: u32, cif: u8, l: Layout, copies: nat, ws: Seq<u32>, pos: int)
    requires
        0 <= pos,
        bad_from(ind, cif, l, 0) is None,
        off_from(ind, cif, l, copies, ws, pos, 0) is Some,
        pos + off(ind, cif, l, copies, ws, pos, 0) <= ws.len(),
    ensures
        block_wf(decode_model(ind, cif, l, copies, ws, pos), cif, l, copies),
{
    let dm = decode_model(ind, cif, l, copies, ws, pos);
    lemma_bad_from_allowed(ind, cif, l, 0);
    assert forall|b: u32| b < 32 && (#[trigger] dm.slots[b as int]) is Some implies allowed(kind_of(cif, b), l)
        && slot_ok(kind_of(cif, b), l, copies, b, dm.slots[b as int]->0) by {
        lemma_off_mono(ind, cif, l, copies, ws, pos, 0, b as int);
        lemma_off_mono(ind, cif, l, copies, ws, pos, b as int, b as int + 1);
        let lo = pos + off(ind, cif, l, copies, ws, pos, b + 1);
        let hi = pos + off(ind, cif, l, copies, ws, pos, b as int);
        let sl = ws.subrange(lo, hi);
        if kind_of(cif, b) == FieldKind::Variable && l == Layout::Values {
            lemma_var_transfer(b, sl, ws, lo, 0, copies);
        }
    }
}

impl View for CifBlock {
    type V = CifModel;

    closed spec fn view(&self) -> CifModel {
        CifModel { indicator: self.indicator, slots: self.slots@.map_values(|o: Option<Vec<u32>>| opt_view(o)) }
    }
}

/// The number of set bits among bits 31 down to `k` of `w`.
pub open spec fn popcount_from(w: u32, k: int) -> nat
    decreases 32 - k,
{
    if k >= 32 || k < 0 {
        0
    } else {
        popcount_from(w, k + 1) + if bit(w, k as u32) { 1nat } else { 0nat }
    }
}

/// The number of set bits of `w`.
pub open spec fn popcount(w: u32) -> nat {
    popcount_from(w, 0)
}

proof fn lemma_popcount_bound(w: u32, k: int)
    requires
        0 <= k <= 32,
    ensures
        popcount_from(w, k) <= 32 - k,
    decreases 32 - k,
{
    if k < 32 {
        lemma_popcount_bound(w, k + 1);
    }
}

/// Counts the set bits of a word.
pub fn count_bits(w: u32) -> (r: u32)
    ensures
        r == popcount(w),
        r <= 32,
{
    let mut k: u32 = 32;
    let mut n: u32 = 0;
    while k > 0
        invariant
            k <= 32,
            n == popcount_from(w, k as int),
            n <= 32 - k,
        decreases k,
    {
        k = k - 1;
        if (w >> k) & 1u32 == 1u32 {
            n = n + 1;
        }
        proof {
            lemma_popcount_bound(w, k as int);
        }
    }
    n
}

impl CifBlock {
    /// A block with no bit set.
    pub fn new() -> (r: CifBlock)
        ensures
            r@ == empty_model(),
            forall|cif: u8, l: Layout, copies: nat| block_wf(r@, cif, l, copies),
            block_data(r@) == Seq::<u32>::empty(),
    {
        let mut slots: Vec<Option<Vec<u32>>> = Vec::new();
        let mut i: usize = 0;
        while i < 32
            invariant
                i <= 32,
                slots@.len() == i,
                forall|j: int| 0 <= j < i ==> slots@[j] is None,
            decreases 32 - i,
        {
            slots.push(None);
            i = i + 1;
        }
        let r = CifBlock { indicator: 0, slots };
        assert(r@.slots =~= empty_model().slots);
        assert forall|cif: u8, l: Layout, copies: nat| block_wf(r@, cif, l, copies) by {
            assert forall|b: u32| b < 32 implies (#[trigger] bit(r@.indicator, b) <==> r@.slots[b as int] is Some) by {
                lemma_zero_bits(b);
            }
        }
        proof {
            lemma_empty_data(r@, 0);
        }
        r
    }

    /// The indicator word.
    pub fn indicator(&self) -> (r: u32)
        ensures
            r == self@.indicator,
    {
        self.indicator
    }

    /// Whether bit `b` is set.
    pub fn is_set(&self, b: u32) -> (r: bool)
        requires
            b < 32,
        ensures
            r == bit(self@.indicator, b),
    {
        (self.indicator >> b) & 1u32 == 1u32
    }

    /// The words of the data field of bit `b`, if it is set.
    pub fn get(&self, b: u32) -> (r: Option<Vec<u32>>)
        requires
            b < 32,
            self@.slots.len() == 32,
        ensures
            opt_view(r) == self@.slots[b as int],
    {
        match &self.slots[b as usize] {
            Some(v) => Some(v.clone()),
            None => None,
        }
    }

    /// Sets (`Some`) or clears (`None`) bit `b` together with its data field.
    pub fn set(&mut self, b: u32, v: Option<Vec<u32>>, Ghost(cif): Ghost<u8>, Ghost(l): Ghost<Layout>, Ghost(copies): Ghost<nat>)
        requires
            b < 32,
            block_wf(old(self)@, cif, l, copies),
            v matches Some(w) ==> allowed(kind_of(cif, b), l) && slot_ok(kind_of(cif, b), l, copies, b, w@),
        ensures
            block_wf(final(self)@, cif, l, copies),
            final(self)@.slots == old(self)@.slots.update(b as int, opt_view(v)),
            forall|i: u32| i < 32 ==> #[trigger] bit(final(self)@.indicator, i) == if i == b {
                v is Some
            } else {
                bit(old(self)@.indicator, i)
            },
    {
        let old_ind = self.indicator;
        let is_some = v.is_some();
        if is_some {
            self.indicator = self.indicator | (1u32 << b);
        } else {
            self.indicator = self.indicator & !(1u32 << b);
        }
        self.slots.set(b as usize, v);
        proof {
            assert forall|i: u32| i < 32 implies #[trigger] bit(self.indicator, i) == if i == b {
                is_some
            } else {
                bit(old_ind, i)
            } by {
                if is_some {
                    lemma_set_bit(old_ind, b, i);
                } else {
                    lemma_clear_bit(old_ind, b, i);
                }
            }
            assert(self@.slots =~= old(self)@.slots.update(b as int, opt_view(v)));
            assert forall|i: u32| i < 32 implies (#[trigger] bit(self@.indicator, i) <==> self@.slots[i as int] is Some) by {
                assert(bit(old(self)@.indicator, i) <==> old(self)@.slots[i as int] is Some);
            }
            assert forall|i: u32|
                i < 32 && (#[trigger] self@.slots[i as int]) is Some implies allowed(kind_of(cif, i), l)
                    && slot_ok(kind_of(cif, i), l, copies, i, self@.slots[i as int]->0) by {
                if i != b {
                    assert(old(self)@.slots[i as int] is Some);
                }
            }
        }
    }

    /// Number of words of the data block.
    pub fn data_len(&self, Ghost(cif): Ghost<u8>, Ghost(l): Ghost<Layout>, Ghost(copies): Ghost<nat>) -> (r: usize)
        requires
            block_wf(self@, cif, l, copies),
            copies <= 32,
        ensures
            r == block_data(self@).len(),
            r <= 32 * 0xFFFF,
    {
        let mut k: usize = 32;
        let mut n: usize = 0;
        while k > 0
            invariant
                k <= 32,
                copies <= 32,
                block_wf(self@, cif, l, copies),
                n == data_from(self@.slots, k as int).len(),
                n <= (32 - k) * 0xFFFF,
            decreases k,
        {
            k = k - 1;
            match &self.slots[k] {
                Some(v) => {
                    assert(self@.slots[(k as u32) as int] is Some);
                    assert(v@.len() <= 0xFFFF) by {
                        if !(kind_of(cif, k as u32) == FieldKind::Variable && l == Layout::Values) {
                            assert(v@.len() <= 13 * 32) by (nonlinear_arith)
                                requires
                                    v@.len() == slot_len(kind_of(cif, k as u32), l, copies),
                                    copies <= 32,
                                    kind_of(cif, k as u32) matches FieldKind::Data(w) ==> w <= 13;
                        }
                    }
                    n = n + v.len();
                },
                None => {},
            }
        }
        n
    }

    /// Appends the data block to `out`: each set field, from bit 31 down to bit 0.
    pub fn emit_data(&self, out: &mut Vec<u32>)
        requires
            self@.slots.len() == 32,
        ensures
            final(out)@ == old(out)@ + block_data(self@),
    {
        let mut k: usize = 32;
        while k > 0
            invariant
                k <= 32,
                self@.slots.len() == 32,
                out@ == old(out)@ + data_from(self@.slots, k as int),
            decreases k,
        {
            k = k - 1;
            match &self.slots[k] {
                Some(v) => {
                    let mut i: usize = 0;
                    let ghost start = out@;
                    while i < v.len()
                        invariant
                            i <= v@.len(),
                            out@ == start + v@.subrange(0, i as int),
                        decreases v@.len() - i,
                    {
                        out.push(v[i]);
                        i = i + 1;
                        assert(out@ =~= start + v@.subrange(0, i as int));
                    }
                    assert(v@.subrange(0, v@.len() as int) =~= v@);
                },
                None => {},
            }
            assert(out@ =~= old(out)@ + data_from(self@.slots, k as int));
        }
    }

    /// Reads the data block that indicator `ind` announces from `ws`, starting
    /// at `pos`, where each value is repeated `copies` times.
    pub fn parse(ind: u32, cif: u8, l: Layout, copies: u32, ws: &Vec<u32>, pos: usize) -> (r: Result<(CifBlock, usize), VitaError>)
        requires
            pos <= ws@.len(),
            copies <= 32,
        ensures
            match r {
                Ok((blk, end)) => decode_block(ind, cif, l, copies as nat, ws@, pos as int) == Ok::<(CifModel, int), VitaError>((blk@, end as int))
                    && block_wf(blk@, cif, l, copies as nat),
                Err(e) => decode_block(ind, cif, l, copies as nat, ws@, pos as int) == Err::<(CifModel, int), VitaError>(e),
            },
            r matches Ok((blk, end)) ==> pos <= end <= ws@.len() && blk@.indicator == ind,
            bad_from(ind, cif, l, 0) matches Some(b) ==> r == Err::<(CifBlock, usize), VitaError>(bad_bit_error(cif, b)),
    {
        reveal(decode_block);
        let ghost c = copies as nat;
        // First pass: every set bit may be set.
        let mut k: u32 = 32;
        while k > 0
            invariant
                k <= 32,
                bad_from(ind, cif, l, k as int) is None,
            decreases k,
        {
            k = k - 1;
            if (ind >> k) & 1u32 == 1u32 {
                match field_kind(cif, k) {
                    FieldKind::Reserved => {
                        proof {
                            reveal(decode_block);
                            lemma_bad_from_found(ind, cif, l, 0, k as int);
                        }
                        return Err(VitaError::ReservedField);
                    },
                    FieldKind::Unimplemented => {
                        if matches!(l, Layout::Values) {
                            proof {
                                reveal(decode_block);
                                lemma_bad_from_found(ind, cif, l, 0, k as int);
                            }
                            return Err(VitaError::UnimplementedField { cif: cif, bit: k as u8 });
                        }
                    },
                    _ => {},
                }
            }
        }
        // Second pass: measure and cut the data block into slots.
        let ghost dm = decode_model(ind, cif, l, c, ws@, pos as int);
        let mut slots: Vec<Option<Vec<u32>>> = Vec::new();
        let mut i: usize = 0;
        while i < 32
            invariant
                i <= 32,
                slots@.len() == i,
                forall|j: int| 0 <= j < i ==> slots@[j] is None,
            decreases 32 - i,
        {
            slots.push(None);
            i = i + 1;
        }
        let wlen = ws.len();
        let mut p: usize = pos;
        let mut k: u32 = 32;
        while k > 0
            invariant
                k <= 32,
                copies <= 32,
                c == copies as nat,
                dm == decode_model(ind, cif, l, c, ws@, pos as int),
                wlen == ws@.len(),
                pos <= p <= ws@.len(),
                bad_from(ind, cif, l, 0) is None,
                off_from(ind, cif, l, c, ws@, pos as int, k as int) == Some((p - pos) as nat),
                slots@.len() == 32,
                forall|b: int| k <= b < 32 ==> opt_view(#[trigger] slots@[b]) == dm.slots[b],
                forall|b: int| 0 <= b < k ==> (#[trigger] slots@[b]) is None,
            decreases k,
        {
            k = k - 1;
            if (ind >> k) & 1u32 == 1u32 {
                let n = match slot_size(cif, k, l, copies, ws, p) {
                    Some(n) => n,
                    None => {
                        proof {
                            reveal(decode_block);
                            lemma_framing(ind, cif, l, c, ws@, pos as int, k as int);
                        }
                        return Err(VitaError::Framing);
                    },
                };
                let mut v: Vec<u32> = Vec::new();
                let mut i: usize = p;
                let end = p + n;
                while i < end
                    invariant
                        end == p + n,
                        p <= i <= p + n,
                        p + n <= ws@.len(),
                        v@ == ws@.subrange(p as int, i as int),
                    decreases end - i,
                {
                    v.push(ws[i]);
                    i = i + 1;
                    assert(v@ =~= ws@.subrange(p as int, i as int));
                }
                slots.set(k as usize, Some(v));
                p = p + n;
            }
        }
        let blk = CifBlock { indicator: ind, slots };
        proof {
            assert(blk@.slots =~= dm.slots);
            lemma_decoded_wf(ind, cif, l, c, ws@, pos as int);
        }
        Ok((blk, p))
    }
}

/// Words of the field of bit `k` when its data starts at `p`, where they
/// lie within `ws`.
fn slot_size(cif: u8, k: u32, l: Layout, copies: u32, ws: &Vec<u32>, p: usize) -> (r: Option<usize>)
    requires
        p <= ws@.len(),
        copies <= 32,
        k < 32,
    ensures
        r == (match field_len_at(cif, l, copies as nat, ws@, p as int, k) {
            Some(n) => if p + n <= ws@.len() {
                Some(n as usize)
            } else {
                None::<usize>
            },
            None => None::<usize>,
        }),
{
    let wlen = ws.len();
    let kind = field_kind(cif, k);
    if matches!(kind, FieldKind::Variable) && matches!(l, Layout::Values) {
        return measure_var(k, ws, p, copies);
    }
    let n: usize = match kind {
        FieldKind::Data(w) => match l {
            Layout::Values => {
                assert(w <= 13);
                assert(w * copies <= 13 * 32) by (nonlinear_arith)
                    requires w <= 13, copies <= 32;
                (w as usize) * (copies as usize)
            },
            Layout::Ack => 1,
            Layout::Indicators => 0,
        },
        FieldKind::Variable | FieldKind::Unimplemented => match l {
            Layout::Ack => 1,
            _ => 0,
        },
        _ => 0,
    };
    if n > wlen - p {
        None
    } else {
        Some(n)
    }
}

/// Measures `n` consecutive values of variable-length field `b` from `p`:
/// their total length, where they can be measured, measure at most 65535
/// words and end within `ws`.
pub fn measure_var(b: u32, ws: &Vec<u32>, p: usize, n: u32) -> (r: Option<usize>)
    requires
        p <= ws@.len(),
    ensures
        r == (match var_copies_len(b, ws@, p as int, n as nat) {
            Some(t) => if t <= 0xFFFF && p + t <= ws@.len() {
                Some(t as usize)
            } else {
                None::<usize>
            },
            None => None::<usize>,
        }),
{
    let wlen = ws.len();
    let mut q: usize = p;
    let mut i: u32 = 0;
    while i < n
        invariant
            i <= n,
            wlen == ws@.len(),
            p <= q <= ws@.len(),
            q - p <= 0xFFFF,
            var_copies_len(b, ws@, p as int, n as nat) == (match var_copies_len(b, ws@, q as int, (n - i) as nat) {
                Some(t) => Some(((q - p) + t) as nat),
                None => None::<nat>,
            }),
        decreases n - i,
    {
        if wlen - q < 2 {
            return None;
        }
        let w0 = ws[q];
        let w1 = ws[q + 1];
        let len: u64 = if b == 9 {
            2 + (w1 as u64)
        } else {
            let tags: u64 = if (w1 >> 15u32) & 1 == 1 {
                (w1 & 0x1FF) as u64
            } else {
                0
            };
            2 + (((w0 >> 16u32) & 0x3FF) as u64) + ((w0 & 0x3FF) as u64) + ((w1 >> 16u32) as u64) + ((w1 & 0x1FF) as u64) + tags
        };
        assert(len == var_value_len(b, w0, w1));
        let acc: u64 = (q - p) as u64 + len;
        if acc > 0xFFFF || acc as usize > wlen - p {
            return None;
        }
        q = p + acc as usize;
        i = i + 1;
    }
    Some(q - p)
}

proof fn lemma_framing(ind: u32, cif: u8, l: Layout, c: nat, ws: Seq<u32>, pos: int, k: int)
    requires
        0 <= k < 32,
        0 <= pos,
        off_from(ind, cif, l, c, ws, pos, k + 1) is Some,
        ({
            let o = off_from(ind, cif, l, c, ws, pos, k + 1)->0;
            match set_len_at(ind, cif, l, c, ws, pos + o, k as u32) {
                Some(n) => pos + o + n > ws.len(),
                None => true,
            }
        }),
    ensures
        off_from(ind, cif, l, c, ws, pos, 0) matches Some(t) ==> pos + t > ws.len(),
{
    if off_from(ind, cif, l, c, ws, pos, 0) is Some {
        lemma_off_mono(ind, cif, l, c, ws, pos, 0, k);
    }
}

proof fn lemma_bad_from_found(ind: u32, cif: u8, l: Layout, j: int, k: int)
    requires
        0 <= j <= k < 32,
        bad_from(ind, cif, l, k + 1) is None,
        bit(ind, k as u32),
        !allowed(kind_of(cif, k as u32), l),
    ensures
        bad_from(ind, cif, l, j) == Some(k as u32),
    decreases k - j,
{
    if j < k {
        lemma_bad_from_found(ind, cif, l, j + 1, k);
    }
}

proof fn lemma_bad_from_allowed(ind: u32, cif: u8, l: Layout, k: int)
    requires
        0 <= k <= 32,
        bad_from(ind, cif, l, k) is None,
    ensures
        forall|b: u32| k <= b < 32 && #[trigger] bit(ind, b) ==> allowed(kind_of(cif, b), l),
    decreases 32 - k,
{
    if k < 32 {
        lemma_bad_from_allowed(ind, cif, l, k + 1);
        assert forall|b: u32| k <= b < 32 && #[trigger] bit(ind, b) implies allowed(kind_of(cif, b), l) by {
            if b == k {
            }
        }
    }
}

/// A block with no bit set has no data.
pub proof fn lemma_empty_model_data()
    ensures
        block_data(empty_model()) == Seq::<u32>::empty(),
{
    lemma_empty_data(empty_model(), 0);
}

proof fn lemma_empty_data(m: CifModel, k: int)
    requires
        m.slots.len() == 32,
        forall|b: int| 0 <= b < 32 ==> m.slots[b] is None,
    ensures
        data_from(m.slots, k) == Seq::<u32>::empty(),
    decreases 32 - k,
{
    if 0 <= k < 32 {
        lemma_empty_data(m, k + 1);
        assert(data_from(m.slots, k) =~= Seq::<u32>::empty());
    }
}

} // verus!
