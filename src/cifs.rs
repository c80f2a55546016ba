//! A context-shaped section: CIF0, the optional CIF1, CIF2, CIF3 and CIF7
//! words that CIF0's meta-bits announce, and the data blocks of CIF0..CIF3.
use vstd::prelude::*;
use crate::bits::bit;
use crate::cif::{
    CifBlock, CifModel, block_wf, block_data, decode_block, popcount, count_bits, empty_model,
    lemma_decode_block, lemma_decode_block_sound, opt_view, measure_var,
};
use crate::error::VitaError;
use crate::schema::{
    FieldKind, Layout, kind_of, field_kind, allowed, slot_len, slot_ok, CIF1_ENABLE, CIF2_ENABLE,
    CIF3_ENABLE, CIF7_ENABLE, CONTEXT_CHANGED,
};

verus! {

/// The content of a section.
pub ghost struct CifSetModel {
    pub layout: Layout,
    pub cif0: CifModel,
    pub cif1: Option<CifModel>,
    pub cif2: Option<CifModel>,
    pub cif3: Option<CifModel>,
    pub cif7: Option<u32>,
}

/// A context-shaped section. The layout says what the data fields hold:
/// values (context, control, query ACK), AckResponse words (WIF/EIF blocks)
/// or nothing (cancellation).
#[derive(Clone, Debug, PartialEq, Eq)]
pub struct CifSet {
    layout: Layout,
    cif0: CifBlock,
    cif1: Option<CifBlock>,
    cif2: Option<CifBlock>,
    cif3: Option<CifBlock>,
    cif7: Option<u32>,
}

pub open spec fn opt_block_view(o: Option<CifBlock>) -> Option<CifModel> {
    match o {
        Some(b) => Some(b@),
        None => None,
    }
}

impl View for CifSet {
    type V = CifSetModel;

    closed spec fn view(&self) -> CifSetModel {
        CifSetModel {
            layout: self.layout,
            cif0: self.cif0@,
            cif1: opt_block_view(self.cif1),
            cif2: opt_block_view(self.cif2),
            cif3: opt_block_view(self.cif3),
            cif7: self.cif7,
        }
    }
}

/// How many times each value is repeated: once without CIF7, else once per
/// set CIF7 bit (the current value, if its bit is set, and each attribute).
pub open spec fn copies_of(cif7: Option<u32>) -> nat {
    match cif7 {
        Some(w) => popcount(w),
        None => 1,
    }
}

pub open spec fn opt_block_wf(o: Option<CifModel>, cif: u8, l: Layout, c: nat) -> bool {
    match o {
        Some(m) => block_wf(m, cif, l, c),
        None => true,
    }
}

/// A section is well formed when each block is, and CIF0's meta-bits say
/// exactly which of CIF1, CIF2, CIF3 and CIF7 are present.
pub open spec fn set_wf(m: CifSetModel) -> bool {
    let c = copies_of(m.cif7);
    &&& block_wf(m.cif0, 0, m.layout, c)
    &&& opt_block_wf(m.cif1, 1, m.layout, c)
    &&& opt_block_wf(m.cif2, 2, m.layout, c)
    &&& opt_block_wf(m.cif3, 3, m.layout, c)
    &&& bit(m.cif0.indicator, CIF1_ENABLE) == m.cif1 is Some
    &&& bit(m.cif0.indicator, CIF2_ENABLE) == m.cif2 is Some
    &&& bit(m.cif0.indicator, CIF3_ENABLE) == m.cif3 is Some
    &&& bit(m.cif0.indicator, CIF7_ENABLE) == m.cif7 is Some
}

pub open spec fn opt_ind(o: Option<CifModel>) -> Seq<u32> {
    match o {
        Some(m) => seq![m.indicator],
        None => seq![],
    }
}

pub open spec fn opt_word(o: Option<u32>) -> Seq<u32> {
    match o {
        Some(w) => seq![w],
        None => seq![],
    }
}

pub open spec fn opt_data(o: Option<CifModel>) -> Seq<u32> {
    match o {
        Some(m) => block_data(m),
        None => seq![],
    }
}

/// The indicator words of a section: CIF0, then CIF1, CIF2, CIF3 and CIF7
/// where present.
pub open spec fn set_indicator_words(m: CifSetModel) -> Seq<u32> {
    seq![m.cif0.indicator] + opt_ind(m.cif1) + opt_ind(m.cif2) + opt_ind(m.cif3) + opt_word(m.cif7)
}

/// The data words of a section: the blocks of CIF0, CIF1, CIF2 and CIF3.
pub open spec fn set_data_words(m: CifSetModel) -> Seq<u32> {
    block_data(m.cif0) + opt_data(m.cif1) + opt_data(m.cif2) + opt_data(m.cif3)
}

/// The wire form of a section.
pub open spec fn set_words(m: CifSetModel) -> Seq<u32> {
    set_indicator_words(m) + set_data_words(m)
}

pub open spec fn b2n(b: bool) -> int {
    if b {
        1
    } else {
        0
    }
}

/// Parses an optional block: present when `present`, with its indicator at
/// `ind_pos`.
pub open spec fn decode_opt_block(
    present: bool,
    ind_pos: int,
    cif: u8,
    l: Layout,
    c: nat,
    ws: Seq<u32>,
    pos: int,
) -> Result<(Option<CifModel>, int), VitaError> {
    if !present {
        Ok((None, pos))
    } else {
        match decode_block(ws[ind_pos], cif, l, c, ws, pos) {
            Ok((m, p)) => Ok((Some(m), p)),
            Err(e) => Err(e),
        }
    }
}

/// What parsing the data blocks of a section yields, given its indicator
/// words and the position of its first data word.
pub open spec fn decode_set_data(
    ws: Seq<u32>,
    l: Layout,
    w0: u32,
    i1: int,
    i2: int,
    i3: int,
    cif7: Option<u32>,
    at0: int,
) -> Result<(CifSetModel, int), VitaError> {
    let c = copies_of(cif7);
    match decode_block(w0, 0, l, c, ws, at0) {
        Err(e) => Err(e),
        Ok((m0, at1)) => match decode_opt_block(bit(w0, CIF1_ENABLE), i1, 1, l, c, ws, at1) {
            Err(e) => Err(e),
            Ok((m1, at2)) => match decode_opt_block(bit(w0, CIF2_ENABLE), i2, 2, l, c, ws, at2) {
                Err(e) => Err(e),
                Ok((m2, at3)) => match decode_opt_block(bit(w0, CIF3_ENABLE), i3, 3, l, c, ws, at3) {
                    Err(e) => Err(e),
                    Ok((m3, at4)) => Ok(
                        (
                            CifSetModel { layout: l, cif0: m0, cif1: m1, cif2: m2, cif3: m3, cif7: cif7 },
                            at4,
                        ),
                    ),
                },
            },
        },
    }
}

/// What parsing a section of layout `l` at `pos` yields.
pub open spec fn decode_set(ws: Seq<u32>, pos: int, l: Layout) -> Result<(CifSetModel, int), VitaError> {
    if pos >= ws.len() {
        Err(VitaError::Framing)
    } else {
        let w0 = ws[pos];
        let i1 = pos + 1;
        let i2 = i1 + b2n(bit(w0, CIF1_ENABLE));
        let i3 = i2 + b2n(bit(w0, CIF2_ENABLE));
        let i7 = i3 + b2n(bit(w0, CIF3_ENABLE));
        let at0 = i7 + b2n(bit(w0, CIF7_ENABLE));
        if at0 > ws.len() {
            Err(VitaError::Framing)
        } else {
            let cif7 = if bit(w0, CIF7_ENABLE) {
                Some(ws[i7])
            } else {
                None
            };
            decode_set_data(ws, l, w0, i1, i2, i3, cif7, at0)
        }
    }
}

pub open spec fn set_result_view(r: Result<(CifSet, usize), VitaError>) -> Result<(CifSetModel, int), VitaError> {
    match r {
        Ok((s, p)) => Ok((s@, p as int)),
        Err(e) => Err(e),
    }
}

/// Splits a match of a concatenation at a position into matches of its parts.
pub proof fn lemma_split(ws: Seq<u32>, pos: int, a: Seq<u32>, b: Seq<u32>)
    requires
        0 <= pos,
        pos + a.len() + b.len() <= ws.len(),
        ws.subrange(pos, pos + a.len() + b.len()) == a + b,
    ensures
        ws.subrange(pos, pos + a.len()) == a,
        ws.subrange(pos + a.len(), pos + a.len() + b.len()) == b,
{
    assert(ws.subrange(pos, pos + a.len()) =~= (a + b).subrange(0, a.len() as int));
    assert((a + b).subrange(0, a.len() as int) =~= a);
    assert(ws.subrange(pos + a.len(), pos + a.len() + b.len()) =~= (a + b).subrange(
        a.len() as int,
        (a.len() + b.len()) as int,
    ));
    assert((a + b).subrange(a.len() as int, (a.len() + b.len()) as int) =~= b);
}

proof fn lemma_decode_opt_block(
    o: Option<CifModel>,
    ind_pos: int,
    cif: u8,
    l: Layout,
    c: nat,
    ws: Seq<u32>,
    pos: int,
)
    requires
        opt_block_wf(o, cif, l, c),
        o matches Some(m) ==> 0 <= ind_pos < ws.len() && ws[ind_pos] == m.indicator,
        0 <= pos,
        pos + opt_data(o).len() <= ws.len(),
        ws.subrange(pos, pos + opt_data(o).len()) == opt_data(o),
    ensures
        decode_opt_block(o is Some, ind_pos, cif, l, c, ws, pos) == Ok::<(Option<CifModel>, int), VitaError>(
            (o, pos + opt_data(o).len()),
        ),
{
    if let Some(m) = o {
        lemma_decode_block(m, cif, l, c, ws, pos);
    }
}

proof fn lemma_indicator_words(m: CifSetModel, ws: Seq<u32>, pos: int)
    requires
        0 <= pos,
        pos + set_indicator_words(m).len() <= ws.len(),
        ws.subrange(pos, pos + set_indicator_words(m).len()) == set_indicator_words(m),
    ensures
        ws[pos] == m.cif0.indicator,
        ({
            let i1 = pos + 1;
            let i2 = i1 + b2n(m.cif1 is Some);
            let i3 = i2 + b2n(m.cif2 is Some);
            let i7 = i3 + b2n(m.cif3 is Some);
            &&& i7 + b2n(m.cif7 is Some) == pos + set_indicator_words(m).len()
            &&& (m.cif1 matches Some(x) ==> ws[i1] == x.indicator)
            &&& (m.cif2 matches Some(x) ==> ws[i2] == x.indicator)
            &&& (m.cif3 matches Some(x) ==> ws[i3] == x.indicator)
            &&& (m.cif7 matches Some(x) ==> ws[i7] == x)
        }),
{
    let iw = set_indicator_words(m);
    let i1 = pos + 1;
    let i2 = i1 + b2n(m.cif1 is Some);
    let i3 = i2 + b2n(m.cif2 is Some);
    let i7 = i3 + b2n(m.cif3 is Some);
    assert forall|k: int| pos <= k < pos + iw.len() implies ws[k] == #[trigger] iw[k - pos] by {
        assert(ws.subrange(pos, pos + iw.len())[k - pos] == iw[k - pos]);
    }
    assert(ws[pos] == iw[0]);
    if let Some(x) = m.cif1 {
        assert(iw[1] == x.indicator);
    }
    if let Some(x) = m.cif2 {
        assert(iw[i2 - pos] == x.indicator);
    }
    if let Some(x) = m.cif3 {
        assert(iw[i3 - pos] == x.indicator);
    }
    if let Some(x) = m.cif7 {
        assert(iw[i7 - pos] == x);
    }
}

/// A well-formed section, wherever it stands in a word sequence, parses back
/// to itself and ends where its wire form ends.
#[verifier::rlimit(60)]
pub proof fn lemma_decode_set(m: CifSetModel, ws: Seq<u32>, pos: int)
    requires
        set_wf(m),
        0 <= pos,
        pos + set_words(m).len() <= ws.len(),
        ws.subrange(pos, pos + set_words(m).len()) == set_words(m),
    ensures
        decode_set(ws, pos, m.layout) == Ok::<(CifSetModel, int), VitaError>((m, pos + set_words(m).len())),
{
    let iw = set_indicator_words(m);
    let dw = set_data_words(m);
    let l = m.layout;
    let c = copies_of(m.cif7);
    lemma_split(ws, pos, iw, dw);
    lemma_indicator_words(m, ws, pos);
    let i1 = pos + 1;
    let i2 = i1 + b2n(m.cif1 is Some);
    let i3 = i2 + b2n(m.cif2 is Some);
    let i7 = i3 + b2n(m.cif3 is Some);
    let at0 = i7 + b2n(m.cif7 is Some);
    let d0 = block_data(m.cif0);
    let d1 = opt_data(m.cif1);
    let d2 = opt_data(m.cif2);
    let d3 = opt_data(m.cif3);
    assert(dw == ((d0 + d1) + d2) + d3);
    lemma_split(ws, at0, (d0 + d1) + d2, d3);
    lemma_split(ws, at0, d0 + d1, d2);
    lemma_split(ws, at0, d0, d1);
    lemma_decode_block(m.cif0, 0, l, c, ws, at0);
    lemma_decode_opt_block(m.cif1, i1, 1, l, c, ws, at0 + d0.len());
    lemma_decode_opt_block(m.cif2, i2, 2, l, c, ws, at0 + d0.len() + d1.len());
    lemma_decode_opt_block(m.cif3, i3, 3, l, c, ws, at0 + d0.len() + d1.len() + d2.len());
    let cif7 = if bit(ws[pos], CIF7_ENABLE) {
        Some(ws[i7])
    } else {
        None
    };
    assert(cif7 == m.cif7);
    assert(decode_block(ws[pos], 0, l, c, ws, at0) == Ok::<(CifModel, int), VitaError>((m.cif0, at0 + d0.len())));
}

proof fn lemma_decode_opt_block_sound(present: bool, ind_pos: int, cif: u8, l: Layout, c: nat, ws: Seq<u32>, pos: int)
    requires
        0 <= pos <= ws.len(),
        present ==> 0 <= ind_pos < ws.len(),
    ensures
        decode_opt_block(present, ind_pos, cif, l, c, ws, pos) matches Ok((o, e)) ==> pos <= e <= ws.len()
            && opt_data(o) == ws.subrange(pos, e) && (o is Some == present)
            && (o matches Some(m) ==> m.indicator == ws[ind_pos]),
{
    if present {
        lemma_decode_block_sound(ws[ind_pos], cif, l, c, ws, pos);
    } else {
        assert(ws.subrange(pos, pos) =~= Seq::<u32>::empty());
    }
}

proof fn lemma_decode_set_data_sound(ws: Seq<u32>, l: Layout, w0: u32, i1: int, i2: int, i3: int, cif7: Option<u32>, at0: int)
    requires
        0 <= at0 <= ws.len(),
        bit(w0, CIF1_ENABLE) ==> 0 <= i1 < ws.len(),
        bit(w0, CIF2_ENABLE) ==> 0 <= i2 < ws.len(),
        bit(w0, CIF3_ENABLE) ==> 0 <= i3 < ws.len(),
    ensures
        decode_set_data(ws, l, w0, i1, i2, i3, cif7, at0) matches Ok((m, e)) ==> at0 <= e <= ws.len()
            && set_data_words(m) == ws.subrange(at0, e)
            && m.cif0.indicator == w0
            && m.cif7 == cif7
            && (m.cif1 is Some == bit(w0, CIF1_ENABLE)) && (m.cif1 matches Some(x) ==> x.indicator == ws[i1])
            && (m.cif2 is Some == bit(w0, CIF2_ENABLE)) && (m.cif2 matches Some(x) ==> x.indicator == ws[i2])
            && (m.cif3 is Some == bit(w0, CIF3_ENABLE)) && (m.cif3 matches Some(x) ==> x.indicator == ws[i3]),
{
    if let Ok((m, e)) = decode_set_data(ws, l, w0, i1, i2, i3, cif7, at0) {
        let c = copies_of(cif7);
        lemma_decode_block_sound(w0, 0, l, c, ws, at0);
        let (m0, at1) = decode_block(w0, 0, l, c, ws, at0)->Ok_0;
        lemma_decode_opt_block_sound(bit(w0, CIF1_ENABLE), i1, 1, l, c, ws, at1);
        let (m1, at2) = decode_opt_block(bit(w0, CIF1_ENABLE), i1, 1, l, c, ws, at1)->Ok_0;
        lemma_decode_opt_block_sound(bit(w0, CIF2_ENABLE), i2, 2, l, c, ws, at2);
        let (m2, at3) = decode_opt_block(bit(w0, CIF2_ENABLE), i2, 2, l, c, ws, at2)->Ok_0;
        lemma_decode_opt_block_sound(bit(w0, CIF3_ENABLE), i3, 3, l, c, ws, at3);
        assert(ws.subrange(at0, e) =~= ws.subrange(at0, at1) + ws.subrange(at1, at2) + ws.subrange(at2, at3) + ws.subrange(at3, e));
    }
}

/// What a successful section parse yields is written back as exactly the
/// words it was read from.
pub proof fn lemma_decode_set_sound(ws: Seq<u32>, pos: int, l: Layout)
    requires
        0 <= pos <= ws.len(),
    ensures
        decode_set(ws, pos, l) matches Ok((m, e)) ==> pos <= e <= ws.len() && set_words(m) == ws.subrange(pos, e),
{
    if let Ok((m, e)) = decode_set(ws, pos, l) {
        let w0 = ws[pos];
        let i1 = pos + 1;
        let i2 = i1 + b2n(bit(w0, CIF1_ENABLE));
        let i3 = i2 + b2n(bit(w0, CIF2_ENABLE));
        let i7 = i3 + b2n(bit(w0, CIF3_ENABLE));
        let at0 = i7 + b2n(bit(w0, CIF7_ENABLE));
        let cif7 = if bit(w0, CIF7_ENABLE) { Some(ws[i7]) } else { None };
        lemma_decode_set_data_sound(ws, l, w0, i1, i2, i3, cif7, at0);
        assert(set_indicator_words(m) =~= ws.subrange(pos, at0));
        assert(ws.subrange(pos, e) =~= ws.subrange(pos, at0) + ws.subrange(at0, e));
    }
}

/// Reads the word at `pos`; `Err(Framing)` past the end.
pub fn read_word(ws: &Vec<u32>, pos: usize) -> (r: Result<u32, VitaError>)
    ensures
        pos < ws@.len() ==> r == Ok::<u32, VitaError>(ws@[pos as int]),
        pos >= ws@.len() ==> r == Err::<u32, VitaError>(VitaError::Framing),
{
    if pos < ws.len() {
        Ok(ws[pos])
    } else {
        Err(VitaError::Framing)
    }
}

impl CifSet {
    pub open spec fn empty_spec() -> CifSetModel {
        CifSetModel { layout: Layout::Values, cif0: empty_model(), cif1: None, cif2: None, cif3: None, cif7: None }
    }

    /// An empty section of the given layout: CIF0 alone, with no bit set.
    pub fn new(layout: Layout) -> (r: CifSet)
        ensures
            r@ == (CifSetModel {
                layout: layout,
                cif0: empty_model(),
                cif1: None,
                cif2: None,
                cif3: None,
                cif7: None,
            }),
            set_wf(r@),
    {
        let r = CifSet {
            layout,
            cif0: CifBlock::new(),
            cif1: None,
            cif2: None,
            cif3: None,
            cif7: None,
        };
        proof {
            crate::bits::lemma_zero_bits(CIF1_ENABLE);
            crate::bits::lemma_zero_bits(CIF2_ENABLE);
            crate::bits::lemma_zero_bits(CIF3_ENABLE);
            crate::bits::lemma_zero_bits(CIF7_ENABLE);
        }
        r
    }

    /// The section's layout.
    pub fn layout(&self) -> (r: Layout)
        ensures
            r == self@.layout,
    {
        self.layout
    }

    /// How many times each value is repeated.
    pub fn copies(&self) -> (r: u32)
        ensures
            r == copies_of(self@.cif7),
            r <= 32,
    {
        match self.cif7 {
            Some(w) => count_bits(w),
            None => 1,
        }
    }

    fn opt_len(o: &Option<CifBlock>, Ghost(cif): Ghost<u8>, Ghost(l): Ghost<Layout>, Ghost(c): Ghost<nat>) -> (r: usize)
        requires
            opt_block_wf(opt_block_view(*o), cif, l, c),
            c <= 32,
        ensures
            r == opt_data(opt_block_view(*o)).len(),
            r <= 32 * 0xFFFF,
    {
        match o {
            Some(b) => b.data_len(Ghost(cif), Ghost(l), Ghost(c)),
            None => 0,
        }
    }

    /// Number of words of the section's wire form.
    pub fn size_words(&self) -> (r: usize)
        requires
            set_wf(self@),
        ensures
            r == set_words(self@).len(),
            r <= 5 + 4 * 32 * 0xFFFF,
    {
        let c = self.copies();
        let ghost gc = c as nat;
        let n0 = self.cif0.data_len(Ghost(0u8), Ghost(self.layout), Ghost(gc));
        let n1 = CifSet::opt_len(&self.cif1, Ghost(1u8), Ghost(self.layout), Ghost(gc));
        let n2 = CifSet::opt_len(&self.cif2, Ghost(2u8), Ghost(self.layout), Ghost(gc));
        let n3 = CifSet::opt_len(&self.cif3, Ghost(3u8), Ghost(self.layout), Ghost(gc));
        let mut h: usize = 1;
        if self.cif1.is_some() {
            h = h + 1;
        }
        if self.cif2.is_some() {
            h = h + 1;
        }
        if self.cif3.is_some() {
            h = h + 1;
        }
        if self.cif7.is_some() {
            h = h + 1;
        }
        h + n0 + n1 + n2 + n3
    }

    /// Appends the section's wire form to `out`.
    pub fn emit(&self, out: &mut Vec<u32>)
        requires
            set_wf(self@),
        ensures
            final(out)@ == old(out)@ + set_words(self@),
    {
        out.push(self.cif0.indicator());
        if let Some(b) = &self.cif1 {
            out.push(b.indicator());
        }
        if let Some(b) = &self.cif2 {
            out.push(b.indicator());
        }
        if let Some(b) = &self.cif3 {
            out.push(b.indicator());
        }
        if let Some(w) = self.cif7 {
            out.push(w);
        }
        assert(out@ =~= old(out)@ + set_indicator_words(self@));
        let ghost mid = out@;
        self.cif0.emit_data(out);
        if let Some(b) = &self.cif1 {
            b.emit_data(out);
        }
        if let Some(b) = &self.cif2 {
            b.emit_data(out);
        }
        if let Some(b) = &self.cif3 {
            b.emit_data(out);
        }
        assert(out@ =~= mid + set_data_words(self@));
        assert(out@ =~= old(out)@ + set_words(self@));
    }

    fn parse_opt(present: bool, ind: u32, cif: u8, l: Layout, c: u32, ws: &Vec<u32>, pos: usize) -> (r: Result<(Option<CifBlock>, usize), VitaError>)
        requires
            pos <= ws@.len(),
            c <= 32,
        ensures
            match r {
                Ok((o, p)) => p <= ws@.len() && opt_block_wf(opt_block_view(o), cif, l, c as nat)
                    && (o is Some == present)
                    && (match o {
                    Some(b) => decode_block(ind, cif, l, c as nat, ws@, pos as int) == Ok::<(CifModel, int), VitaError>((b@, p as int)),
                    None => p == pos,
                }),
                Err(e) => present && decode_block(ind, cif, l, c as nat, ws@, pos as int) == Err::<(CifModel, int), VitaError>(e),
            },
    {
        if !present {
            return Ok((None, pos));
        }
        let (b, p) = CifBlock::parse(ind, cif, l, c, ws, pos)?;
        Ok((Some(b), p))
    }

    fn parse_data(
        ws: &Vec<u32>,
        l: Layout,
        w0: u32,
        w1: u32,
        w2: u32,
        w3: u32,
        cif7: Option<u32>,
        at0: usize,
        Ghost(i1): Ghost<int>,
        Ghost(i2): Ghost<int>,
        Ghost(i3): Ghost<int>,
    ) -> (r: Result<(CifSet, usize), VitaError>)
        requires
            at0 <= ws@.len(),
            bit(w0, CIF1_ENABLE) ==> 0 <= i1 < ws@.len() && ws@[i1] == w1,
            bit(w0, CIF2_ENABLE) ==> 0 <= i2 < ws@.len() && ws@[i2] == w2,
            bit(w0, CIF3_ENABLE) ==> 0 <= i3 < ws@.len() && ws@[i3] == w3,
            bit(w0, CIF7_ENABLE) == cif7 is Some,
        ensures
            set_result_view(r) == decode_set_data(ws@, l, w0, i1, i2, i3, cif7, at0 as int),
            r matches Ok((s, p)) ==> set_wf(s@) && p <= ws@.len(),
    {
        let h1 = (w0 >> CIF1_ENABLE) & 1u32 == 1u32;
        let h2 = (w0 >> CIF2_ENABLE) & 1u32 == 1u32;
        let h3 = (w0 >> CIF3_ENABLE) & 1u32 == 1u32;
        let c: u32 = match cif7 {
            Some(w) => count_bits(w),
            None => 1,
        };
        let (b0, p) = CifBlock::parse(w0, 0, l, c, ws, at0)?;
        let (b1, p) = CifSet::parse_opt(h1, w1, 1, l, c, ws, p)?;
        let (b2, p) = CifSet::parse_opt(h2, w2, 2, l, c, ws, p)?;
        let (b3, p) = CifSet::parse_opt(h3, w3, 3, l, c, ws, p)?;
        let s = CifSet { layout: l, cif0: b0, cif1: b1, cif2: b2, cif3: b3, cif7 };
        Ok((s, p))
    }

    /// Reads a section of layout `l` from `ws`, starting at `pos`.
    pub fn parse(ws: &Vec<u32>, pos: usize, l: Layout) -> (r: Result<(CifSet, usize), VitaError>)
        requires
            pos <= ws@.len(),
        ensures
            set_result_view(r) == decode_set(ws@, pos as int, l),
            r matches Ok((s, p)) ==> set_wf(s@) && p <= ws@.len(),
    {
        let wlen = ws.len();
        let w0 = read_word(ws, pos)?;
        let h1 = (w0 >> CIF1_ENABLE) & 1u32 == 1u32;
        let h2 = (w0 >> CIF2_ENABLE) & 1u32 == 1u32;
        let h3 = (w0 >> CIF3_ENABLE) & 1u32 == 1u32;
        let h7 = (w0 >> CIF7_ENABLE) & 1u32 == 1u32;
        let ghost i1 = pos + 1;
        let ghost i2 = i1 + b2n(h1);
        let ghost i3 = i2 + b2n(h2);
        let mut p: usize = pos + 1;
        let mut w1: u32 = 0;
        let mut w2: u32 = 0;
        let mut w3: u32 = 0;
        let mut cif7: Option<u32> = None;
        if h1 {
            w1 = read_word(ws, p)?;
            p = p + 1;
        }
        if h2 {
            w2 = read_word(ws, p)?;
            p = p + 1;
        }
        if h3 {
            w3 = read_word(ws, p)?;
            p = p + 1;
        }
        if h7 {
            cif7 = Some(read_word(ws, p)?);
            p = p + 1;
        }
        CifSet::parse_data(ws, l, w0, w1, w2, w3, cif7, p, Ghost(i1), Ghost(i2), Ghost(i3))
    }
}

/// The block of CIF number `cif` in a section, where present.
pub open spec fn block_of(m: CifSetModel, cif: u8) -> Option<CifModel> {
    if cif == 0 {
        Some(m.cif0)
    } else if cif == 1 {
        m.cif1
    } else if cif == 2 {
        m.cif2
    } else if cif == 3 {
        m.cif3
    } else {
        None
    }
}

/// The data field of bit `b` of CIF number `cif`: its words, where set.
pub open spec fn field_of(m: CifSetModel, cif: u8, b: u32) -> Option<Seq<u32>> {
    match block_of(m, cif) {
        Some(bm) => bm.slots[b as int],
        None => None,
    }
}

/// The error that setting field (`cif`, `b`) to `v` meets, if any.
pub open spec fn set_field_error(m: CifSetModel, cif: u8, b: u32, v: Option<Seq<u32>>) -> Option<VitaError> {
    if cif > 3 || b >= 32 {
        Some(VitaError::OutOfRange)
    } else {
        let k = kind_of(cif, b);
        if k == FieldKind::Unimplemented && m.layout == Layout::Values {
            Some(VitaError::UnimplementedField { cif: cif, bit: b as u8 })
        } else if k is Data || k is Variable || k is Unimplemented {
            match v {
                Some(w) => if !slot_ok(k, m.layout, copies_of(m.cif7), b, w) {
                    Some(VitaError::OutOfRange)
                } else {
                    None
                },
                None => None,
            }
        } else {
            Some(VitaError::ReservedField)
        }
    }
}

/// Setting field (`cif`, `b`) of `old` to `v` gave `new`: that field holds
/// `v`, every other field and CIF7 are kept, and the touched CIF1..CIF3
/// block is present exactly while one of its bits is set.
pub open spec fn field_set(old: CifSetModel, new: CifSetModel, cif: u8, b: u32, v: Option<Seq<u32>>) -> bool {
    &&& set_wf(new)
    &&& new.layout == old.layout
    &&& new.cif7 == old.cif7
    &&& field_of(new, cif, b) == v
    &&& forall|c: u8, i: u32|
        c <= 3 && i < 32 && (c != cif || i != b) && kind_of(c, i) != FieldKind::Meta ==> #[trigger] field_of(new, c, i)
            == field_of(old, c, i)
    &&& (cif >= 1 ==> (block_of(new, cif) matches Some(bm) ==> bm.indicator != 0))
    &&& forall|c: u8| 1 <= c <= 3 && c != cif ==> (#[trigger] block_of(new, c) is Some) == (block_of(old, c) is Some)
}

impl CifSet {
    /// The CIF0 word.
    pub fn cif0(&self) -> (r: u32)
        ensures
            r == self@.cif0.indicator,
    {
        self.cif0.indicator()
    }

    /// The CIF1 word, where present.
    pub fn cif1(&self) -> (r: Option<u32>)
        ensures
            r == (match self@.cif1 {
                Some(m) => Some(m.indicator),
                None => None::<u32>,
            }),
    {
        match &self.cif1 {
            Some(b) => Some(b.indicator()),
            None => None,
        }
    }

    /// The CIF2 word, where present.
    pub fn cif2(&self) -> (r: Option<u32>)
        ensures
            r == (match self@.cif2 {
                Some(m) => Some(m.indicator),
                None => None::<u32>,
            }),
    {
        match &self.cif2 {
            Some(b) => Some(b.indicator()),
            None => None,
        }
    }

    /// The CIF3 word, where present.
    pub fn cif3(&self) -> (r: Option<u32>)
        ensures
            r == (match self@.cif3 {
                Some(m) => Some(m.indicator),
                None => None::<u32>,
            }),
    {
        match &self.cif3 {
            Some(b) => Some(b.indicator()),
            None => None,
        }
    }

    /// The CIF7 word, where present.
    pub fn cif7(&self) -> (r: Option<u32>)
        ensures
            r == self@.cif7,
    {
        self.cif7
    }

    /// Whether bit `b` of CIF number `cif` is set (`false` where that CIF is
    /// absent).
    pub fn has_field(&self, cif: u8, b: u32) -> (r: bool)
        requires
            set_wf(self@),
        ensures
            cif <= 3 && b < 32 ==> r == (block_of(self@, cif) matches Some(m) && bit(m.indicator, b)),
            !(cif <= 3 && b < 32) ==> !r,
    {
        if b >= 32 {
            return false;
        }
        if cif == 0 {
            self.cif0.is_set(b)
        } else if cif == 1 {
            match &self.cif1 {
                Some(blk) => blk.is_set(b),
                None => false,
            }
        } else if cif == 2 {
            match &self.cif2 {
                Some(blk) => blk.is_set(b),
                None => false,
            }
        } else if cif == 3 {
            match &self.cif3 {
                Some(blk) => blk.is_set(b),
                None => false,
            }
        } else {
            false
        }
    }

    /// The data field of bit `b` of CIF number `cif`, where set.
    pub fn field(&self, cif: u8, b: u32) -> (r: Option<Vec<u32>>)
        requires
            set_wf(self@),
        ensures
            cif <= 3 && b < 32 ==> opt_view(r) == field_of(self@, cif, b),
            !(cif <= 3 && b < 32) ==> r is None,
    {
        if b >= 32 {
            return None;
        }
        if cif == 0 {
            self.cif0.get(b)
        } else if cif == 1 {
            match &self.cif1 {
                Some(blk) => blk.get(b),
                None => None,
            }
        } else if cif == 2 {
            match &self.cif2 {
                Some(blk) => blk.get(b),
                None => None,
            }
        } else if cif == 3 {
            match &self.cif3 {
                Some(blk) => blk.get(b),
                None => None,
            }
        } else {
            None
        }
    }

    fn set_in_opt(
        o: &mut Option<CifBlock>,
        b: u32,
        v: Option<Vec<u32>>,
        Ghost(cif): Ghost<u8>,
        Ghost(l): Ghost<Layout>,
        Ghost(c): Ghost<nat>,
    )
        requires
            b < 32,
            opt_block_wf(opt_block_view(*old(o)), cif, l, c),
            v matches Some(w) ==> allowed(kind_of(cif, b), l) && slot_ok(kind_of(cif, b), l, c, b, w@),
        ensures
            opt_block_wf(opt_block_view(*final(o)), cif, l, c),
            *final(o) matches Some(nb) ==> nb@.indicator != 0 && nb@.slots == (match *old(o) {
                Some(ob) => ob@.slots,
                None => empty_model().slots,
            }).update(b as int, opt_view(v)),
            *final(o) is None ==> (match *old(o) {
                Some(ob) => forall|i: int| 0 <= i < 32 && i != b ==> (#[trigger] ob@.slots[i]) is None,
                None => true,
            }),
            *final(o) is None ==> v is None,
    {
        let ghost old_o = *o;
        let mut blk = match o.take() {
            Some(x) => x,
            None => {
                if v.is_none() {
                    return;
                }
                CifBlock::new()
            },
        };
        blk.set(b, v, Ghost(cif), Ghost(l), Ghost(c));
        if blk.indicator() != 0 {
            *o = Some(blk);
        } else {
            proof {
                assert forall|i: int| 0 <= i < 32 implies blk@.slots[i] is None by {
                    crate::bits::lemma_zero_bits(i as u32);
                    assert(bit(blk@.indicator, i as u32) <==> blk@.slots[(i as u32) as int] is Some);
                }
                assert(blk@.slots[b as int] is None);
                assert(opt_view(v) is None);
                if let Some(ob) = old_o {
                    assert forall|i: int| 0 <= i < 32 && i != b implies (#[trigger] ob@.slots[i]) is None by {
                        assert(blk@.slots[i] is None);
                    }
                }
            }
        }
    }

    /// Sets (`Some`) or clears (`None`) the data field of bit `b` of CIF
    /// number `cif`, keeping the indicator bits and CIF0's meta-bits in step.
    /// `v` must hold the field's words for every CIF7 copy.
    pub fn set_field(&mut self, cif: u8, b: u32, v: Option<Vec<u32>>) -> (r: Result<(), VitaError>)
        requires
            set_wf(old(self)@),
        ensures
            set_field_error(old(self)@, cif, b, opt_view(v)) matches Some(e) ==> r == Err::<(), VitaError>(e) && final(self)@ == old(self)@,
            set_field_error(old(self)@, cif, b, opt_view(v)) is None ==> r is Ok && field_set(old(self)@, final(self)@, cif, b, opt_view(v)),
    {
        if cif > 3 || b >= 32 {
            return Err(VitaError::OutOfRange);
        }
        let c = self.copies();
        let ghost gc = c as nat;
        let kind = field_kind(cif, b);
        let l = self.layout;
        if matches!(kind, FieldKind::Unimplemented) && matches!(l, Layout::Values) {
            return Err(VitaError::UnimplementedField { cif: cif, bit: b as u8 });
        }
        if !matches!(kind, FieldKind::Data(_) | FieldKind::Variable | FieldKind::Unimplemented) {
            return Err(VitaError::ReservedField);
        }
        if let Some(w) = &v {
            let fits = if matches!(kind, FieldKind::Variable) && matches!(l, Layout::Values) {
                match measure_var(b, w, 0, c) {
                    Some(t) => t == w.len(),
                    None => false,
                }
            } else {
                let n: usize = match kind {
                    FieldKind::Data(x) => match l {
                        Layout::Values => {
                            assert(x <= 13);
                            assert(x * c <= 13 * 32) by (nonlinear_arith)
                                requires x <= 13, c <= 32;
                            (x as usize) * (c as usize)
                        },
                        Layout::Ack => 1,
                        Layout::Indicators => 0,
                    },
                    _ => match l {
                        Layout::Ack => 1,
                        _ => 0,
                    },
                };
                assert(n == slot_len(kind_of(cif, b), l, gc));
                w.len() == n
            };
            if !fits {
                return Err(VitaError::OutOfRange);
            }
        }
        let ghost old_m = self@;
        if cif == 0 {
            self.cif0.set(b, v, Ghost(0u8), Ghost(l), Ghost(gc));
        } else {
            let meta = if cif == 1 {
                CIF1_ENABLE
            } else if cif == 2 {
                CIF2_ENABLE
            } else {
                CIF3_ENABLE
            };
            if cif == 1 {
                CifSet::set_in_opt(&mut self.cif1, b, v, Ghost(1u8), Ghost(l), Ghost(gc));
            } else if cif == 2 {
                CifSet::set_in_opt(&mut self.cif2, b, v, Ghost(2u8), Ghost(l), Ghost(gc));
            } else {
                CifSet::set_in_opt(&mut self.cif3, b, v, Ghost(3u8), Ghost(l), Ghost(gc));
            }
            let present = if cif == 1 {
                self.cif1.is_some()
            } else if cif == 2 {
                self.cif2.is_some()
            } else {
                self.cif3.is_some()
            };
            let mv: Option<Vec<u32>> = if present {
                Some(Vec::new())
            } else {
                None
            };
            self.cif0.set(meta, mv, Ghost(0u8), Ghost(l), Ghost(gc));
        }
        proof {
            let nm = self@;
            assert forall|c2: u8, i: u32|
                c2 <= 3 && i < 32 && (c2 != cif || i != b) && kind_of(c2, i) != FieldKind::Meta implies #[trigger] field_of(nm, c2, i)
                    == field_of(old_m, c2, i) by {
                if c2 == cif && c2 >= 1 {
                    if block_of(old_m, c2) is Some {
                        let ob = block_of(old_m, c2)->0;
                        assert(bit(ob.indicator, i) <==> ob.slots[i as int] is Some);
                    }
                }
            }
            if cif >= 1 {
                if let Some(ob) = block_of(old_m, cif) {
                    assert(bit(ob.indicator, b) <==> ob.slots[b as int] is Some);
                }
            }
        }
        Ok(())
    }

    /// Whether CIF0's context-field-change flag is set.
    pub fn context_changed(&self) -> (r: bool)
        ensures
            r == bit(self@.cif0.indicator, CONTEXT_CHANGED),
    {
        self.cif0.is_set(CONTEXT_CHANGED)
    }

    /// Sets or clears CIF0's context-field-change flag; nothing else changes.
    pub fn set_context_changed(&mut self, changed: bool)
        requires
            set_wf(old(self)@),
        ensures
            set_wf(final(self)@),
            bit(final(self)@.cif0.indicator, CONTEXT_CHANGED) == changed,
            final(self)@ == (CifSetModel { cif0: final(self)@.cif0, ..old(self)@ }),
            final(self)@.cif0.slots == old(self)@.cif0.slots.update(CONTEXT_CHANGED as int, if changed {
                Some(Seq::<u32>::empty())
            } else {
                None
            }),
    {
        let c = self.copies();
        let v: Option<Vec<u32>> = if changed {
            Some(Vec::new())
        } else {
            None
        };
        proof {
            if changed {
                assert(v->0@ =~= Seq::<u32>::empty());
            }
        }
        self.cif0.set(CONTEXT_CHANGED, v, Ghost(0u8), Ghost(self.layout), Ghost(c as nat));
        proof {
            if changed {
                assert(opt_view(v) =~= Some(Seq::<u32>::empty()));
            }
        }
    }

    /// Sets or clears CIF7. Every data field is cleared too, since its
    /// number of copies follows CIF7; the indicator words keep only the
    /// context-field-change flag.
    pub fn set_cif7(&mut self, cif7: Option<u32>)
        ensures
            set_wf(final(self)@),
            final(self)@.layout == old(self)@.layout,
            final(self)@.cif7 == cif7,
            final(self)@.cif1 is None && final(self)@.cif2 is None && final(self)@.cif3 is None,
            forall|i: u32| i < 32 && i != CIF7_ENABLE ==> (#[trigger] final(self)@.cif0.slots[i as int] is Some <==> i == CONTEXT_CHANGED
                && bit(old(self)@.cif0.indicator, CONTEXT_CHANGED)),
    {
        let changed = self.cif0.is_set(CONTEXT_CHANGED);
        let mut fresh = CifSet::new(self.layout);
        fresh.cif7 = cif7;
        let l = self.layout;
        let c = fresh.copies();
        let mv: Option<Vec<u32>> = if cif7.is_some() {
            Some(Vec::new())
        } else {
            None
        };
        proof {
            assert(forall|cif: u8, l: Layout, copies: nat| block_wf(fresh@.cif0, cif, l, copies));
        }
        fresh.cif0.set(CIF7_ENABLE, mv, Ghost(0u8), Ghost(l), Ghost(c as nat));
        let cv: Option<Vec<u32>> = if changed {
            Some(Vec::new())
        } else {
            None
        };
        fresh.cif0.set(CONTEXT_CHANGED, cv, Ghost(0u8), Ghost(l), Ghost(c as nat));
        *self = fresh;
    }
}

/// `s` repeated `n` times.
pub open spec fn repeat(s: Seq<u32>, n: nat) -> Seq<u32>
    decreases n,
{
    if n == 0 {
        seq![]
    } else {
        repeat(s, (n - 1) as nat) + s
    }
}

/// Whether each field holds a primary value: CIF7 is absent, or its
/// "current value" bit (31) is set.
pub open spec fn has_primary(cif7: Option<u32>) -> bool {
    match cif7 {
        Some(w) => bit(w, 31),
        None => true,
    }
}

/// The primary value of field (`cif`, `b`), `width` words long, where the
/// field is set and holds one.
pub open spec fn primary_of(m: CifSetModel, cif: u8, b: u32, width: nat) -> Option<Seq<u32>> {
    match field_of(m, cif, b) {
        Some(ws) => if has_primary(m.cif7) && ws.len() >= width {
            Some(ws.subrange(0, width as int))
        } else {
            None
        },
        None => None,
    }
}

pub open spec fn opt_repeat(v: Option<Seq<u32>>, n: nat) -> Option<Seq<u32>> {
    match v {
        Some(s) => Some(repeat(s, n)),
        None => None,
    }
}

impl CifSet {
    /// The primary value of field (`cif`, `b`): its first `width` words,
    /// where the field is set and CIF7 is absent or marks a current value.
    pub fn value(&self, cif: u8, b: u32, width: usize) -> (r: Option<Vec<u32>>)
        requires
            set_wf(self@),
            cif <= 3,
            b < 32,
        ensures
            opt_view(r) == primary_of(self@, cif, b, width as nat),
    {
        let primary = match self.cif7 {
            Some(w) => (w >> 31u32) & 1u32 == 1u32,
            None => true,
        };
        match self.field(cif, b) {
            Some(ws) => {
                if primary && ws.len() >= width {
                    let mut out: Vec<u32> = Vec::new();
                    let mut i: usize = 0;
                    while i < width
                        invariant
                            i <= width <= ws@.len(),
                            out@ == ws@.subrange(0, i as int),
                        decreases width - i,
                    {
                        out.push(ws[i]);
                        i = i + 1;
                        assert(out@ =~= ws@.subrange(0, i as int));
                    }
                    Some(out)
                } else {
                    None
                }
            },
            None => None,
        }
    }

    /// Sets (`Some`) or clears (`None`) field (`cif`, `b`), writing the value
    /// into every CIF7 copy; otherwise as [`CifSet::set_field`].
    pub fn set_value(&mut self, cif: u8, b: u32, v: Option<Vec<u32>>) -> (r: Result<(), VitaError>)
        requires
            set_wf(old(self)@),
            v matches Some(w) ==> w@.len() <= 13,
        ensures
            set_field_error(old(self)@, cif, b, opt_repeat(opt_view(v), copies_of(old(self)@.cif7))) matches Some(e)
                ==> r == Err::<(), VitaError>(e) && final(self)@ == old(self)@,
            set_field_error(old(self)@, cif, b, opt_repeat(opt_view(v), copies_of(old(self)@.cif7))) is None
                ==> r is Ok && field_set(old(self)@, final(self)@, cif, b, opt_repeat(opt_view(v), copies_of(old(self)@.cif7))),
    {
        let c = self.copies();
        let full: Option<Vec<u32>> = match v {
            Some(w) => {
                let mut out: Vec<u32> = Vec::new();
                let mut k: u32 = 0;
                while k < c
                    invariant
                        k <= c <= 32,
                        w@.len() <= 13,
                        out@ == repeat(w@, k as nat),
                        out@.len() == k * w@.len(),
                    decreases c - k,
                {
                    let mut i: usize = 0;
                    let ghost before = out@;
                    while i < w.len()
                        invariant
                            i <= w@.len(),
                            out@ == before + w@.subrange(0, i as int),
                        decreases w@.len() - i,
                    {
                        out.push(w[i]);
                        i = i + 1;
                        assert(out@ =~= before + w@.subrange(0, i as int));
                    }
                    assert(w@.subrange(0, w@.len() as int) =~= w@);
                    assert(out@.len() == (k + 1) * w@.len()) by (nonlinear_arith)
                        requires out@.len() == k * w@.len() + w@.len();
                    k = k + 1;
                }
                Some(out)
            },
            None => None,
        };
        self.set_field(cif, b, full)
    }
}

} // verus!
