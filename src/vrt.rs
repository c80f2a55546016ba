//! Whole packets: the header, the optional stream id, class id and
//! timestamps, the payload and the optional trailer, with the codec between
//! a packet and its bytes.
use vstd::prelude::*;
use crate::bits::{to_be_bytes, from_be_bytes, words_to_bytes, bytes_to_words, lemma_words_bytes_round_trip};
use crate::cifs::{CifSet, CifSetModel, set_wf, set_words, decode_set, set_result_view, lemma_decode_set, lemma_decode_set_sound, lemma_split};
use crate::class_id::ClassIdentifier;
use crate::command::{Command, CommandModel, command_wf, command_words, decode_command, command_result_view, lemma_decode_command, lemma_decode_command_sound};
use crate::error::VitaError;
use crate::header::{
    PacketHeader, PacketType, Tsi, Tsf, header_word, decode_header, lemma_header_round_trip,
    lemma_header_word_of_decode,
    is_signal_type, has_stream_id,
};
use crate::schema::Layout;
use crate::trailer::Trailer;

verus! {

/// Raw signal samples, held as 32-bit words.
#[derive(Clone, Debug, PartialEq, Eq)]
pub struct SignalData {
    words: Vec<u32>,
}

impl View for SignalData {
    type V = Seq<u32>;

    closed spec fn view(&self) -> Seq<u32> {
        self.words@
    }
}

/// The payload of a packet.
#[derive(Clone, Debug, PartialEq, Eq)]
pub enum Payload {
    SignalData(SignalData),
    Context(CifSet),
    Command(Command),
}

pub ghost enum PayloadModel {
    SignalData(Seq<u32>),
    Context(CifSetModel),
    Command(CommandModel),
}

pub ghost struct VrtModel {
    pub header: PacketHeader,
    pub stream_id: Option<u32>,
    pub class_id: Option<(u32, u32)>,
    pub integer_timestamp: Option<u32>,
    pub fractional_timestamp: Option<u64>,
    pub payload: PayloadModel,
    pub trailer: Option<u32>,
}

/// A VITA 49.2 packet.
#[derive(Clone, Debug, PartialEq, Eq)]
pub struct Vrt {
    header: PacketHeader,
    stream_id: Option<u32>,
    class_id: Option<ClassIdentifier>,
    integer_timestamp: Option<u32>,
    fractional_timestamp: Option<u64>,
    payload: Payload,
    trailer: Option<Trailer>,
}

pub closed spec fn payload_view(p: Payload) -> PayloadModel {
    match p {
        Payload::SignalData(s) => PayloadModel::SignalData(s@),
        Payload::Context(c) => PayloadModel::Context(c@),
        Payload::Command(c) => PayloadModel::Command(c@),
    }
}

impl View for Payload {
    type V = PayloadModel;

    open spec fn view(&self) -> PayloadModel {
        payload_view(*self)
    }
}

impl View for Vrt {
    type V = VrtModel;

    closed spec fn view(&self) -> VrtModel {
        VrtModel {
            header: self.header,
            stream_id: self.stream_id,
            class_id: match self.class_id {
                Some(c) => Some(c@),
                None => None,
            },
            integer_timestamp: self.integer_timestamp,
            fractional_timestamp: self.fractional_timestamp,
            payload: payload_view(self.payload),
            trailer: match self.trailer {
                Some(t) => Some(t@),
                None => None,
            },
        }
    }
}

pub open spec fn is_context_type(t: PacketType) -> bool {
    t == PacketType::Context || t == PacketType::ExtensionContext
}

pub open spec fn is_command_type(t: PacketType) -> bool {
    t == PacketType::Command || t == PacketType::ExtensionCommand
}

/// The payload is the one the header's packet type calls for, and is well
/// formed for that header.
pub open spec fn payload_fits(h: PacketHeader, p: PayloadModel) -> bool {
    match p {
        PayloadModel::SignalData(w) => is_signal_type(h.packet_type) && w.len() <= 0xFFFF,
        PayloadModel::Context(s) => is_context_type(h.packet_type) && set_wf(s) && s.layout == Layout::Values,
        PayloadModel::Command(c) => is_command_type(h.packet_type) && command_wf(c, h.ind1, h.ind3),
    }
}

/// A packet is well formed when the header's flags say exactly which
/// optional parts are present and its type says what the payload is.
pub open spec fn vrt_wf(v: VrtModel) -> bool {
    &&& framing_wf(v)
    &&& (v.trailer is Some <==> v.header.spec_trailer_included())
    &&& payload_fits(v.header, v.payload)
}

/// The header's flags say exactly which of stream id, class id and
/// timestamps are present.
pub open spec fn framing_wf(v: VrtModel) -> bool {
    &&& v.header.wf()
    &&& (v.stream_id is Some <==> has_stream_id(v.header.packet_type))
    &&& (v.class_id is Some <==> v.header.class_id_included)
    &&& (v.integer_timestamp is Some <==> v.header.tsi != Tsi::Null)
    &&& (v.fractional_timestamp is Some <==> v.header.tsf != Tsf::Null)
}

pub open spec fn opt_word(o: Option<u32>) -> Seq<u32> {
    match o {
        Some(w) => seq![w],
        None => seq![],
    }
}

pub open spec fn class_words(o: Option<(u32, u32)>) -> Seq<u32> {
    match o {
        Some((a, b)) => seq![a, b],
        None => seq![],
    }
}

pub open spec fn u64_words(o: Option<u64>) -> Seq<u32> {
    match o {
        Some(x) => seq![(x >> 32u64) as u32, x as u32],
        None => seq![],
    }
}

pub open spec fn payload_words(p: PayloadModel) -> Seq<u32> {
    match p {
        PayloadModel::SignalData(w) => w,
        PayloadModel::Context(s) => set_words(s),
        PayloadModel::Command(c) => command_words(c),
    }
}

/// The words before the payload: header, stream id, class id, timestamps.
pub open spec fn preamble_words(v: VrtModel) -> Seq<u32> {
    seq![header_word(v.header)] + opt_word(v.stream_id) + class_words(v.class_id) + opt_word(
        v.integer_timestamp,
    ) + u64_words(v.fractional_timestamp)
}

/// The wire form of a packet, as words.
pub open spec fn packet_words(v: VrtModel) -> Seq<u32> {
    preamble_words(v) + payload_words(v.payload) + opt_word(v.trailer)
}

/// The wire form of a packet, as bytes.
pub open spec fn packet_bytes(v: VrtModel) -> Seq<u8> {
    words_to_bytes(packet_words(v))
}

/// The header's size field counts the packet's words.
pub open spec fn sized(v: VrtModel) -> bool {
    v.header.packet_size == packet_words(v).len()
}

pub open spec fn b2n(b: bool) -> int {
    if b {
        1
    } else {
        0
    }
}

/// Parses the payload and trailer of a packet whose preamble ends at `p`,
/// within the `n` words that its header declares.
pub open spec fn decode_body(h: PacketHeader, ws: Seq<u32>, p: int) -> Result<(PayloadModel, Option<u32>), VitaError> {
    let n = ws.len() as int;
    if is_signal_type(h.packet_type) {
        let t = b2n(h.spec_trailer_included());
        if p + t > n {
            Err(VitaError::Framing)
        } else {
            Ok((PayloadModel::SignalData(ws.subrange(p, n - t)), if t == 1 { Some(ws[n - 1]) } else { None }))
        }
    } else if is_context_type(h.packet_type) {
        match decode_set(ws, p, Layout::Values) {
            Err(e) => Err(e),
            Ok((s, e)) => if e != n {
                Err(VitaError::LengthMismatch)
            } else {
                Ok((PayloadModel::Context(s), None))
            },
        }
    } else {
        match decode_command(ws, p, h.ind1, h.ind3) {
            Err(e) => Err(e),
            Ok((c, e)) => if e != n {
                Err(VitaError::LengthMismatch)
            } else {
                Ok((PayloadModel::Command(c), None))
            },
        }
    }
}

/// What parsing the words `ws` of exactly one packet yields.
pub open spec fn decode_packet_words(h: PacketHeader, ws: Seq<u32>) -> Result<VrtModel, VitaError> {
    let at1 = 1 + b2n(has_stream_id(h.packet_type));
    let at2 = at1 + 2 * b2n(h.class_id_included);
    let at3 = at2 + b2n(h.tsi != Tsi::Null);
    let at4 = at3 + 2 * b2n(h.tsf != Tsf::Null);
    if at4 > ws.len() {
        Err(VitaError::Framing)
    } else {
        match decode_body(h, ws, at4) {
            Err(e) => Err(e),
            Ok((pl, tr)) => Ok(
                VrtModel {
                    header: h,
                    stream_id: if has_stream_id(h.packet_type) { Some(ws[1]) } else { None },
                    class_id: if h.class_id_included { Some((ws[at1], ws[at1 + 1])) } else { None },
                    integer_timestamp: if h.tsi != Tsi::Null { Some(ws[at2]) } else { None },
                    fractional_timestamp: if h.tsf != Tsf::Null {
                        Some((((ws[at3] as u64) << 32u64) | (ws[at3 + 1] as u64)) as u64)
                    } else {
                        None
                    },
                    payload: pl,
                    trailer: tr,
                },
            ),
        }
    }
}

/// What parsing a word sequence yields: the packet its header declares,
/// read from the first words of `ws`.
pub open spec fn decode_packet(ws: Seq<u32>) -> Result<VrtModel, VitaError> {
    if ws.len() == 0 {
        Err(VitaError::Framing)
    } else {
        match decode_header(ws[0]) {
            None => Err(VitaError::Framing),
            Some(h) => if h.packet_size > ws.len() || h.packet_size == 0 {
                Err(VitaError::Framing)
            } else {
                decode_packet_words(h, ws.subrange(0, h.packet_size as int))
            },
        }
    }
}

/// What parsing a byte sequence yields.
pub open spec fn decode_bytes(bs: Seq<u8>) -> Result<VrtModel, VitaError> {
    if bs.len() % 4 != 0 {
        Err(VitaError::Framing)
    } else {
        decode_packet(bytes_to_words(bs))
    }
}

pub open spec fn vrt_result_view(r: Result<Vrt, VitaError>) -> Result<VrtModel, VitaError> {
    match r {
        Ok(v) => Ok(v@),
        Err(e) => Err(e),
    }
}

proof fn lemma_u64_words(x: u64)
    ensures
        (((((x >> 32u64) as u32) as u64) << 32u64) | ((x as u32) as u64)) as u64 == x,
{
    assert((((((x >> 32u64) as u32) as u64) << 32u64) | ((x as u32) as u64)) == x) by (bit_vector);
}

pub proof fn lemma_preamble(v: VrtModel)
    requires
        framing_wf(v),
    ensures
        ({
            let h = v.header;
            let ws = preamble_words(v);
            let at1 = 1 + b2n(has_stream_id(h.packet_type));
            let at2 = at1 + 2 * b2n(h.class_id_included);
            let at3 = at2 + b2n(h.tsi != Tsi::Null);
            let at4 = at3 + 2 * b2n(h.tsf != Tsf::Null);
            &&& ws.len() == at4
            &&& ws[0] == header_word(h)
            &&& v.stream_id == (if has_stream_id(h.packet_type) { Some(ws[1]) } else { None::<u32> })
            &&& v.class_id == (if h.class_id_included { Some((ws[at1], ws[at1 + 1])) } else { None::<(u32, u32)> })
            &&& v.integer_timestamp == (if h.tsi != Tsi::Null { Some(ws[at2]) } else { None::<u32> })
            &&& v.fractional_timestamp == (if h.tsf != Tsf::Null {
                Some((((ws[at3] as u64) << 32u64) | (ws[at3 + 1] as u64)) as u64)
            } else {
                None::<u64>
            })
        }),
{
    let h = v.header;
    let a = seq![header_word(h)];
    let b = opt_word(v.stream_id);
    let c = class_words(v.class_id);
    let d = opt_word(v.integer_timestamp);
    let e = u64_words(v.fractional_timestamp);
    let ws = preamble_words(v);
    assert(ws == a + b + c + d + e);
    let at1 = 1 + b2n(has_stream_id(h.packet_type));
    let at2 = at1 + 2 * b2n(h.class_id_included);
    let at3 = at2 + b2n(h.tsi != Tsi::Null);
    if let Some(x) = v.fractional_timestamp {
        lemma_u64_words(x);
        assert(ws[at3] == e[0] && ws[at3 + 1] == e[1]);
    }
    if let Some(x) = v.integer_timestamp {
        assert(ws[at2] == d[0]);
    }
    if let Some(x) = v.class_id {
        assert(ws[at1] == c[0] && ws[at1 + 1] == c[1]);
    }
    if let Some(x) = v.stream_id {
        assert(ws[1] == b[0]);
    }
}

proof fn lemma_decode_body(v: VrtModel)
    requires
        vrt_wf(v),
    ensures
        decode_body(v.header, packet_words(v), preamble_words(v).len() as int) == Ok::<(PayloadModel, Option<u32>), VitaError>((v.payload, v.trailer)),
{
    let h = v.header;
    let ws = packet_words(v);
    let pre = preamble_words(v);
    let pw = payload_words(v.payload);
    let tw = opt_word(v.trailer);
    assert(ws == pre + pw + tw);
    let at4 = pre.len() as int;
    let n = ws.len() as int;
    assert(ws.subrange(at4, at4 + pw.len()) =~= pw);
    match v.payload {
        PayloadModel::SignalData(w) => {
            let t = b2n(h.spec_trailer_included());
            assert(ws.subrange(at4, n - t) =~= w);
            if let Some(x) = v.trailer {
                assert(ws[n - 1] == tw[0]);
            }
        },
        PayloadModel::Context(s) => {
            assert(tw.len() == 0);
            lemma_decode_set(s, ws, at4);
        },
        PayloadModel::Command(c) => {
            assert(tw.len() == 0);
            lemma_decode_command(c, h.ind1, h.ind3, ws, at4);
        },
    }
}

/// A well-formed packet whose size field counts its words parses back from
/// its wire form to itself.
pub proof fn lemma_decode_packet(v: VrtModel)
    requires
        vrt_wf(v),
        sized(v),
    ensures
        decode_packet(packet_words(v)) == Ok::<VrtModel, VitaError>(v),
{
    let h = v.header;
    let ws = packet_words(v);
    let pre = preamble_words(v);
    lemma_preamble(v);
    lemma_header_round_trip(h);
    lemma_decode_body(v);
    assert(ws == pre + payload_words(v.payload) + opt_word(v.trailer));
    assert(ws[0] == pre[0]);
    assert(ws.subrange(0, h.packet_size as int) =~= ws);
    let at4 = pre.len() as int;
    assert forall|k: int| 0 <= k < at4 implies ws[k] == #[trigger] pre[k] by {}
    let at1 = 1 + b2n(has_stream_id(h.packet_type));
    let at2 = at1 + 2 * b2n(h.class_id_included);
    let at3 = at2 + b2n(h.tsi != Tsi::Null);
    assert(ws[1] == pre[1] || !has_stream_id(h.packet_type));
    assert(h.class_id_included ==> ws[at1] == pre[at1] && ws[at1 + 1] == pre[at1 + 1]);
    assert(h.tsi != Tsi::Null ==> ws[at2] == pre[at2]);
    assert(h.tsf != Tsf::Null ==> ws[at3] == pre[at3] && ws[at3 + 1] == pre[at3 + 1]);
}

proof fn lemma_words_u64(a: u32, b: u32)
    ensures
        u64_words(Some((((a as u64) << 32u64) | (b as u64)) as u64)) == seq![a, b],
{
    assert(((((a as u64) << 32u64) | (b as u64)) >> 32u64) as u32 == a && (((a as u64) << 32u64) | (b as u64)) as u32 == b) by (bit_vector);
    assert(u64_words(Some((((a as u64) << 32u64) | (b as u64)) as u64)) =~= seq![a, b]);
}

proof fn lemma_decode_body_sound(h: PacketHeader, ws: Seq<u32>, p: int)
    requires
        0 <= p <= ws.len(),
    ensures
        decode_body(h, ws, p) matches Ok((pl, tr)) ==> payload_words(pl) + opt_word(tr) == ws.subrange(p, ws.len() as int),
{
    let n = ws.len() as int;
    lemma_decode_set_sound(ws, p, Layout::Values);
    lemma_decode_command_sound(ws, p, h.ind1, h.ind3);
    if let Ok((pl, tr)) = decode_body(h, ws, p) {
        if is_signal_type(h.packet_type) {
            let t = b2n(h.spec_trailer_included());
            assert(ws.subrange(p, n) =~= ws.subrange(p, n - t) + ws.subrange(n - t, n));
            assert(opt_word(tr) =~= ws.subrange(n - t, n));
        } else {
            assert(opt_word(tr) =~= Seq::<u32>::empty());
            assert(payload_words(pl) + opt_word(tr) =~= payload_words(pl));
        }
    }
}

#[verifier::rlimit(80)]
proof fn lemma_preamble_sound(h: PacketHeader, ws: Seq<u32>)
    requires
        ws.len() > 0,
        header_word(h) == ws[0],
    ensures
        decode_packet_words(h, ws) matches Ok(v) ==> v.header == h && preamble_words(v) == ws.subrange(0, preamble_words(v).len() as int)
            && preamble_words(v).len() <= ws.len()
            && decode_body(h, ws, preamble_words(v).len() as int) == Ok::<(PayloadModel, Option<u32>), VitaError>((v.payload, v.trailer)),
{
    if let Ok(v) = decode_packet_words(h, ws) {
        let at1 = 1 + b2n(has_stream_id(h.packet_type));
        let at2 = at1 + 2 * b2n(h.class_id_included);
        let at3 = at2 + b2n(h.tsi != Tsi::Null);
        let at4 = at3 + 2 * b2n(h.tsf != Tsf::Null);
        if h.tsf != Tsf::Null {
            lemma_words_u64(ws[at3], ws[at3 + 1]);
        }
        assert(preamble_words(v) =~= ws.subrange(0, at4));
    }
}

/// A packet read from words that its size field covers exactly is written
/// back as exactly those words.
#[verifier::rlimit(80)]
pub proof fn lemma_decode_packet_sound(ws: Seq<u32>)
    ensures
        decode_packet(ws) matches Ok(v) ==> (v.header.packet_size == ws.len() ==> packet_words(v) == ws),
{
    if let Ok(v) = decode_packet(ws) {
        if v.header.packet_size == ws.len() {
            let h = decode_header(ws[0])->0;
            assert(ws.subrange(0, h.packet_size as int) =~= ws);
            lemma_header_word_of_decode(ws[0]);
            lemma_preamble_sound(h, ws);
            let at4 = preamble_words(v).len() as int;
            lemma_decode_body_sound(h, ws, at4);
            assert(ws =~= ws.subrange(0, at4) + ws.subrange(at4, ws.len() as int));
        }
    }
}

/// Round trip: a well-formed packet whose size field counts its words parses
/// back from its bytes to itself.
pub proof fn lemma_round_trip(v: VrtModel)
    requires
        vrt_wf(v),
        sized(v),
    ensures
        decode_bytes(packet_bytes(v)) == Ok::<VrtModel, VitaError>(v),
{
    lemma_words_bytes_round_trip(packet_words(v));
    lemma_decode_packet(v);
}

impl SignalData {
    /// Empty signal data.
    pub fn new() -> (r: SignalData)
        ensures
            r@ == Seq::<u32>::empty(),
    {
        SignalData { words: Vec::new() }
    }

    /// The samples as bytes.
    pub fn payload(&self) -> (r: Vec<u8>)
        requires
            self@.len() * 4 <= usize::MAX,
        ensures
            r@ == words_to_bytes(self@),
    {
        to_be_bytes(&self.words)
    }

    /// Number of words.
    pub fn size_words(&self) -> (r: usize)
        ensures
            r == self@.len(),
    {
        self.words.len()
    }
}

impl Payload {
    /// Number of words of the payload's wire form.
    pub fn size_words(&self) -> (r: usize)
        requires
            payload_ok(self@),
        ensures
            r == payload_words(self@).len(),
            r <= 0x100_0000,
    {
        match self {
            Payload::SignalData(s) => s.size_words(),
            Payload::Context(c) => c.size_words(),
            Payload::Command(c) => c.size_words(),
        }
    }

    /// The signal data; `Err(SignalDataOnly)` for another payload.
    pub fn signal_data(&self) -> (r: Result<&SignalData, VitaError>)
        ensures
            self@ matches PayloadModel::SignalData(w) ==> (r matches Ok(s) && s@ == w),
            !(self@ is SignalData) ==> r == Err::<&SignalData, VitaError>(VitaError::SignalDataOnly),
    {
        match self {
            Payload::SignalData(p) => Ok(p),
            _ => Err(VitaError::SignalDataOnly),
        }
    }

    /// The context section; `Err(ContextOnly)` for another payload.
    pub fn context(&self) -> (r: Result<&CifSet, VitaError>)
        ensures
            self@ matches PayloadModel::Context(m) ==> (r matches Ok(c) && c@ == m),
            !(self@ is Context) ==> r == Err::<&CifSet, VitaError>(VitaError::ContextOnly),
    {
        match self {
            Payload::Context(p) => Ok(p),
            _ => Err(VitaError::ContextOnly),
        }
    }

    /// The context section, to modify; `Err(ContextOnly)` for another payload.
    pub fn context_mut(&mut self) -> (r: Result<&mut CifSet, VitaError>)
        ensures
            old(self)@ matches PayloadModel::Context(m) ==> (r matches Ok(c) && c@ == m
                && final(self)@ == PayloadModel::Context(final(c)@)),
            !(old(self)@ is Context) ==> r is Err && final(self)@ == old(self)@,
    {
        match self {
            Payload::Context(p) => Ok(p),
            _ => Err(VitaError::ContextOnly),
        }
    }

    /// The command; `Err(CommandOnly)` for another payload.
    pub fn command(&self) -> (r: Result<&Command, VitaError>)
        ensures
            self@ matches PayloadModel::Command(m) ==> (r matches Ok(c) && c@ == m),
            !(self@ is Command) ==> r == Err::<&Command, VitaError>(VitaError::CommandOnly),
    {
        match self {
            Payload::Command(p) => Ok(p),
            _ => Err(VitaError::CommandOnly),
        }
    }

    /// The command, to modify; `Err(CommandOnly)` for another payload.
    pub fn command_mut(&mut self) -> (r: Result<&mut Command, VitaError>)
        ensures
            old(self)@ matches PayloadModel::Command(m) ==> (r matches Ok(c) && c@ == m
                && final(self)@ == PayloadModel::Command(final(c)@)),
            !(old(self)@ is Command) ==> r is Err && final(self)@ == old(self)@,
    {
        match self {
            Payload::Command(p) => Ok(p),
            _ => Err(VitaError::CommandOnly),
        }
    }
}

/// A packet with header `h`, stream id 0, no class id, timestamps or
/// trailer, and `payload`.
pub open spec fn fresh_packet(h: PacketHeader, payload: PayloadModel) -> VrtModel {
    VrtModel {
        header: h,
        stream_id: Some(0),
        class_id: None,
        integer_timestamp: None,
        fractional_timestamp: None,
        payload: payload,
        trailer: None,
    }
}

/// The packet with its size field set to the number of its words.
pub open spec fn with_size(v: VrtModel) -> VrtModel {
    VrtModel { header: PacketHeader { packet_size: packet_words(v).len() as u16, ..v.header }, ..v }
}

fn push_opt(o: Option<u32>, out: &mut Vec<u32>)
    ensures
        final(out)@ == old(out)@ + opt_word(o),
{
    if let Some(w) = o {
        out.push(w);
    }
    assert(final(out)@ =~= old(out)@ + opt_word(o));
}

/// The payload is well formed on its own, whatever header carries it.
pub open spec fn payload_ok(p: PayloadModel) -> bool {
    match p {
        PayloadModel::SignalData(w) => w.len() <= 0xFFFF,
        PayloadModel::Context(s) => set_wf(s),
        PayloadModel::Command(c) => crate::command::payload_wf(c.cam, c.payload),
    }
}

impl Vrt {
    fn with_parts(header: PacketHeader, payload: Payload) -> (r: Vrt)
        ensures
            r@ == (VrtModel {
                header: header,
                stream_id: Some(0),
                class_id: None,
                integer_timestamp: None,
                fractional_timestamp: None,
                payload: payload@,
                trailer: None,
            }),
    {
        Vrt {
            header,
            stream_id: Some(0),
            class_id: None,
            integer_timestamp: None,
            fractional_timestamp: None,
            payload,
            trailer: None,
        }
    }

    /// Number of words of the packet's wire form.
    pub fn size_words(&self) -> (r: usize)
        requires
            vrt_wf(self@),
        ensures
            r == packet_words(self@).len(),
            r <= 0x100_0010,
    {
        let f = self.header.framing_words() as usize;
        let p = self.payload.size_words();
        proof {
            lemma_preamble(self@);
        }
        f + p
    }

    /// Sets the header's size field to the number of the packet's words.
    pub fn update_packet_size(&mut self)
        requires
            vrt_wf(old(self)@),
            packet_words(old(self)@).len() <= 0xFFFF,
        ensures
            final(self)@ == with_size(old(self)@),
            vrt_wf(final(self)@),
            sized(final(self)@),
    {
        let n = self.size_words();
        self.header.set_packet_size(n as u16);
        proof {
            lemma_size_independent(old(self)@, n as u16);
        }
    }

    /// A signal data packet: stream id 0, empty payload, size set.
    pub fn new_signal_data_packet() -> (r: Vrt)
        ensures
            vrt_wf(r@),
            sized(r@),
            r@ == fresh_packet(PacketHeader { packet_size: 2, ..PacketHeader::spec_of_type(PacketType::SignalData) }, PayloadModel::SignalData(Seq::<u32>::empty())),
    {
        let mut r = Vrt::with_parts(PacketHeader::new_signal_data_header(), Payload::SignalData(SignalData::new()));
        proof {
            lemma_preamble(r@);
        }
        r.update_packet_size();
        r
    }

    /// A context packet: stream id 0, empty context, size set.
    pub fn new_context_packet() -> (r: Vrt)
        ensures
            vrt_wf(r@),
            sized(r@),
            r@ == fresh_packet(PacketHeader { packet_size: 3, ind3: true, ..PacketHeader::spec_of_type(PacketType::Context) }, PayloadModel::Context(CifSet::empty_spec())),
    {
        let mut r = Vrt::with_parts(PacketHeader::new_context_header(), Payload::Context(CifSet::new(Layout::Values)));
        proof {
            lemma_preamble(r@);
            lemma_empty_set_words(Layout::Values);
        }
        r.update_packet_size();
        r
    }

    /// A control packet: stream id 0, clear CAM, empty section, size set.
    pub fn new_control_packet() -> (r: Vrt)
        ensures
            vrt_wf(r@),
            sized(r@),
            r@ == fresh_packet(PacketHeader { packet_size: 5, ..PacketHeader::spec_of_type(PacketType::Command) }, PayloadModel::Command(crate::command::new_control_model())),
    {
        let mut r = Vrt::with_parts(PacketHeader::new_control_header(), Payload::Command(Command::new_control()));
        proof {
            lemma_preamble(r@);
            lemma_empty_set_words(Layout::Values);
            lemma_empty_set_words(Layout::Indicators);
        }
        r.update_packet_size();
        r
    }

    /// A cancellation packet: stream id 0, clear CAM, empty section, size set.
    pub fn new_cancellation_packet() -> (r: Vrt)
        ensures
            vrt_wf(r@),
            sized(r@),
            r@ == fresh_packet(PacketHeader { packet_size: 5, ind3: true, ..PacketHeader::spec_of_type(PacketType::Command) }, PayloadModel::Command(crate::command::new_cancellation_model())),
    {
        let mut r = Vrt::with_parts(PacketHeader::new_cancellation_header(), Payload::Command(Command::new_cancellation()));
        proof {
            lemma_preamble(r@);
            lemma_empty_set_words(Layout::Values);
            lemma_empty_set_words(Layout::Indicators);
        }
        r.update_packet_size();
        r
    }

    /// A validation ACK packet with no WIF or EIF section, size set.
    pub fn new_validation_ack_packet() -> (r: Vrt)
        ensures
            vrt_wf(r@),
            sized(r@),
            r@ == fresh_packet(PacketHeader { packet_size: 4, ind1: true, ..PacketHeader::spec_of_type(PacketType::Command) }, PayloadModel::Command(crate::command::new_validation_ack_model())),
    {
        let mut r = Vrt::with_parts(PacketHeader::new_ack_header(), Payload::Command(Command::new_validation_ack()));
        proof {
            lemma_preamble(r@);
            lemma_empty_set_words(Layout::Values);
            lemma_empty_set_words(Layout::Indicators);
        }
        r.update_packet_size();
        r
    }

    /// An execution ACK packet with no WIF or EIF section, size set.
    pub fn new_exec_ack_packet() -> (r: Vrt)
        ensures
            vrt_wf(r@),
            sized(r@),
            r@ == fresh_packet(PacketHeader { packet_size: 4, ind1: true, ..PacketHeader::spec_of_type(PacketType::Command) }, PayloadModel::Command(crate::command::new_exec_ack_model())),
    {
        let mut r = Vrt::with_parts(PacketHeader::new_ack_header(), Payload::Command(Command::new_exec_ack()));
        proof {
            lemma_preamble(r@);
            lemma_empty_set_words(Layout::Values);
            lemma_empty_set_words(Layout::Indicators);
        }
        r.update_packet_size();
        r
    }

    /// A query ACK packet with an empty section, size set.
    pub fn new_query_ack_packet() -> (r: Vrt)
        ensures
            vrt_wf(r@),
            sized(r@),
            r@ == fresh_packet(PacketHeader { packet_size: 5, ind1: true, ..PacketHeader::spec_of_type(PacketType::Command) }, PayloadModel::Command(crate::command::new_query_ack_model())),
    {
        let mut r = Vrt::with_parts(PacketHeader::new_ack_header(), Payload::Command(Command::new_query_ack()));
        proof {
            lemma_preamble(r@);
            lemma_empty_set_words(Layout::Values);
            lemma_empty_set_words(Layout::Indicators);
        }
        r.update_packet_size();
        r
    }

    /// The header.
    pub fn header(&self) -> (r: &PacketHeader)
        ensures
            *r == self@.header,
    {
        &self.header
    }

    /// The stream identifier.
    pub fn stream_id(&self) -> (r: Option<u32>)
        ensures
            r == self@.stream_id,
    {
        self.stream_id
    }

    /// Sets the stream identifier. On signal and extension data packets this
    /// switches between the types with and without a stream identifier; the
    /// other types always carry one, so `None` is refused there with
    /// `Err(SignalDataOnly)`, leaving the packet as it was.
    pub fn set_stream_id(&mut self, stream_id: Option<u32>) -> (r: Result<(), VitaError>)
        requires
            vrt_wf(old(self)@),
        ensures
            vrt_wf(final(self)@),
            stream_id is None && !is_signal_type(old(self)@.header.packet_type) ==> r == Err::<(), VitaError>(VitaError::SignalDataOnly)
                && final(self)@ == old(self)@,
            !(stream_id is None && !is_signal_type(old(self)@.header.packet_type)) ==> r is Ok
                && final(self)@ == (VrtModel {
                    stream_id: stream_id,
                    header: PacketHeader { packet_type: stream_type(old(self)@.header.packet_type, stream_id is Some), ..old(self)@.header },
                    ..old(self)@
                }),
    {
        let t = self.header.packet_type;
        let nt = match (t, stream_id.is_some()) {
            (PacketType::SignalDataWithoutStreamId, true) => PacketType::SignalData,
            (PacketType::SignalData, false) => PacketType::SignalDataWithoutStreamId,
            (PacketType::ExtensionDataWithoutStreamId, true) => PacketType::ExtensionData,
            (PacketType::ExtensionData, false) => PacketType::ExtensionDataWithoutStreamId,
            (PacketType::SignalDataWithoutStreamId, false) => t,
            (PacketType::ExtensionDataWithoutStreamId, false) => t,
            (_, true) => t,
            (_, false) => {
                return Err(VitaError::SignalDataOnly);
            },
        };
        self.stream_id = stream_id;
        self.header.set_packet_type(nt);
        Ok(())
    }

    /// The class identifier.
    pub fn class_id(&self) -> (r: Option<ClassIdentifier>)
        ensures
            r matches Some(c) ==> self@.class_id == Some(c@),
            r is None ==> self@.class_id is None,
    {
        self.class_id
    }

    /// Sets or clears the class identifier and the header's class-id flag.
    pub fn set_class_id(&mut self, class_id: Option<ClassIdentifier>)
        requires
            vrt_wf(old(self)@),
        ensures
            vrt_wf(final(self)@),
            final(self)@ == (VrtModel {
                class_id: match class_id {
                    Some(c) => Some(c@),
                    None => None,
                },
                header: PacketHeader { class_id_included: class_id is Some, ..old(self)@.header },
                ..old(self)@
            }),
    {
        self.header.class_id_included = class_id.is_some();
        self.class_id = class_id;
    }

    /// The integer timestamp.
    pub fn integer_timestamp(&self) -> (r: Option<u32>)
        ensures
            r == self@.integer_timestamp,
    {
        self.integer_timestamp
    }

    /// Sets the integer timestamp and its kind; `Err(TimestampModeMismatch)`,
    /// with the packet unchanged, unless a value comes exactly with a kind
    /// other than `Null`.
    pub fn set_integer_timestamp(&mut self, timestamp: Option<u32>, tsi: Tsi) -> (r: Result<(), VitaError>)
        requires
            vrt_wf(old(self)@),
        ensures
            vrt_wf(final(self)@),
            (timestamp is Some) != (tsi != Tsi::Null) ==> r == Err::<(), VitaError>(VitaError::TimestampModeMismatch) && final(self)@ == old(self)@,
            (timestamp is Some) == (tsi != Tsi::Null) ==> r is Ok && final(self)@ == (VrtModel {
                integer_timestamp: timestamp,
                header: PacketHeader { tsi: tsi, ..old(self)@.header },
                ..old(self)@
            }),
    {
        let null = matches!(tsi, Tsi::Null);
        if timestamp.is_some() == null {
            return Err(VitaError::TimestampModeMismatch);
        }
        self.integer_timestamp = timestamp;
        self.header.tsi = tsi;
        Ok(())
    }

    /// The fractional timestamp.
    pub fn fractional_timestamp(&self) -> (r: Option<u64>)
        ensures
            r == self@.fractional_timestamp,
    {
        self.fractional_timestamp
    }

    /// Sets the fractional timestamp and its kind; `Err(TimestampModeMismatch)`,
    /// with the packet unchanged, unless a value comes exactly with a kind
    /// other than `Null`.
    pub fn set_fractional_timestamp(&mut self, timestamp: Option<u64>, tsf: Tsf) -> (r: Result<(), VitaError>)
        requires
            vrt_wf(old(self)@),
        ensures
            vrt_wf(final(self)@),
            (timestamp is Some) != (tsf != Tsf::Null) ==> r == Err::<(), VitaError>(VitaError::TimestampModeMismatch) && final(self)@ == old(self)@,
            (timestamp is Some) == (tsf != Tsf::Null) ==> r is Ok && final(self)@ == (VrtModel {
                fractional_timestamp: timestamp,
                header: PacketHeader { tsf: tsf, ..old(self)@.header },
                ..old(self)@
            }),
    {
        let null = matches!(tsf, Tsf::Null);
        if timestamp.is_some() == null {
            return Err(VitaError::TimestampModeMismatch);
        }
        self.fractional_timestamp = timestamp;
        self.header.tsf = tsf;
        Ok(())
    }

    /// The payload.
    pub fn payload(&self) -> (r: &Payload)
        ensures
            r@ == self@.payload,
    {
        &self.payload
    }

    /// The payload, to modify.
    pub fn payload_mut(&mut self) -> (r: &mut Payload)
        ensures
            r@ == old(self)@.payload,
            final(self)@ == (VrtModel { payload: final(r)@, ..old(self)@ }),
    {
        &mut self.payload
    }

    /// The trailer.
    pub fn trailer(&self) -> (r: Option<Trailer>)
        ensures
            r matches Some(t) ==> self@.trailer == Some(t@),
            r is None ==> self@.trailer is None,
    {
        self.trailer
    }

    /// Sets or clears the trailer and the header's trailer flag;
    /// `Err(SignalDataOnly)`, with the packet unchanged, on packets that do
    /// not carry signal data.
    pub fn set_trailer(&mut self, trailer: Option<Trailer>) -> (r: Result<(), VitaError>)
        requires
            vrt_wf(old(self)@),
        ensures
            vrt_wf(final(self)@),
            !is_signal_type(old(self)@.header.packet_type) ==> r == Err::<(), VitaError>(VitaError::SignalDataOnly) && final(self)@ == old(self)@,
            is_signal_type(old(self)@.header.packet_type) ==> r is Ok && final(self)@ == (VrtModel {
                trailer: match trailer {
                    Some(t) => Some(t@),
                    None => None,
                },
                header: PacketHeader { ind1: trailer is Some, ..old(self)@.header },
                ..old(self)@
            }),
    {
        if !self.header.packet_type.has_signal_data_payload() {
            return Err(VitaError::SignalDataOnly);
        }
        self.header.ind1 = trailer.is_some();
        self.trailer = trailer;
        Ok(())
    }

    /// The signal samples as bytes; `Err(SignalDataOnly)` on other packets.
    pub fn signal_payload(&self) -> (r: Result<Vec<u8>, VitaError>)
        requires
            vrt_wf(self@),
        ensures
            self@.payload matches PayloadModel::SignalData(w) ==> (r matches Ok(b) && b@ == words_to_bytes(w)),
            !(self@.payload is SignalData) ==> r == Err::<Vec<u8>, VitaError>(VitaError::SignalDataOnly),
    {
        let s = self.payload.signal_data()?;
        proof {
            lemma_preamble(self@);
        }
        Ok(s.payload())
    }

    /// Replaces the signal samples and updates the size field.
    /// `Err(SignalDataOnly)` on other packets, `Err(PayloadUneven32BitWords)`
    /// for a length that is not a multiple of four, `Err(OutOfRange)` where
    /// the packet would exceed 65535 words; on error nothing changes.
    pub fn set_signal_payload(&mut self, payload: &[u8]) -> (r: Result<(), VitaError>)
        requires
            vrt_wf(old(self)@),
        ensures
            vrt_wf(final(self)@),
            r is Err ==> final(self)@ == old(self)@,
            !(old(self)@.payload is SignalData) ==> r == Err::<(), VitaError>(VitaError::SignalDataOnly),
            old(self)@.payload is SignalData && payload@.len() % 4 != 0 ==> r == Err::<(), VitaError>(VitaError::PayloadUneven32BitWords),
            old(self)@.payload is SignalData && payload@.len() % 4 == 0 ==> (r is Ok <==> packet_words(with_signal(old(self)@, bytes_to_words(payload@))).len() <= 0xFFFF),
            old(self)@.payload is SignalData && payload@.len() % 4 == 0 && r is Err ==> r == Err::<(), VitaError>(VitaError::OutOfRange),
            r is Ok ==> final(self)@ == with_size(with_signal(old(self)@, bytes_to_words(payload@))) && sized(final(self)@),
    {
        if !matches!(self.payload, Payload::SignalData(_)) {
            return Err(VitaError::SignalDataOnly);
        }
        let words = match from_be_bytes(payload) {
            Some(w) => w,
            None => {
                return Err(VitaError::PayloadUneven32BitWords);
            },
        };
        let f = self.header.framing_words() as usize;
        proof {
            lemma_signal_len(self@, words@);
        }
        if words.len() > 0xFFFF - f {
            return Err(VitaError::OutOfRange);
        }
        self.payload = Payload::SignalData(SignalData { words });
        proof {
            lemma_signal_len(old(self)@, words@);
            assert(self@ == with_signal(old(self)@, words@));
        }
        self.update_packet_size();
        Ok(())
    }

    fn emit_preamble(&self, out: &mut Vec<u32>)
        ensures
            final(out)@ == old(out)@ + preamble_words(self@),
    {
        let ghost start = out@;
        out.push(self.header.as_u32());
        push_opt(self.stream_id, out);
        match self.class_id {
            Some(c) => {
                let (a, b) = c.words();
                out.push(a);
                out.push(b);
            },
            None => {},
        }
        push_opt(self.integer_timestamp, out);
        match self.fractional_timestamp {
            Some(x) => {
                out.push((x >> 32u64) as u32);
                out.push(x as u32);
            },
            None => {},
        }
        assert(out@ =~= start + preamble_words(self@));
    }

    fn emit_payload(&self, out: &mut Vec<u32>)
        requires
            vrt_wf(self@),
        ensures
            final(out)@ == old(out)@ + payload_words(self@.payload),
    {
        let ghost mid = out@;
        match &self.payload {
            Payload::SignalData(s) => {
                let mut i: usize = 0;
                while i < s.words.len()
                    invariant
                        i <= s.words@.len(),
                        out@ == mid + s.words@.subrange(0, i as int),
                    decreases s.words@.len() - i,
                {
                    out.push(s.words[i]);
                    i = i + 1;
                    assert(out@ =~= mid + s.words@.subrange(0, i as int));
                }
                assert(s.words@.subrange(0, s.words@.len() as int) =~= s.words@);
            },
            Payload::Context(c) => c.emit(out),
            Payload::Command(c) => c.emit(out),
        }
    }

    /// Appends the packet's wire form, as words, to `out`.
    pub fn emit_words(&self, out: &mut Vec<u32>)
        requires
            vrt_wf(self@),
        ensures
            final(out)@ == old(out)@ + packet_words(self@),
    {
        let ghost start = out@;
        self.emit_preamble(out);
        self.emit_payload(out);
        let ghost mid2 = out@;
        match self.trailer {
            Some(t) => out.push(t.as_u32()),
            None => {},
        }
        assert(out@ =~= mid2 + opt_word(self@.trailer));
        assert(out@ =~= start + packet_words(self@));
    }

    /// The packet's wire form as bytes, big-endian.
    pub fn to_bytes(&self) -> (r: Vec<u8>)
        requires
            vrt_wf(self@),
        ensures
            r@ == packet_bytes(self@),
    {
        let n = self.size_words();
        let mut ws: Vec<u32> = Vec::new();
        self.emit_words(&mut ws);
        assert(ws@ =~= packet_words(self@));
        to_be_bytes(&ws)
    }
}

/// Which packet type a signal or extension data packet becomes when its
/// stream identifier is set (`true`) or cleared; other types stay.
pub open spec fn stream_type(t: PacketType, with_stream: bool) -> PacketType {
    match t {
        PacketType::SignalDataWithoutStreamId => if with_stream { PacketType::SignalData } else { t },
        PacketType::SignalData => if with_stream { t } else { PacketType::SignalDataWithoutStreamId },
        PacketType::ExtensionDataWithoutStreamId => if with_stream { PacketType::ExtensionData } else { t },
        PacketType::ExtensionData => if with_stream { t } else { PacketType::ExtensionDataWithoutStreamId },
        _ => t,
    }
}

/// The packet with its payload replaced by the signal words `w`.
pub open spec fn with_signal(v: VrtModel, w: Seq<u32>) -> VrtModel {
    VrtModel { payload: PayloadModel::SignalData(w), ..v }
}

proof fn lemma_signal_len(v: VrtModel, w: Seq<u32>)
    requires
        vrt_wf(v),
        v.payload is SignalData,
    ensures
        packet_words(with_signal(v, w)).len() == v.header.spec_framing_words() + w.len(),
        w.len() + v.header.spec_framing_words() <= 0xFFFF ==> vrt_wf(with_signal(v, w)),
{
    lemma_preamble(with_signal(v, w));
}

/// An empty section is its CIF0 word alone.
pub proof fn lemma_empty_set_words(l: Layout)
    ensures
        set_words(CifSetModel { layout: l, ..CifSet::empty_spec() }) == seq![0u32],
{
    crate::cif::lemma_empty_model_data();
    assert(set_words(CifSetModel { layout: l, ..CifSet::empty_spec() }) =~= seq![0u32]);
}

/// The number of words of a packet does not depend on its size field.
pub proof fn lemma_size_independent(v: VrtModel, n: u16)
    ensures
        packet_words(VrtModel { header: PacketHeader { packet_size: n, ..v.header }, ..v }).len() == packet_words(v).len(),
        vrt_wf(v) ==> vrt_wf(VrtModel { header: PacketHeader { packet_size: n, ..v.header }, ..v }),
{
}

fn read_u64(ws: &Vec<u32>, p: usize) -> (r: u64)
    requires
        p + 1 < ws@.len(),
    ensures
        r == (((ws@[p as int] as u64) << 32u64) | (ws@[p + 1] as u64)) as u64,
{
    let n = ws.len();
    let hi = ws[p] as u64;
    let lo = ws[p + 1] as u64;
    (hi << 32u64) | lo
}

fn copy_range(ws: &Vec<u32>, lo: usize, hi: usize) -> (r: Vec<u32>)
    requires
        lo <= hi <= ws@.len(),
    ensures
        r@ == ws@.subrange(lo as int, hi as int),
{
    let mut out: Vec<u32> = Vec::new();
    let mut i: usize = lo;
    while i < hi
        invariant
            lo <= i <= hi,
            hi <= ws@.len(),
            out@ == ws@.subrange(lo as int, i as int),
        decreases hi - i,
    {
        out.push(ws[i]);
        i = i + 1;
        assert(out@ =~= ws@.subrange(lo as int, i as int));
    }
    out
}

impl Vrt {
    fn parse_body(h: PacketHeader, ws: &Vec<u32>, p: usize) -> (r: Result<(Payload, Option<Trailer>), VitaError>)
        requires
            p <= ws@.len(),
            ws@.len() <= 0xFFFF,
        ensures
            match r {
                Ok((pl, t)) => decode_body(h, ws@, p as int) == Ok::<(PayloadModel, Option<u32>), VitaError>((pl@, match t {
                    Some(x) => Some(x@),
                    None => None,
                })) && payload_fits(h, pl@),
                Err(e) => decode_body(h, ws@, p as int) == Err::<(PayloadModel, Option<u32>), VitaError>(e),
            },
    {
        let n = ws.len();
        if h.packet_type.has_signal_data_payload() {
            let t: usize = if h.trailer_included() { 1 } else { 0 };
            if p + t > n {
                return Err(VitaError::Framing);
            }
            let words = copy_range(ws, p, n - t);
            let tr = if t == 1 {
                Some(Trailer::from_u32(ws[n - 1]))
            } else {
                None
            };
            Ok((Payload::SignalData(SignalData { words }), tr))
        } else if h.packet_type.has_context_payload() {
            let (s, e) = CifSet::parse(ws, p, Layout::Values)?;
            proof {
                crate::command::lemma_decode_set_layout(ws@, p as int, Layout::Values);
            }
            if e != n {
                return Err(VitaError::LengthMismatch);
            }
            Ok((Payload::Context(s), None))
        } else {
            let (c, e) = Command::parse(ws, p, h.ind1, h.ind3)?;
            if e != n {
                return Err(VitaError::LengthMismatch);
            }
            Ok((Payload::Command(c), None))
        }
    }

    fn parse_packet_words(h: PacketHeader, ws: &Vec<u32>) -> (r: Result<Vrt, VitaError>)
        requires
            h.wf(),
            ws@.len() <= 0xFFFF,
        ensures
            vrt_result_view(r) == decode_packet_words(h, ws@),
            r matches Ok(v) ==> vrt_wf(v@),
    {
        let n = ws.len();
        let sid = h.stream_id_included();
        let at1: usize = if sid { 2 } else { 1 };
        let at2: usize = if h.class_id_included { at1 + 2 } else { at1 };
        let at3: usize = if h.integer_timestamp_included() { at2 + 1 } else { at2 };
        let at4: usize = if h.fractional_timestamp_included() { at3 + 2 } else { at3 };
        if at4 > n {
            return Err(VitaError::Framing);
        }
        let (payload, trailer) = Vrt::parse_body(h, ws, at4)?;
        let v = Vrt {
            header: h,
            stream_id: if sid { Some(ws[1]) } else { None },
            class_id: if h.class_id_included { Some(ClassIdentifier::from_words(ws[at1], ws[at1 + 1])) } else { None },
            integer_timestamp: if h.integer_timestamp_included() { Some(ws[at2]) } else { None },
            fractional_timestamp: if h.fractional_timestamp_included() { Some(read_u64(ws, at3)) } else { None },
            payload,
            trailer,
        };
        Ok(v)
    }

    /// Parses a packet from words: the header, then the packet of the size it
    /// declares, read from the first words of `ws`.
    pub fn from_words(ws: &Vec<u32>) -> (r: Result<Vrt, VitaError>)
        ensures
            vrt_result_view(r) == decode_packet(ws@),
            r matches Ok(v) ==> vrt_wf(v@),
    {
        if ws.len() == 0 {
            return Err(VitaError::Framing);
        }
        let h = PacketHeader::from_u32(ws[0])?;
        let n = h.packet_size as usize;
        if n > ws.len() || n == 0 {
            return Err(VitaError::Framing);
        }
        let b = copy_range(ws, 0, n);
        Vrt::parse_packet_words(h, &b)
    }

    /// Parses a packet from its big-endian bytes.
    pub fn from_bytes(bs: &[u8]) -> (r: Result<Vrt, VitaError>)
        ensures
            vrt_result_view(r) == decode_bytes(bs@),
            r matches Ok(v) ==> vrt_wf(v@),
    {
        match from_be_bytes(bs) {
            Some(ws) => Vrt::from_words(&ws),
            None => Err(VitaError::Framing),
        }
    }
}

} // verus!
