//! Command payloads: the CAM word, message id, optional controllee and
//! controller identifiers, then a control, cancellation or ACK section.
use vstd::prelude::*;
use crate::ack_response::AckResponse;
use crate::bits::bit;
use crate::cam::{
    ControlAckMode, IdFormat, with_bit, lemma_with_bit, CONTROLLEE_ENABLE, CONTROLLEE_FORMAT,
    CONTROLLER_ENABLE, CONTROLLER_FORMAT, VALIDATION, EXECUTION, STATE, WARNING, ERROR,
};
use crate::cifs::{
    CifSet, CifSetModel, set_wf, set_words, decode_set, set_result_view, read_word, lemma_decode_set,
    lemma_decode_set_sound, lemma_split, field_of, field_set, set_field_error,
};
use crate::error::VitaError;
use crate::schema::Layout;

verus! {

/// Which section follows the identifiers.
#[derive(Clone, Copy, Debug, PartialEq, Eq, Structural)]
pub enum CommandKind {
    Control,
    Cancellation,
    ValidationAck,
    ExecAck,
    QueryAck,
}

/// Whether an ACK entry is a warning or an error.
#[derive(Clone, Copy, Debug, PartialEq, Eq, Structural)]
pub enum AckLevel {
    Warning,
    Error,
}

/// Warning (WIF) and error (EIF) sections of a validation or execution ACK.
#[derive(Clone, Debug, PartialEq, Eq)]
pub struct Ack {
    wif: Option<CifSet>,
    eif: Option<CifSet>,
}

/// The section that follows the identifiers.
#[derive(Clone, Debug, PartialEq, Eq)]
pub enum CommandPayload {
    Control(CifSet),
    Cancellation(CifSet),
    ValidationAck(Ack),
    ExecAck(Ack),
    QueryAck(CifSet),
}

pub ghost enum PayloadModel {
    Control(CifSetModel),
    Cancellation(CifSetModel),
    ValidationAck(Option<CifSetModel>, Option<CifSetModel>),
    ExecAck(Option<CifSetModel>, Option<CifSetModel>),
    QueryAck(CifSetModel),
}

pub ghost struct CommandModel {
    pub cam: u32,
    pub message_id: u32,
    pub controllee_id: Option<u32>,
    pub controllee_uuid: Option<u128>,
    pub controller_id: Option<u32>,
    pub controller_uuid: Option<u128>,
    pub payload: PayloadModel,
}

/// A command payload.
#[derive(Clone, Debug, PartialEq, Eq)]
pub struct Command {
    cam: ControlAckMode,
    message_id: u32,
    controllee_id: Option<u32>,
    controllee_uuid: Option<u128>,
    controller_id: Option<u32>,
    controller_uuid: Option<u128>,
    payload: CommandPayload,
}

pub open spec fn opt_set_view(o: Option<CifSet>) -> Option<CifSetModel> {
    match o {
        Some(s) => Some(s@),
        None => None,
    }
}

impl View for Command {
    type V = CommandModel;

    closed spec fn view(&self) -> CommandModel {
        CommandModel {
            cam: self.cam@,
            message_id: self.message_id,
            controllee_id: self.controllee_id,
            controllee_uuid: self.controllee_uuid,
            controller_id: self.controller_id,
            controller_uuid: self.controller_uuid,
            payload: payload_view(self.payload),
        }
    }
}

closed spec fn payload_view(p: CommandPayload) -> PayloadModel {
    match p {
        CommandPayload::Control(s) => PayloadModel::Control(s@),
        CommandPayload::Cancellation(s) => PayloadModel::Cancellation(s@),
        CommandPayload::ValidationAck(a) => PayloadModel::ValidationAck(opt_set_view(a.wif), opt_set_view(a.eif)),
        CommandPayload::ExecAck(a) => PayloadModel::ExecAck(opt_set_view(a.wif), opt_set_view(a.eif)),
        CommandPayload::QueryAck(s) => PayloadModel::QueryAck(s@),
    }
}

/// The section a command carries, chosen by the header's ACK and
/// cancellation indicators and, for ACKs, by the CAM.
pub open spec fn kind_for(cam: u32, ack: bool, cancel: bool) -> Option<CommandKind> {
    if !ack {
        if cancel {
            Some(CommandKind::Cancellation)
        } else {
            Some(CommandKind::Control)
        }
    } else if bit(cam, VALIDATION) {
        Some(CommandKind::ValidationAck)
    } else if bit(cam, EXECUTION) {
        Some(CommandKind::ExecAck)
    } else if bit(cam, STATE) {
        Some(CommandKind::QueryAck)
    } else {
        None
    }
}

pub open spec fn payload_kind(p: PayloadModel) -> CommandKind {
    match p {
        PayloadModel::Control(_) => CommandKind::Control,
        PayloadModel::Cancellation(_) => CommandKind::Cancellation,
        PayloadModel::ValidationAck(_, _) => CommandKind::ValidationAck,
        PayloadModel::ExecAck(_, _) => CommandKind::ExecAck,
        PayloadModel::QueryAck(_) => CommandKind::QueryAck,
    }
}

pub open spec fn opt_set_wf(o: Option<CifSetModel>, l: Layout) -> bool {
    match o {
        Some(s) => set_wf(s) && s.layout == l,
        None => true,
    }
}

pub open spec fn ack_wf(cam: u32, w: Option<CifSetModel>, e: Option<CifSetModel>) -> bool {
    &&& opt_set_wf(w, Layout::Ack)
    &&& opt_set_wf(e, Layout::Ack)
    &&& (w is Some <==> bit(cam, WARNING))
    &&& (e is Some <==> bit(cam, ERROR))
}

pub open spec fn payload_wf(cam: u32, p: PayloadModel) -> bool {
    match p {
        PayloadModel::Control(s) => set_wf(s) && s.layout == Layout::Values,
        PayloadModel::Cancellation(s) => set_wf(s) && s.layout == Layout::Indicators,
        PayloadModel::ValidationAck(w, e) => ack_wf(cam, w, e),
        PayloadModel::ExecAck(w, e) => ack_wf(cam, w, e),
        PayloadModel::QueryAck(s) => set_wf(s) && s.layout == Layout::Values,
    }
}

/// One side's identifiers agree with the CAM: at most one is present, the
/// enable bit says whether one is, and the format bit which.
pub open spec fn side_wf(cam: u32, enable: u32, format: u32, id: Option<u32>, uuid: Option<u128>) -> bool {
    &&& !(id is Some && uuid is Some)
    &&& bit(cam, enable) == (id is Some || uuid is Some)
    &&& bit(cam, enable) ==> bit(cam, format) == uuid is Some
}

/// A command is well formed, for a header with the given ACK and
/// cancellation indicators, when both identifier sides agree with the CAM and
/// its section is the one the indicators and CAM select.
pub open spec fn command_wf(c: CommandModel, ack: bool, cancel: bool) -> bool {
    &&& side_wf(c.cam, CONTROLLEE_ENABLE, CONTROLLEE_FORMAT, c.controllee_id, c.controllee_uuid)
    &&& side_wf(c.cam, CONTROLLER_ENABLE, CONTROLLER_FORMAT, c.controller_id, c.controller_uuid)
    &&& kind_for(c.cam, ack, cancel) == Some(payload_kind(c.payload))
    &&& payload_wf(c.cam, c.payload)
}

/// The four words of a 128-bit identifier, most significant first.
pub open spec fn u128_words(u: u128) -> Seq<u32> {
    seq![(u >> 96u128) as u32, (u >> 64u128) as u32, (u >> 32u128) as u32, u as u32]
}

pub open spec fn u128_of_words(a: u32, b: u32, c: u32, d: u32) -> u128 {
    ((a as u128) << 96u128) | ((b as u128) << 64u128) | ((c as u128) << 32u128) | (d as u128)
}

pub proof fn lemma_u128_words(u: u128)
    ensures
        u128_of_words(u128_words(u)[0], u128_words(u)[1], u128_words(u)[2], u128_words(u)[3]) == u,
{
    assert(((((u >> 96u128) as u32) as u128) << 96u128) | ((((u >> 64u128) as u32) as u128) << 64u128)
        | ((((u >> 32u128) as u32) as u128) << 32u128) | (((u as u32) as u128)) == u) by (bit_vector);
}

pub open spec fn id_words(id: Option<u32>, uuid: Option<u128>) -> Seq<u32> {
    match id {
        Some(i) => seq![i],
        None => match uuid {
            Some(u) => u128_words(u),
            None => seq![],
        },
    }
}

pub open spec fn opt_set_words(o: Option<CifSetModel>) -> Seq<u32> {
    match o {
        Some(s) => set_words(s),
        None => seq![],
    }
}

pub open spec fn payload_words(p: PayloadModel) -> Seq<u32> {
    match p {
        PayloadModel::Control(s) => set_words(s),
        PayloadModel::Cancellation(s) => set_words(s),
        PayloadModel::ValidationAck(w, e) => opt_set_words(w) + opt_set_words(e),
        PayloadModel::ExecAck(w, e) => opt_set_words(w) + opt_set_words(e),
        PayloadModel::QueryAck(s) => set_words(s),
    }
}

/// The wire form of a command payload.
pub open spec fn command_words(c: CommandModel) -> Seq<u32> {
    seq![c.cam, c.message_id] + id_words(c.controllee_id, c.controllee_uuid) + id_words(
        c.controller_id,
        c.controller_uuid,
    ) + payload_words(c.payload)
}

/// Parses one side's identifier from `pos`, as the CAM's bits say.
pub open spec fn decode_side(cam: u32, enable: u32, format: u32, ws: Seq<u32>, pos: int) -> Result<(Option<u32>, Option<u128>, int), VitaError> {
    if !bit(cam, enable) {
        Ok((None, None, pos))
    } else if !bit(cam, format) {
        if pos + 1 > ws.len() {
            Err(VitaError::Framing)
        } else {
            Ok((Some(ws[pos]), None, pos + 1))
        }
    } else {
        if pos + 4 > ws.len() {
            Err(VitaError::Framing)
        } else {
            Ok((None, Some(u128_of_words(ws[pos], ws[pos + 1], ws[pos + 2], ws[pos + 3])), pos + 4))
        }
    }
}

pub open spec fn decode_opt_set(present: bool, ws: Seq<u32>, pos: int, l: Layout) -> Result<(Option<CifSetModel>, int), VitaError> {
    if !present {
        Ok((None, pos))
    } else {
        match decode_set(ws, pos, l) {
            Ok((s, p)) => Ok((Some(s), p)),
            Err(e) => Err(e),
        }
    }
}

/// Parses the section of kind `k` from `pos`.
pub open spec fn decode_payload(k: CommandKind, cam: u32, ws: Seq<u32>, pos: int) -> Result<(PayloadModel, int), VitaError> {
    match k {
        CommandKind::Control => match decode_set(ws, pos, Layout::Values) {
            Ok((s, p)) => Ok((PayloadModel::Control(s), p)),
            Err(e) => Err(e),
        },
        CommandKind::Cancellation => match decode_set(ws, pos, Layout::Indicators) {
            Ok((s, p)) => Ok((PayloadModel::Cancellation(s), p)),
            Err(e) => Err(e),
        },
        CommandKind::QueryAck => match decode_set(ws, pos, Layout::Values) {
            Ok((s, p)) => Ok((PayloadModel::QueryAck(s), p)),
            Err(e) => Err(e),
        },
        _ => match decode_opt_set(bit(cam, WARNING), ws, pos, Layout::Ack) {
            Err(e) => Err(e),
            Ok((w, at1)) => match decode_opt_set(bit(cam, ERROR), ws, at1, Layout::Ack) {
                Err(e) => Err(e),
                Ok((e, at2)) => Ok(
                    (
                        if k == CommandKind::ValidationAck {
                            PayloadModel::ValidationAck(w, e)
                        } else {
                            PayloadModel::ExecAck(w, e)
                        },
                        at2,
                    ),
                ),
            },
        },
    }
}

/// What parsing a command payload at `pos` yields, for a header with the
/// given ACK and cancellation indicators.
pub open spec fn decode_command(ws: Seq<u32>, pos: int, ack: bool, cancel: bool) -> Result<(CommandModel, int), VitaError> {
    if pos + 2 > ws.len() {
        Err(VitaError::Framing)
    } else {
        let cam = ws[pos];
        let mid = ws[pos + 1];
        match decode_side(cam, CONTROLLEE_ENABLE, CONTROLLEE_FORMAT, ws, pos + 2) {
            Err(e) => Err(e),
            Ok((eid, euuid, at1)) => match decode_side(cam, CONTROLLER_ENABLE, CONTROLLER_FORMAT, ws, at1) {
                Err(e) => Err(e),
                Ok((rid, ruuid, at2)) => match kind_for(cam, ack, cancel) {
                    None => Err(VitaError::Framing),
                    Some(k) => match decode_payload(k, cam, ws, at2) {
                        Err(e) => Err(e),
                        Ok((pl, at3)) => Ok(
                            (
                                CommandModel {
                                    cam: cam,
                                    message_id: mid,
                                    controllee_id: eid,
                                    controllee_uuid: euuid,
                                    controller_id: rid,
                                    controller_uuid: ruuid,
                                    payload: pl,
                                },
                                at3,
                            ),
                        ),
                    },
                },
            },
        }
    }
}

pub open spec fn command_result_view(r: Result<(Command, usize), VitaError>) -> Result<(CommandModel, int), VitaError> {
    match r {
        Ok((c, p)) => Ok((c@, p as int)),
        Err(e) => Err(e),
    }
}

fn emit_u128(u: u128, out: &mut Vec<u32>)
    ensures
        final(out)@ == old(out)@ + u128_words(u),
{
    out.push((u >> 96u128) as u32);
    out.push((u >> 64u128) as u32);
    out.push((u >> 32u128) as u32);
    out.push(u as u32);
    assert(final(out)@ =~= old(out)@ + u128_words(u));
}

fn emit_ids(id: Option<u32>, uuid: Option<u128>, out: &mut Vec<u32>)
    ensures
        final(out)@ == old(out)@ + id_words(id, uuid),
{
    match id {
        Some(i) => {
            out.push(i);
            assert(final(out)@ =~= old(out)@ + id_words(id, uuid));
        },
        None => match uuid {
            Some(u) => emit_u128(u, out),
            None => {
                assert(final(out)@ =~= old(out)@ + id_words(id, uuid));
            },
        },
    }
}

fn parse_side(cam: u32, enable: u32, format: u32, ws: &Vec<u32>, pos: usize) -> (r: Result<(Option<u32>, Option<u128>, usize), VitaError>)
    requires
        enable < 32,
        format < 32,
        pos <= ws@.len(),
    ensures
        match r {
            Ok((i, u, p)) => decode_side(cam, enable, format, ws@, pos as int) == Ok::<(Option<u32>, Option<u128>, int), VitaError>((i, u, p as int)) && p <= ws@.len(),
            Err(e) => decode_side(cam, enable, format, ws@, pos as int) == Err::<(Option<u32>, Option<u128>, int), VitaError>(e),
        },
{
    let wlen = ws.len();
    if (cam >> enable) & 1u32 != 1u32 {
        Ok((None, None, pos))
    } else if (cam >> format) & 1u32 != 1u32 {
        if pos >= wlen {
            Err(VitaError::Framing)
        } else {
            Ok((Some(ws[pos]), None, pos + 1))
        }
    } else {
        if wlen - pos < 4 {
            Err(VitaError::Framing)
        } else {
            let u = ((ws[pos] as u128) << 96u128) | ((ws[pos + 1] as u128) << 64u128) | ((ws[pos + 2] as u128) << 32u128) | (ws[pos + 3] as u128);
            Ok((None, Some(u), pos + 4))
        }
    }
}

fn parse_opt_set(present: bool, ws: &Vec<u32>, pos: usize, l: Layout) -> (r: Result<(Option<CifSet>, usize), VitaError>)
    requires
        pos <= ws@.len(),
    ensures
        match r {
            Ok((o, p)) => decode_opt_set(present, ws@, pos as int, l) == Ok::<(Option<CifSetModel>, int), VitaError>((opt_set_view(o), p as int))
                && p <= ws@.len() && opt_set_wf(opt_set_view(o), l),
            Err(e) => decode_opt_set(present, ws@, pos as int, l) == Err::<(Option<CifSetModel>, int), VitaError>(e),
        },
{
    if !present {
        return Ok((None, pos));
    }
    let (s, p) = CifSet::parse(ws, pos, l)?;
    proof {
        assert(s@.layout == l) by {
            assert(decode_set(ws@, pos as int, l) == Ok::<(CifSetModel, int), VitaError>((s@, p as int)));
            lemma_decode_set_layout(ws@, pos as int, l);
        }
    }
    Ok((Some(s), p))
}

/// A parsed section has the layout it was parsed with.
pub proof fn lemma_decode_set_layout(ws: Seq<u32>, pos: int, l: Layout)
    ensures
        decode_set(ws, pos, l) matches Ok((s, _)) ==> s.layout == l,
{
}

fn opt_set_size(o: &Option<CifSet>) -> (r: usize)
    requires
        o matches Some(s) ==> set_wf(s@),
    ensures
        r == opt_set_words(opt_set_view(*o)).len(),
        r <= 5 + 4 * 32 * 0xFFFF,
{
    match o {
        Some(s) => s.size_words(),
        None => 0,
    }
}

fn emit_opt_set(o: &Option<CifSet>, out: &mut Vec<u32>)
    requires
        o matches Some(s) ==> set_wf(s@),
    ensures
        final(out)@ == old(out)@ + opt_set_words(opt_set_view(*o)),
{
    match o {
        Some(s) => s.emit(out),
        None => {
            assert(final(out)@ =~= old(out)@ + opt_set_words(opt_set_view(*o)));
        },
    }
}

/// An empty section of layout `l`: CIF0 alone, no bit set.
pub open spec fn empty_section(l: Layout) -> CifSetModel {
    CifSetModel { layout: l, ..CifSet::empty_spec() }
}

/// A command with CAM `cam`, message id 0, no identifiers, and `payload`.
pub open spec fn fresh_command(cam: u32, payload: PayloadModel) -> CommandModel {
    CommandModel {
        cam: cam,
        message_id: 0,
        controllee_id: None,
        controllee_uuid: None,
        controller_id: None,
        controller_uuid: None,
        payload: payload,
    }
}

pub open spec fn new_control_model() -> CommandModel {
    fresh_command(0, PayloadModel::Control(empty_section(Layout::Values)))
}

pub open spec fn new_cancellation_model() -> CommandModel {
    fresh_command(0, PayloadModel::Cancellation(empty_section(Layout::Indicators)))
}

pub open spec fn new_validation_ack_model() -> CommandModel {
    fresh_command(with_bit(0, VALIDATION, true), PayloadModel::ValidationAck(None, None))
}

pub open spec fn new_exec_ack_model() -> CommandModel {
    fresh_command(with_bit(0, EXECUTION, true), PayloadModel::ExecAck(None, None))
}

pub open spec fn new_query_ack_model() -> CommandModel {
    fresh_command(with_bit(0, STATE, true), PayloadModel::QueryAck(empty_section(Layout::Values)))
}

impl Command {
    fn with_payload(cam: ControlAckMode, payload: CommandPayload) -> (r: Command)
        ensures
            r@.cam == cam@,
            r@.message_id == 0,
            r@.controllee_id is None && r@.controllee_uuid is None,
            r@.controller_id is None && r@.controller_uuid is None,
            r.payload == payload,
    {
        Command {
            cam,
            message_id: 0,
            controllee_id: None,
            controllee_uuid: None,
            controller_id: None,
            controller_uuid: None,
            payload,
        }
    }

    /// A control command with an empty section and a clear CAM.
    pub fn new_control() -> (r: Command)
        ensures
            command_wf(r@, false, false),
            r@ == new_control_model(),
    {
        let r = Command::with_payload(ControlAckMode::new(), CommandPayload::Control(CifSet::new(Layout::Values)));
        proof { lemma_zero_cam(); }
        r
    }

    /// A cancellation command with an empty section and a clear CAM.
    pub fn new_cancellation() -> (r: Command)
        ensures
            command_wf(r@, false, true),
            r@ == new_cancellation_model(),
    {
        let r = Command::with_payload(ControlAckMode::new(), CommandPayload::Cancellation(CifSet::new(Layout::Indicators)));
        proof { lemma_zero_cam(); }
        r
    }

    /// A validation ACK: only the CAM's validation bit set, no WIF or EIF.
    pub fn new_validation_ack() -> (r: Command)
        ensures
            command_wf(r@, true, false),
            r@ == new_validation_ack_model(),
    {
        let mut cam = ControlAckMode::new();
        cam.set_validation();
        let r = Command::with_payload(cam, CommandPayload::ValidationAck(Ack { wif: None, eif: None }));
        proof { lemma_one_bit_cam(VALIDATION); }
        r
    }

    /// An execution ACK: only the CAM's execution bit set, no WIF or EIF.
    pub fn new_exec_ack() -> (r: Command)
        ensures
            command_wf(r@, true, false),
            r@ == new_exec_ack_model(),
    {
        let mut cam = ControlAckMode::new();
        cam.set_execution();
        let r = Command::with_payload(cam, CommandPayload::ExecAck(Ack { wif: None, eif: None }));
        proof { lemma_one_bit_cam(EXECUTION); }
        r
    }

    /// A query (state) ACK: only the CAM's state bit set, empty section.
    pub fn new_query_ack() -> (r: Command)
        ensures
            command_wf(r@, true, false),
            r@ == new_query_ack_model(),
    {
        let mut cam = ControlAckMode::new();
        cam.set_state();
        let r = Command::with_payload(cam, CommandPayload::QueryAck(CifSet::new(Layout::Values)));
        proof { lemma_one_bit_cam(STATE); }
        r
    }

    /// The message identifier.
    pub fn message_id(&self) -> (r: u32)
        ensures r == self@.message_id,
    { self.message_id }

    /// Sets the message identifier.
    pub fn set_message_id(&mut self, id: u32)
        ensures final(self)@ == (CommandModel { message_id: id, ..old(self)@ }),
    { self.message_id = id; }

    /// The CAM.
    pub fn cam(&self) -> (r: ControlAckMode)
        ensures r@ == self@.cam,
    { self.cam }

    /// Replaces the CAM. The caller keeps its identifier bits and, for ACKs,
    /// its section bits in step with the command.
    pub fn set_cam(&mut self, cam: ControlAckMode)
        ensures final(self)@ == (CommandModel { cam: cam@, ..old(self)@ }),
    { self.cam = cam; }

    /// The controllee id.
    pub fn controllee_id(&self) -> (r: Option<u32>)
        ensures r == self@.controllee_id,
    { self.controllee_id }

    /// The controllee uuid.
    pub fn controllee_uuid(&self) -> (r: Option<u128>)
        ensures r == self@.controllee_uuid,
    { self.controllee_uuid }

    /// The controller id.
    pub fn controller_id(&self) -> (r: Option<u32>)
        ensures r == self@.controller_id,
    { self.controller_id }

    /// The controller uuid.
    pub fn controller_uuid(&self) -> (r: Option<u128>)
        ensures r == self@.controller_uuid,
    { self.controller_uuid }

    /// Sets or clears the 32-bit controllee identifier and the CAM's
    /// controllee bits; `Err(TriedIdWhenUuidSet)`, with nothing changed,
    /// while a controllee UUID is present.
    pub fn set_controllee_id(&mut self, id: Option<u32>) -> (r: Result<(), VitaError>)
        ensures
            old(self)@.controllee_uuid is Some ==> r == Err::<(), VitaError>(VitaError::TriedIdWhenUuidSet) && final(self)@ == old(self)@,
            old(self)@.controllee_uuid is None ==> r is Ok && final(self)@ == (CommandModel {
                controllee_id: id,
                cam: with_bit(with_bit(old(self)@.cam, CONTROLLEE_ENABLE, id is Some), CONTROLLEE_FORMAT, false),
                ..old(self)@
            }),
    {
        if self.controllee_uuid.is_some() {
            return Err(VitaError::TriedIdWhenUuidSet);
        }
        self.controllee_id = id;
        if id.is_some() {
            self.cam.enable_controllee();
        } else {
            self.cam.disable_controllee();
        }
        self.cam.set_controllee_id_format(IdFormat::Id32bit);
        Ok(())
    }

    /// Sets or clears the 128-bit controllee identifier and the CAM's
    /// controllee bits; `Err(TriedUuidWhenIdSet)`, with nothing changed,
    /// while a 32-bit controllee identifier is present.
    pub fn set_controllee_uuid(&mut self, uuid: Option<u128>) -> (r: Result<(), VitaError>)
        ensures
            old(self)@.controllee_id is Some ==> r == Err::<(), VitaError>(VitaError::TriedUuidWhenIdSet) && final(self)@ == old(self)@,
            old(self)@.controllee_id is None ==> r is Ok && final(self)@ == (CommandModel {
                controllee_uuid: uuid,
                cam: with_bit(with_bit(old(self)@.cam, CONTROLLEE_ENABLE, uuid is Some), CONTROLLEE_FORMAT, uuid is Some),
                ..old(self)@
            }),
    {
        if self.controllee_id.is_some() {
            return Err(VitaError::TriedUuidWhenIdSet);
        }
        self.controllee_uuid = uuid;
        if uuid.is_some() {
            self.cam.enable_controllee();
            self.cam.set_controllee_id_format(IdFormat::Uuid128bit);
        } else {
            self.cam.disable_controllee();
            self.cam.set_controllee_id_format(IdFormat::Id32bit);
        }
        Ok(())
    }

    /// Sets or clears the 32-bit controller identifier and the CAM's
    /// controller bits; `Err(TriedIdWhenUuidSet)`, with nothing changed,
    /// while a controller UUID is present.
    pub fn set_controller_id(&mut self, id: Option<u32>) -> (r: Result<(), VitaError>)
        ensures
            old(self)@.controller_uuid is Some ==> r == Err::<(), VitaError>(VitaError::TriedIdWhenUuidSet) && final(self)@ == old(self)@,
            old(self)@.controller_uuid is None ==> r is Ok && final(self)@ == (CommandModel {
                controller_id: id,
                cam: with_bit(with_bit(old(self)@.cam, CONTROLLER_ENABLE, id is Some), CONTROLLER_FORMAT, false),
                ..old(self)@
            }),
    {
        if self.controller_uuid.is_some() {
            return Err(VitaError::TriedIdWhenUuidSet);
        }
        self.controller_id = id;
        if id.is_some() {
            self.cam.enable_controller();
        } else {
            self.cam.disable_controller();
        }
        self.cam.set_controller_id_format(IdFormat::Id32bit);
        Ok(())
    }

    /// Sets or clears the 128-bit controller identifier and the CAM's
    /// controller bits; `Err(TriedUuidWhenIdSet)`, with nothing changed,
    /// while a 32-bit controller identifier is present.
    pub fn set_controller_uuid(&mut self, uuid: Option<u128>) -> (r: Result<(), VitaError>)
        ensures
            old(self)@.controller_id is Some ==> r == Err::<(), VitaError>(VitaError::TriedUuidWhenIdSet) && final(self)@ == old(self)@,
            old(self)@.controller_id is None ==> r is Ok && final(self)@ == (CommandModel {
                controller_uuid: uuid,
                cam: with_bit(with_bit(old(self)@.cam, CONTROLLER_ENABLE, uuid is Some), CONTROLLER_FORMAT, uuid is Some),
                ..old(self)@
            }),
    {
        if self.controller_id.is_some() {
            return Err(VitaError::TriedUuidWhenIdSet);
        }
        self.controller_uuid = uuid;
        if uuid.is_some() {
            self.cam.enable_controller();
            self.cam.set_controller_id_format(IdFormat::Uuid128bit);
        } else {
            self.cam.disable_controller();
            self.cam.set_controller_id_format(IdFormat::Id32bit);
        }
        Ok(())
    }

    /// The kind of section this command carries.
    pub fn kind(&self) -> (r: CommandKind)
        ensures r == payload_kind(self@.payload),
    {
        match &self.payload {
            CommandPayload::Control(_) => CommandKind::Control,
            CommandPayload::Cancellation(_) => CommandKind::Cancellation,
            CommandPayload::ValidationAck(_) => CommandKind::ValidationAck,
            CommandPayload::ExecAck(_) => CommandKind::ExecAck,
            CommandPayload::QueryAck(_) => CommandKind::QueryAck,
        }
    }

    /// Number of words of the command's wire form.
    pub fn size_words(&self) -> (r: usize)
        requires
            payload_wf(self@.cam, self@.payload),
        ensures
            r == command_words(self@).len(),
            r <= 10 + 2 * (5 + 4 * 32 * 0xFFFF),
    {
        let mut n: usize = 2;
        if self.controllee_id.is_some() {
            n = n + 1;
        } else if self.controllee_uuid.is_some() {
            n = n + 4;
        }
        if self.controller_id.is_some() {
            n = n + 1;
        } else if self.controller_uuid.is_some() {
            n = n + 4;
        }
        let m = match &self.payload {
            CommandPayload::Control(s) => s.size_words(),
            CommandPayload::Cancellation(s) => s.size_words(),
            CommandPayload::QueryAck(s) => s.size_words(),
            CommandPayload::ValidationAck(a) => opt_set_size(&a.wif) + opt_set_size(&a.eif),
            CommandPayload::ExecAck(a) => opt_set_size(&a.wif) + opt_set_size(&a.eif),
        };
        n + m
    }

    /// Appends the command's wire form to `out`.
    pub fn emit(&self, out: &mut Vec<u32>)
        requires
            payload_wf(self@.cam, self@.payload),
        ensures
            final(out)@ == old(out)@ + command_words(self@),
    {
        let ghost start = out@;
        out.push(self.cam.as_u32());
        out.push(self.message_id);
        emit_ids(self.controllee_id, self.controllee_uuid, out);
        emit_ids(self.controller_id, self.controller_uuid, out);
        let ghost mid = out@;
        match &self.payload {
            CommandPayload::Control(s) => s.emit(out),
            CommandPayload::Cancellation(s) => s.emit(out),
            CommandPayload::QueryAck(s) => s.emit(out),
            CommandPayload::ValidationAck(a) => {
                emit_opt_set(&a.wif, out);
                emit_opt_set(&a.eif, out);
            },
            CommandPayload::ExecAck(a) => {
                emit_opt_set(&a.wif, out);
                emit_opt_set(&a.eif, out);
            },
        }
        assert(out@ =~= mid + payload_words(self@.payload));
        assert(out@ =~= start + command_words(self@));
    }

    fn parse_payload(k: CommandKind, cam: u32, ws: &Vec<u32>, pos: usize) -> (r: Result<(CommandPayload, usize), VitaError>)
        requires
            pos <= ws@.len(),
        ensures
            match r {
                Ok((pl, p)) => p <= ws@.len() && decode_payload(k, cam, ws@, pos as int) == Ok::<(PayloadModel, int), VitaError>((payload_view(pl), p as int))
                    && payload_wf(cam, payload_view(pl)) && payload_kind(payload_view(pl)) == k,
                Err(e) => decode_payload(k, cam, ws@, pos as int) == Err::<(PayloadModel, int), VitaError>(e),
            },
    {
        proof {
            lemma_decode_set_layout(ws@, pos as int, Layout::Values);
            lemma_decode_set_layout(ws@, pos as int, Layout::Indicators);
        }
        match k {
            CommandKind::Control => {
                let (s, p) = CifSet::parse(ws, pos, Layout::Values)?;
                Ok((CommandPayload::Control(s), p))
            },
            CommandKind::Cancellation => {
                let (s, p) = CifSet::parse(ws, pos, Layout::Indicators)?;
                Ok((CommandPayload::Cancellation(s), p))
            },
            CommandKind::QueryAck => {
                let (s, p) = CifSet::parse(ws, pos, Layout::Values)?;
                Ok((CommandPayload::QueryAck(s), p))
            },
            _ => {
                let (w, at1) = parse_opt_set((cam >> WARNING) & 1u32 == 1u32, ws, pos, Layout::Ack)?;
                let (e, at2) = parse_opt_set((cam >> ERROR) & 1u32 == 1u32, ws, at1, Layout::Ack)?;
                let a = Ack { wif: w, eif: e };
                if matches!(k, CommandKind::ValidationAck) {
                    Ok((CommandPayload::ValidationAck(a), at2))
                } else {
                    Ok((CommandPayload::ExecAck(a), at2))
                }
            },
        }
    }

    /// Reads a command payload from `ws`, starting at `pos`, for a header
    /// with the given ACK and cancellation indicators.
    pub fn parse(ws: &Vec<u32>, pos: usize, ack: bool, cancel: bool) -> (r: Result<(Command, usize), VitaError>)
        requires
            pos <= ws@.len(),
        ensures
            command_result_view(r) == decode_command(ws@, pos as int, ack, cancel),
            r matches Ok((c, p)) ==> p <= ws@.len() && command_wf(c@, ack, cancel),
    {
        let wlen = ws.len();
        if wlen - pos < 2 {
            return Err(VitaError::Framing);
        }
        let cam = ws[pos];
        let mid = ws[pos + 1];
        let (eid, euuid, at1) = parse_side(cam, CONTROLLEE_ENABLE, CONTROLLEE_FORMAT, ws, pos + 2)?;
        let (rid, ruuid, at2) = parse_side(cam, CONTROLLER_ENABLE, CONTROLLER_FORMAT, ws, at1)?;
        let k = if !ack {
            if cancel {
                CommandKind::Cancellation
            } else {
                CommandKind::Control
            }
        } else if (cam >> VALIDATION) & 1u32 == 1u32 {
            CommandKind::ValidationAck
        } else if (cam >> EXECUTION) & 1u32 == 1u32 {
            CommandKind::ExecAck
        } else if (cam >> STATE) & 1u32 == 1u32 {
            CommandKind::QueryAck
        } else {
            return Err(VitaError::Framing);
        };
        let (pl, at3) = Command::parse_payload(k, cam, ws, at2)?;
        let c = Command {
            cam: ControlAckMode::from_u32(cam),
            message_id: mid,
            controllee_id: eid,
            controllee_uuid: euuid,
            controller_id: rid,
            controller_uuid: ruuid,
            payload: pl,
        };
        Ok((c, at3))
    }
}

proof fn lemma_zero_cam()
    ensures
        !bit(0, CONTROLLEE_ENABLE),
        !bit(0, CONTROLLER_ENABLE),
        !bit(0, VALIDATION),
        !bit(0, EXECUTION),
        !bit(0, STATE),
        !bit(0, WARNING),
        !bit(0, ERROR),
{
    crate::bits::lemma_zero_bits(CONTROLLEE_ENABLE);
    crate::bits::lemma_zero_bits(CONTROLLER_ENABLE);
    crate::bits::lemma_zero_bits(VALIDATION);
    crate::bits::lemma_zero_bits(EXECUTION);
    crate::bits::lemma_zero_bits(STATE);
    crate::bits::lemma_zero_bits(WARNING);
    crate::bits::lemma_zero_bits(ERROR);
}

proof fn lemma_one_bit_cam(b: u32)
    requires
        b == VALIDATION || b == EXECUTION || b == STATE,
    ensures
        forall|i: u32| i < 32 ==> #[trigger] bit(with_bit(0, b, true), i) == (i == b),
{
    assert forall|i: u32| i < 32 implies #[trigger] bit(with_bit(0, b, true), i) == (i == b) by {
        lemma_with_bit(0, b, true, i);
        crate::bits::lemma_zero_bits(i);
    }
}

proof fn lemma_decode_side(cam: u32, enable: u32, format: u32, id: Option<u32>, uuid: Option<u128>, ws: Seq<u32>, pos: int)
    requires
        side_wf(cam, enable, format, id, uuid),
        0 <= pos,
        pos + id_words(id, uuid).len() <= ws.len(),
        ws.subrange(pos, pos + id_words(id, uuid).len()) == id_words(id, uuid),
    ensures
        decode_side(cam, enable, format, ws, pos) == Ok::<(Option<u32>, Option<u128>, int), VitaError>(
            (id, uuid, pos + id_words(id, uuid).len()),
        ),
{
    let w = id_words(id, uuid);
    assert forall|k: int| 0 <= k < w.len() implies ws[pos + k] == #[trigger] w[k] by {
        assert(ws.subrange(pos, pos + w.len())[k] == w[k]);
    }
    match id {
        Some(i) => {
            assert(ws[pos + 0] == w[0]);
            assert(ws[pos] == i);
        },
        None => match uuid {
            Some(u) => {
                lemma_u128_words(u);
                assert(ws[pos + 0] == w[0]);
                assert(ws[pos + 1] == w[1]);
                assert(ws[pos + 2] == w[2]);
                assert(ws[pos + 3] == w[3]);
                assert(ws[pos] == w[0]);
            },
            None => {},
        },
    }
}

proof fn lemma_decode_opt_set(o: Option<CifSetModel>, present: bool, l: Layout, ws: Seq<u32>, pos: int)
    requires
        opt_set_wf(o, l),
        present == o is Some,
        0 <= pos,
        pos + opt_set_words(o).len() <= ws.len(),
        ws.subrange(pos, pos + opt_set_words(o).len()) == opt_set_words(o),
    ensures
        decode_opt_set(present, ws, pos, l) == Ok::<(Option<CifSetModel>, int), VitaError>((o, pos + opt_set_words(o).len())),
{
    if let Some(s) = o {
        lemma_decode_set(s, ws, pos);
    }
}

/// A well-formed command, wherever it stands in a word sequence, parses back
/// to itself and ends where its wire form ends.
#[verifier::rlimit(40)]
pub proof fn lemma_decode_command(c: CommandModel, ack: bool, cancel: bool, ws: Seq<u32>, pos: int)
    requires
        command_wf(c, ack, cancel),
        0 <= pos,
        pos + command_words(c).len() <= ws.len(),
        ws.subrange(pos, pos + command_words(c).len()) == command_words(c),
    ensures
        decode_command(ws, pos, ack, cancel) == Ok::<(CommandModel, int), VitaError>((c, pos + command_words(c).len())),
{
    let h = seq![c.cam, c.message_id];
    let e = id_words(c.controllee_id, c.controllee_uuid);
    let r = id_words(c.controller_id, c.controller_uuid);
    let pw = payload_words(c.payload);
    assert(command_words(c) == ((h + e) + r) + pw);
    lemma_split(ws, pos, (h + e) + r, pw);
    lemma_split(ws, pos, h + e, r);
    lemma_split(ws, pos, h, e);
    assert(ws[pos] == c.cam && ws[pos + 1] == c.message_id) by {
        assert(ws.subrange(pos, pos + 2)[0] == h[0]);
        assert(ws.subrange(pos, pos + 2)[1] == h[1]);
    }
    lemma_decode_side(c.cam, CONTROLLEE_ENABLE, CONTROLLEE_FORMAT, c.controllee_id, c.controllee_uuid, ws, pos + 2);
    let at2 = pos + 2 + e.len() + r.len();
    lemma_decode_side(c.cam, CONTROLLER_ENABLE, CONTROLLER_FORMAT, c.controller_id, c.controller_uuid, ws, pos + 2 + e.len());
    match c.payload {
        PayloadModel::Control(s) => {
            lemma_decode_set(s, ws, at2);
        },
        PayloadModel::Cancellation(s) => {
            lemma_decode_set(s, ws, at2);
        },
        PayloadModel::QueryAck(s) => {
            lemma_decode_set(s, ws, at2);
        },
        PayloadModel::ValidationAck(w, er) => {
            lemma_split(ws, at2, opt_set_words(w), opt_set_words(er));
            lemma_decode_opt_set(w, bit(c.cam, WARNING), Layout::Ack, ws, at2);
            lemma_decode_opt_set(er, bit(c.cam, ERROR), Layout::Ack, ws, at2 + opt_set_words(w).len());
        },
        PayloadModel::ExecAck(w, er) => {
            lemma_split(ws, at2, opt_set_words(w), opt_set_words(er));
            lemma_decode_opt_set(w, bit(c.cam, WARNING), Layout::Ack, ws, at2);
            lemma_decode_opt_set(er, bit(c.cam, ERROR), Layout::Ack, ws, at2 + opt_set_words(w).len());
        },
    }
}

/// The ACK entry of field (`cif`, `b`): the error one if the EIF block has
/// it, else the warning one if the WIF block has it.
pub open spec fn ack_entry(w: Option<CifSetModel>, e: Option<CifSetModel>, cif: u8, b: u32) -> Option<(AckLevel, u32)> {
    match e {
        Some(es) if field_of(es, cif, b) is Some && field_of(es, cif, b)->0.len() == 1 => Some(
            (AckLevel::Error, field_of(es, cif, b)->0[0]),
        ),
        _ => match w {
            Some(ws) if field_of(ws, cif, b) is Some && field_of(ws, cif, b)->0.len() == 1 => Some(
                (AckLevel::Warning, field_of(ws, cif, b)->0[0]),
            ),
            _ => None,
        },
    }
}

impl Command {
    /// The control section; `Err(ControlOnly)` for another kind.
    pub fn control(&self) -> (r: Result<&CifSet, VitaError>)
        ensures
            self@.payload matches PayloadModel::Control(m) ==> (r matches Ok(c) && c@ == m),
            !(self@.payload is Control) ==> r == Err::<&CifSet, VitaError>(VitaError::ControlOnly),
    {
        match &self.payload {
            CommandPayload::Control(s) => Ok(s),
            _ => Err(VitaError::ControlOnly),
        }
    }

    /// The control section, to modify; `Err(ControlOnly)` for another kind.
    pub fn control_mut(&mut self) -> (r: Result<&mut CifSet, VitaError>)
        ensures
            old(self)@.payload matches PayloadModel::Control(m) ==> (r matches Ok(c) && c@ == m
                && final(self)@ == (CommandModel { payload: PayloadModel::Control(final(c)@), ..old(self)@ })),
            !(old(self)@.payload is Control) ==> r is Err && final(self)@ == old(self)@,
    {
        match &mut self.payload {
            CommandPayload::Control(s) => Ok(s),
            _ => Err(VitaError::ControlOnly),
        }
    }

    /// The cancellation section; `Err(CancellationOnly)` for another kind.
    pub fn cancellation(&self) -> (r: Result<&CifSet, VitaError>)
        ensures
            self@.payload matches PayloadModel::Cancellation(m) ==> (r matches Ok(c) && c@ == m),
            !(self@.payload is Cancellation) ==> r == Err::<&CifSet, VitaError>(VitaError::CancellationOnly),
    {
        match &self.payload {
            CommandPayload::Cancellation(s) => Ok(s),
            _ => Err(VitaError::CancellationOnly),
        }
    }

    /// The cancellation section, to modify; `Err(CancellationOnly)` for
    /// another kind.
    pub fn cancellation_mut(&mut self) -> (r: Result<&mut CifSet, VitaError>)
        ensures
            old(self)@.payload matches PayloadModel::Cancellation(m) ==> (r matches Ok(c) && c@ == m
                && final(self)@ == (CommandModel { payload: PayloadModel::Cancellation(final(c)@), ..old(self)@ })),
            !(old(self)@.payload is Cancellation) ==> r is Err && final(self)@ == old(self)@,
    {
        match &mut self.payload {
            CommandPayload::Cancellation(s) => Ok(s),
            _ => Err(VitaError::CancellationOnly),
        }
    }

    /// The query ACK section; `Err(QueryAckOnly)` for another kind.
    pub fn query_ack(&self) -> (r: Result<&CifSet, VitaError>)
        ensures
            self@.payload matches PayloadModel::QueryAck(m) ==> (r matches Ok(c) && c@ == m),
            !(self@.payload is QueryAck) ==> r == Err::<&CifSet, VitaError>(VitaError::QueryAckOnly),
    {
        match &self.payload {
            CommandPayload::QueryAck(s) => Ok(s),
            _ => Err(VitaError::QueryAckOnly),
        }
    }

    /// The query ACK section, to modify; `Err(QueryAckOnly)` for another kind.
    pub fn query_ack_mut(&mut self) -> (r: Result<&mut CifSet, VitaError>)
        ensures
            old(self)@.payload matches PayloadModel::QueryAck(m) ==> (r matches Ok(c) && c@ == m
                && final(self)@ == (CommandModel { payload: PayloadModel::QueryAck(final(c)@), ..old(self)@ })),
            !(old(self)@.payload is QueryAck) ==> r is Err && final(self)@ == old(self)@,
    {
        match &mut self.payload {
            CommandPayload::QueryAck(s) => Ok(s),
            _ => Err(VitaError::QueryAckOnly),
        }
    }

    /// The warning and error entry of field (`cif`, `b`) in a validation or
    /// execution ACK: the error entry where there is one, else the warning
    /// entry; `Err(ValidationAckOnly)` for other kinds.
    pub fn ack_field(&self, cif: u8, b: u32) -> (r: Result<Option<(AckLevel, AckResponse)>, VitaError>)
        requires
            payload_wf(self@.cam, self@.payload),
            cif <= 3,
            b < 32,
        ensures
            match self@.payload {
                PayloadModel::ValidationAck(w, e) => r matches Ok(o) && (match ack_entry(w, e, cif, b) {
                    Some((lv, x)) => o matches Some((l2, resp)) && l2 == lv && resp@ == x,
                    None => o is None,
                }),
                PayloadModel::ExecAck(w, e) => r matches Ok(o) && (match ack_entry(w, e, cif, b) {
                    Some((lv, x)) => o matches Some((l2, resp)) && l2 == lv && resp@ == x,
                    None => o is None,
                }),
                _ => r == Err::<Option<(AckLevel, AckResponse)>, VitaError>(VitaError::ValidationAckOnly),
            },
    {
        let a = match &self.payload {
            CommandPayload::ValidationAck(a) => a,
            CommandPayload::ExecAck(a) => a,
            _ => {
                return Err(VitaError::ValidationAckOnly);
            },
        };
        if let Some(es) = &a.eif {
            if let Some(v) = es.field(cif, b) {
                if v.len() == 1 {
                    return Ok(Some((AckLevel::Error, AckResponse::from_u32(v[0]))));
                }
            }
        }
        if let Some(ws) = &a.wif {
            if let Some(v) = ws.field(cif, b) {
                if v.len() == 1 {
                    return Ok(Some((AckLevel::Warning, AckResponse::from_u32(v[0]))));
                }
            }
        }
        Ok(None)
    }

    /// Sets or clears the warning or error entry of field (`cif`, `b`) in a
    /// validation or execution ACK. The section of `level` (WIF or EIF) is
    /// changed as [`CifSet::set_field`] changes it, an absent section being
    /// taken as empty; it is added where missing and an entry is set, and the
    /// CAM's warning or error bit is then set. Everything else, the section of
    /// the other level included, is kept. `Err(ValidationAckOnly)` for other
    /// kinds, the field errors of [`CifSet::set_field`] otherwise; on error
    /// nothing changes.
    pub fn set_ack_field(&mut self, level: AckLevel, cif: u8, b: u32, resp: Option<AckResponse>) -> (r: Result<(), VitaError>)
        requires
            payload_wf(old(self)@.cam, old(self)@.payload),
        ensures
            !is_ack_payload(old(self)@.payload) ==> r == Err::<(), VitaError>(VitaError::ValidationAckOnly) && final(self)@ == old(self)@,
            is_ack_payload(old(self)@.payload) ==> ({
                let sec = sec_or_empty(level_section(old(self)@.payload, level));
                let v = resp_words(resp);
                &&& (set_field_error(sec, cif, b, v) matches Some(e) ==> r == Err::<(), VitaError>(e) && final(self)@ == old(self)@)
                &&& (set_field_error(sec, cif, b, v) is None ==> {
                    let nsec = level_section(final(self)@.payload, level);
                    &&& r is Ok
                    &&& final(self)@ == (CommandModel {
                        cam: if resp is Some {
                            with_bit(old(self)@.cam, level_bit(level), true)
                        } else {
                            old(self)@.cam
                        },
                        payload: with_section(old(self)@.payload, level, nsec),
                        ..old(self)@
                    })
                    &&& (nsec is Some <==> (level_section(old(self)@.payload, level) is Some || resp is Some))
                    &&& field_set(sec, sec_or_empty(nsec), cif, b, v)
                })
            }),
            r is Ok ==> payload_wf(final(self)@.cam, final(self)@.payload),
    {
        let ghost old_cam = self.cam@;
        let ghost old_self = self@;
        let warn = matches!(level, AckLevel::Warning);
        let a = match &mut self.payload {
            CommandPayload::ValidationAck(a) => a,
            CommandPayload::ExecAck(a) => a,
            _ => {
                return Err(VitaError::ValidationAckOnly);
            },
        };
        let slot = if warn { &mut a.wif } else { &mut a.eif };
        let v: Option<Vec<u32>> = match resp {
            Some(x) => {
                let mut w: Vec<u32> = Vec::new();
                w.push(x.as_u32());
                Some(w)
            },
            None => None,
        };
        proof {
            if let Some(x) = resp {
                assert(v->0@ =~= seq![x@]);
            }
        }
        let created = slot.is_none();
        let fresh = CifSet::new(Layout::Ack);
        let mut sec = match slot.take() {
            Some(s) => s,
            None => fresh,
        };
        let ghost before = sec@;
        match sec.set_field(cif, b, v) {
            Ok(()) => {},
            Err(e) => {
                if !created {
                    *slot = Some(sec);
                }
                return Err(e);
            },
        }
        if !(created && resp.is_none()) {
            *slot = Some(sec);
        } else {
            proof {
                assert(field_of(before, cif, b) is None);
            }
        }
        if resp.is_some() {
            if warn {
                self.cam.set_warning();
            } else {
                self.cam.set_error();
            }
            proof {
                lemma_with_bit(old_cam, if warn { WARNING } else { ERROR }, true, WARNING);
                lemma_with_bit(old_cam, if warn { WARNING } else { ERROR }, true, ERROR);
            }
        }
        Ok(())
    }
}

/// Whether the payload is a validation or execution ACK.
pub open spec fn is_ack_payload(p: PayloadModel) -> bool {
    p is ValidationAck || p is ExecAck
}

/// The CAM bit that says a section of this level is present.
pub open spec fn level_bit(level: AckLevel) -> u32 {
    if level == AckLevel::Warning {
        WARNING
    } else {
        ERROR
    }
}

/// The WIF (warning) or EIF (error) section of an ACK payload.
pub open spec fn level_section(p: PayloadModel, level: AckLevel) -> Option<CifSetModel> {
    match p {
        PayloadModel::ValidationAck(w, e) => if level == AckLevel::Warning { w } else { e },
        PayloadModel::ExecAck(w, e) => if level == AckLevel::Warning { w } else { e },
        _ => None,
    }
}

/// The ACK payload with the section of `level` replaced by `s`.
pub open spec fn with_section(p: PayloadModel, level: AckLevel, s: Option<CifSetModel>) -> PayloadModel {
    match p {
        PayloadModel::ValidationAck(w, e) => if level == AckLevel::Warning {
            PayloadModel::ValidationAck(s, e)
        } else {
            PayloadModel::ValidationAck(w, s)
        },
        PayloadModel::ExecAck(w, e) => if level == AckLevel::Warning {
            PayloadModel::ExecAck(s, e)
        } else {
            PayloadModel::ExecAck(w, s)
        },
        _ => p,
    }
}

/// A section, or an empty ACK section where there is none.
pub open spec fn sec_or_empty(o: Option<CifSetModel>) -> CifSetModel {
    match o {
        Some(s) => s,
        None => CifSetModel { layout: Layout::Ack, ..CifSet::empty_spec() },
    }
}

/// The words of an ACK entry: the response as one word.
pub open spec fn resp_words(resp: Option<AckResponse>) -> Option<Seq<u32>> {
    match resp {
        Some(x) => Some(seq![x@]),
        None => None,
    }
}

proof fn lemma_words_u128(a: u32, b: u32, c: u32, d: u32)
    ensures
        u128_words(u128_of_words(a, b, c, d)) == seq![a, b, c, d],
{
    let u = u128_of_words(a, b, c, d);
    assert(((((a as u128) << 96u128) | ((b as u128) << 64u128) | ((c as u128) << 32u128) | (d as u128)) >> 96u128) as u32 == a
        && ((((a as u128) << 96u128) | ((b as u128) << 64u128) | ((c as u128) << 32u128) | (d as u128)) >> 64u128) as u32 == b
        && ((((a as u128) << 96u128) | ((b as u128) << 64u128) | ((c as u128) << 32u128) | (d as u128)) >> 32u128) as u32 == c
        && (((a as u128) << 96u128) | ((b as u128) << 64u128) | ((c as u128) << 32u128) | (d as u128)) as u32 == d) by (bit_vector);
    assert(u128_words(u) =~= seq![a, b, c, d]);
}

proof fn lemma_decode_side_sound(cam: u32, enable: u32, format: u32, ws: Seq<u32>, pos: int)
    requires
        0 <= pos <= ws.len(),
    ensures
        decode_side(cam, enable, format, ws, pos) matches Ok((i, u, e)) ==> pos <= e <= ws.len()
            && id_words(i, u) == ws.subrange(pos, e) && !(i is Some && u is Some),
{
    if let Ok((i, u, e)) = decode_side(cam, enable, format, ws, pos) {
        if let Some(x) = u {
            lemma_words_u128(ws[pos], ws[pos + 1], ws[pos + 2], ws[pos + 3]);
        }
        assert(id_words(i, u) =~= ws.subrange(pos, e));
    }
}

proof fn lemma_decode_opt_set_sound(present: bool, ws: Seq<u32>, pos: int, l: Layout)
    requires
        0 <= pos <= ws.len(),
    ensures
        decode_opt_set(present, ws, pos, l) matches Ok((o, e)) ==> pos <= e <= ws.len() && opt_set_words(o) == ws.subrange(pos, e),
{
    lemma_decode_set_sound(ws, pos, l);
    if !present {
        assert(ws.subrange(pos, pos) =~= Seq::<u32>::empty());
    }
}

proof fn lemma_decode_payload_sound(k: CommandKind, cam: u32, ws: Seq<u32>, pos: int)
    requires
        0 <= pos <= ws.len(),
    ensures
        decode_payload(k, cam, ws, pos) matches Ok((p, e)) ==> pos <= e <= ws.len() && payload_words(p) == ws.subrange(pos, e),
{
    lemma_decode_set_sound(ws, pos, Layout::Values);
    lemma_decode_set_sound(ws, pos, Layout::Indicators);
    lemma_decode_opt_set_sound(bit(cam, WARNING), ws, pos, Layout::Ack);
    if let Ok((w, at1)) = decode_opt_set(bit(cam, WARNING), ws, pos, Layout::Ack) {
        lemma_decode_opt_set_sound(bit(cam, ERROR), ws, at1, Layout::Ack);
        if let Ok((e, at2)) = decode_opt_set(bit(cam, ERROR), ws, at1, Layout::Ack) {
            assert(ws.subrange(pos, at2) =~= ws.subrange(pos, at1) + ws.subrange(at1, at2));
        }
    }
}

/// What a successful command parse yields is written back as exactly the
/// words it was read from.
pub proof fn lemma_decode_command_sound(ws: Seq<u32>, pos: int, ack: bool, cancel: bool)
    requires
        0 <= pos <= ws.len(),
    ensures
        decode_command(ws, pos, ack, cancel) matches Ok((c, e)) ==> pos <= e <= ws.len() && command_words(c) == ws.subrange(pos, e),
{
    if let Ok((c, e)) = decode_command(ws, pos, ack, cancel) {
        let cam = ws[pos];
        lemma_decode_side_sound(cam, CONTROLLEE_ENABLE, CONTROLLEE_FORMAT, ws, pos + 2);
        let (eid, euuid, at1) = decode_side(cam, CONTROLLEE_ENABLE, CONTROLLEE_FORMAT, ws, pos + 2)->Ok_0;
        lemma_decode_side_sound(cam, CONTROLLER_ENABLE, CONTROLLER_FORMAT, ws, at1);
        let (rid, ruuid, at2) = decode_side(cam, CONTROLLER_ENABLE, CONTROLLER_FORMAT, ws, at1)->Ok_0;
        let k = kind_for(cam, ack, cancel)->0;
        lemma_decode_payload_sound(k, cam, ws, at2);
        assert(ws.subrange(pos, e) =~= seq![ws[pos], ws[pos + 1]] + ws.subrange(pos + 2, at1) + ws.subrange(at1, at2) + ws.subrange(at2, e));
    }
}

} // verus!
