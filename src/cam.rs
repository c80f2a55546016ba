//! The control/acknowledge mode word (CAM) of command packets.
use vstd::prelude::*;
use crate::bits::{bit, lemma_set_bit, lemma_clear_bit};
use crate::error::VitaError;

verus! {

/// Which form of identifier a controller or controllee uses.
#[derive(Clone, Copy, Debug, PartialEq, Eq, Hash, Structural)]
pub enum IdFormat {
    Id32bit,
    Uuid128bit,
}

/// The requested action (bits 24..23).
#[derive(Clone, Copy, Debug, PartialEq, Eq, Hash, Structural)]
pub enum ActionMode {
    NoAction,
    DryRun,
    Execute,
    Reserved,
}

/// When to act on the command's timestamp (bits 14..12).
#[derive(Clone, Copy, Debug, PartialEq, Eq, Hash, Structural)]
pub enum TimingControlMode {
    IgnoreTimestamp,
    DeviceExecutionOnly,
    LateAndSpecifiedExecution,
    EarlyAndSpecifiedExecution,
    PermittedEarlyOrLateExecution,
    Reserved,
}

pub const CONTROLLEE_ENABLE: u32 = 31;
pub const CONTROLLEE_FORMAT: u32 = 30;
pub const CONTROLLER_ENABLE: u32 = 29;
pub const CONTROLLER_FORMAT: u32 = 28;
pub const PARTIAL_PACKET_IMPL: u32 = 27;
pub const WARNINGS_PERMITTED: u32 = 26;
pub const ERRORS_PERMITTED: u32 = 25;
pub const NACK_ONLY: u32 = 22;
pub const VALIDATION: u32 = 20;
pub const EXECUTION: u32 = 19;
pub const STATE: u32 = 18;
pub const WARNING: u32 = 17;
pub const ERROR: u32 = 16;
pub const PARTIAL_ACTION_TAKEN: u32 = 11;
pub const SCHEDULED_OR_EXECUTED: u32 = 10;

/// `w` with bit `b` set to `v`.
pub open spec fn with_bit(w: u32, b: u32, v: bool) -> u32 {
    if v {
        w | (1u32 << b)
    } else {
        w & !(1u32 << b)
    }
}

/// Setting one bit leaves every other bit as it was.
pub proof fn lemma_with_bit(w: u32, b: u32, v: bool, i: u32)
    requires
        b < 32,
        i < 32,
    ensures
        bit(with_bit(w, b, v), i) == if i == b {
            v
        } else {
            bit(w, i)
        },
{
    if v {
        lemma_set_bit(w, b, i);
    } else {
        lemma_clear_bit(w, b, i);
    }
}

pub open spec fn action_code(m: ActionMode) -> u32 {
    match m {
        ActionMode::NoAction => 0,
        ActionMode::DryRun => 1,
        ActionMode::Execute => 2,
        ActionMode::Reserved => 3,
    }
}

pub open spec fn timing_code(m: TimingControlMode) -> u32 {
    match m {
        TimingControlMode::IgnoreTimestamp => 0,
        TimingControlMode::DeviceExecutionOnly => 1,
        TimingControlMode::LateAndSpecifiedExecution => 2,
        TimingControlMode::EarlyAndSpecifiedExecution => 3,
        TimingControlMode::PermittedEarlyOrLateExecution => 4,
        TimingControlMode::Reserved => 7,
    }
}

/// The CAM word.
#[derive(Clone, Copy, Debug, PartialEq, Eq, Hash, Default)]
pub struct ControlAckMode(u32);

impl View for ControlAckMode {
    type V = u32;

    closed spec fn view(&self) -> u32 {
        self.0
    }
}

impl ControlAckMode {
    /// A CAM with every bit clear.
    pub fn new() -> (r: ControlAckMode)
        ensures
            r@ == 0,
    {
        ControlAckMode(0)
    }

    /// The CAM holding word `w`.
    pub fn from_u32(w: u32) -> (r: ControlAckMode)
        ensures
            r@ == w,
    {
        ControlAckMode(w)
    }

    /// The CAM as a word.
    pub fn as_u32(&self) -> (r: u32)
        ensures
            r == self@,
    {
        self.0
    }

    /// The CAM occupies one word.
    pub fn size_words(&self) -> (r: u16)
        ensures
            r == 1,
    {
        1
    }

    fn get(&self, b: u32) -> (r: bool)
        requires
            b < 32,
        ensures
            r == bit(self@, b),
    {
        (self.0 >> b) & 1u32 == 1u32
    }

    fn put(&mut self, b: u32, v: bool)
        requires
            b < 32,
        ensures
            final(self)@ == with_bit(old(self)@, b, v),
    {
        if v {
            self.0 = self.0 | (1u32 << b);
        } else {
            self.0 = self.0 & !(1u32 << b);
        }
    }

    /// Whether a controllee identifier is present.
    pub fn controllee_enabled(&self) -> (r: bool)
        ensures r == bit(self@, CONTROLLEE_ENABLE),
    { self.get(CONTROLLEE_ENABLE) }

    /// Sets the controllee enable bit.
    pub fn enable_controllee(&mut self)
        ensures final(self)@ == with_bit(old(self)@, CONTROLLEE_ENABLE, true),
    { self.put(CONTROLLEE_ENABLE, true) }

    /// Clears the controllee enable bit.
    pub fn disable_controllee(&mut self)
        ensures final(self)@ == with_bit(old(self)@, CONTROLLEE_ENABLE, false),
    { self.put(CONTROLLEE_ENABLE, false) }

    /// The controllee identifier's format.
    pub fn controllee_id_format(&self) -> (r: IdFormat)
        ensures r == (if bit(self@, CONTROLLEE_FORMAT) { IdFormat::Uuid128bit } else { IdFormat::Id32bit }),
    {
        if self.get(CONTROLLEE_FORMAT) { IdFormat::Uuid128bit } else { IdFormat::Id32bit }
    }

    /// Sets the controllee identifier's format.
    pub fn set_controllee_id_format(&mut self, f: IdFormat)
        ensures final(self)@ == with_bit(old(self)@, CONTROLLEE_FORMAT, f == IdFormat::Uuid128bit),
    { self.put(CONTROLLEE_FORMAT, matches!(f, IdFormat::Uuid128bit)) }

    /// Whether a controller identifier is present.
    pub fn controller_enabled(&self) -> (r: bool)
        ensures r == bit(self@, CONTROLLER_ENABLE),
    { self.get(CONTROLLER_ENABLE) }

    /// Sets the controller enable bit.
    pub fn enable_controller(&mut self)
        ensures final(self)@ == with_bit(old(self)@, CONTROLLER_ENABLE, true),
    { self.put(CONTROLLER_ENABLE, true) }

    /// Clears the controller enable bit.
    pub fn disable_controller(&mut self)
        ensures final(self)@ == with_bit(old(self)@, CONTROLLER_ENABLE, false),
    { self.put(CONTROLLER_ENABLE, false) }

    /// The controller identifier's format.
    pub fn controller_id_format(&self) -> (r: IdFormat)
        ensures r == (if bit(self@, CONTROLLER_FORMAT) { IdFormat::Uuid128bit } else { IdFormat::Id32bit }),
    {
        if self.get(CONTROLLER_FORMAT) { IdFormat::Uuid128bit } else { IdFormat::Id32bit }
    }

    /// Sets the controller identifier's format.
    pub fn set_controller_id_format(&mut self, f: IdFormat)
        ensures final(self)@ == with_bit(old(self)@, CONTROLLER_FORMAT, f == IdFormat::Uuid128bit),
    { self.put(CONTROLLER_FORMAT, matches!(f, IdFormat::Uuid128bit)) }

    /// Whether a partial implementation of the packet is permitted.
    pub fn partial_packet_impl_permitted(&self) -> (r: bool)
        ensures r == bit(self@, PARTIAL_PACKET_IMPL),
    { self.get(PARTIAL_PACKET_IMPL) }

    /// Sets the partial packet impl permitted bit.
    pub fn set_partial_packet_impl_permitted(&mut self)
        ensures final(self)@ == with_bit(old(self)@, PARTIAL_PACKET_IMPL, true),
    { self.put(PARTIAL_PACKET_IMPL, true) }

    /// Clears the partial packet impl permitted bit.
    pub fn unset_partial_packet_impl_permitted(&mut self)
        ensures final(self)@ == with_bit(old(self)@, PARTIAL_PACKET_IMPL, false),
    { self.put(PARTIAL_PACKET_IMPL, false) }

    /// Whether warnings are permitted.
    pub fn warnings_permitted(&self) -> (r: bool)
        ensures r == bit(self@, WARNINGS_PERMITTED),
    { self.get(WARNINGS_PERMITTED) }

    /// Sets the warnings permitted bit.
    pub fn set_warnings_permitted(&mut self)
        ensures final(self)@ == with_bit(old(self)@, WARNINGS_PERMITTED, true),
    { self.put(WARNINGS_PERMITTED, true) }

    /// Clears the warnings permitted bit.
    pub fn unset_warnings_permitted(&mut self)
        ensures final(self)@ == with_bit(old(self)@, WARNINGS_PERMITTED, false),
    { self.put(WARNINGS_PERMITTED, false) }

    /// Whether errors are permitted.
    pub fn errors_permitted(&self) -> (r: bool)
        ensures r == bit(self@, ERRORS_PERMITTED),
    { self.get(ERRORS_PERMITTED) }

    /// Sets the errors permitted bit.
    pub fn set_errors_permitted(&mut self)
        ensures final(self)@ == with_bit(old(self)@, ERRORS_PERMITTED, true),
    { self.put(ERRORS_PERMITTED, true) }

    /// Clears the errors permitted bit.
    pub fn unset_errors_permitted(&mut self)
        ensures final(self)@ == with_bit(old(self)@, ERRORS_PERMITTED, false),
    { self.put(ERRORS_PERMITTED, false) }

    /// Whether only negative acknowledgements are requested.
    pub fn nack_only(&self) -> (r: bool)
        ensures r == bit(self@, NACK_ONLY),
    { self.get(NACK_ONLY) }

    /// Sets the nack only bit.
    pub fn set_nack_only(&mut self)
        ensures final(self)@ == with_bit(old(self)@, NACK_ONLY, true),
    { self.put(NACK_ONLY, true) }

    /// Clears the nack only bit.
    pub fn unset_nack_only(&mut self)
        ensures final(self)@ == with_bit(old(self)@, NACK_ONLY, false),
    { self.put(NACK_ONLY, false) }

    /// Whether a validation acknowledgement is requested (or, in an ACK, given).
    pub fn validation(&self) -> (r: bool)
        ensures r == bit(self@, VALIDATION),
    { self.get(VALIDATION) }

    /// Sets the validation bit.
    pub fn set_validation(&mut self)
        ensures final(self)@ == with_bit(old(self)@, VALIDATION, true),
    { self.put(VALIDATION, true) }

    /// Clears the validation bit.
    pub fn unset_validation(&mut self)
        ensures final(self)@ == with_bit(old(self)@, VALIDATION, false),
    { self.put(VALIDATION, false) }

    /// Whether an execution acknowledgement is requested (or given).
    pub fn execution(&self) -> (r: bool)
        ensures r == bit(self@, EXECUTION),
    { self.get(EXECUTION) }

    /// Sets the execution bit.
    pub fn set_execution(&mut self)
        ensures final(self)@ == with_bit(old(self)@, EXECUTION, true),
    { self.put(EXECUTION, true) }

    /// Clears the execution bit.
    pub fn unset_execution(&mut self)
        ensures final(self)@ == with_bit(old(self)@, EXECUTION, false),
    { self.put(EXECUTION, false) }

    /// Whether a state (query) acknowledgement is requested (or given).
    pub fn state(&self) -> (r: bool)
        ensures r == bit(self@, STATE),
    { self.get(STATE) }

    /// Sets the state bit.
    pub fn set_state(&mut self)
        ensures final(self)@ == with_bit(old(self)@, STATE, true),
    { self.put(STATE, true) }

    /// Clears the state bit.
    pub fn unset_state(&mut self)
        ensures final(self)@ == with_bit(old(self)@, STATE, false),
    { self.put(STATE, false) }

    /// Whether warnings are reported (an ACK then holds a WIF block).
    pub fn warning(&self) -> (r: bool)
        ensures r == bit(self@, WARNING),
    { self.get(WARNING) }

    /// Sets the warning bit.
    pub fn set_warning(&mut self)
        ensures final(self)@ == with_bit(old(self)@, WARNING, true),
    { self.put(WARNING, true) }

    /// Clears the warning bit.
    pub fn unset_warning(&mut self)
        ensures final(self)@ == with_bit(old(self)@, WARNING, false),
    { self.put(WARNING, false) }

    /// Whether errors are reported (an ACK then holds an EIF block).
    pub fn error(&self) -> (r: bool)
        ensures r == bit(self@, ERROR),
    { self.get(ERROR) }

    /// Sets the error bit.
    pub fn set_error(&mut self)
        ensures final(self)@ == with_bit(old(self)@, ERROR, true),
    { self.put(ERROR, true) }

    /// Clears the error bit.
    pub fn unset_error(&mut self)
        ensures final(self)@ == with_bit(old(self)@, ERROR, false),
    { self.put(ERROR, false) }

    /// Whether only part of the action was taken.
    pub fn partial_action_taken(&self) -> (r: bool)
        ensures r == bit(self@, PARTIAL_ACTION_TAKEN),
    { self.get(PARTIAL_ACTION_TAKEN) }

    /// Sets the partial action taken bit.
    pub fn set_partial_action_taken(&mut self)
        ensures final(self)@ == with_bit(old(self)@, PARTIAL_ACTION_TAKEN, true),
    { self.put(PARTIAL_ACTION_TAKEN, true) }

    /// Clears the partial action taken bit.
    pub fn unset_partial_action_taken(&mut self)
        ensures final(self)@ == with_bit(old(self)@, PARTIAL_ACTION_TAKEN, false),
    { self.put(PARTIAL_ACTION_TAKEN, false) }

    /// Whether the action was scheduled or executed.
    pub fn action_scheduled_or_executed(&self) -> (r: bool)
        ensures r == bit(self@, SCHEDULED_OR_EXECUTED),
    { self.get(SCHEDULED_OR_EXECUTED) }

    /// Sets the action scheduled or executed bit.
    pub fn set_action_scheduled_or_executed(&mut self)
        ensures final(self)@ == with_bit(old(self)@, SCHEDULED_OR_EXECUTED, true),
    { self.put(SCHEDULED_OR_EXECUTED, true) }

    /// Clears the action scheduled or executed bit.
    pub fn unset_action_scheduled_or_executed(&mut self)
        ensures final(self)@ == with_bit(old(self)@, SCHEDULED_OR_EXECUTED, false),
    { self.put(SCHEDULED_OR_EXECUTED, false) }

    /// The action mode of bits 24..23.
    pub fn action_mode(&self) -> (r: ActionMode)
        ensures
            action_code(r) == (self@ >> 23u32) & 3,
    {
        let w = self.0;
        let c = (w >> 23u32) & 3;
        if c == 0 {
            ActionMode::NoAction
        } else if c == 1 {
            ActionMode::DryRun
        } else if c == 2 {
            ActionMode::Execute
        } else {
            assert(c == 3) by (bit_vector) requires c == (w >> 23u32) & 3, c != 0, c != 1, c != 2;
            ActionMode::Reserved
        }
    }

    /// Writes the action mode; `Err(ReservedField)` for the reserved code,
    /// which leaves the CAM as it was.
    pub fn set_action_mode(&mut self, m: ActionMode) -> (r: Result<(), VitaError>)
        ensures
            m == ActionMode::Reserved ==> r == Err::<(), VitaError>(VitaError::ReservedField) && final(self)@ == old(self)@,
            m != ActionMode::Reserved ==> r is Ok && final(self)@ == (old(self)@ & !(3u32 << 23u32)) | (action_code(m) << 23u32),
            m != ActionMode::Reserved ==> (final(self)@ >> 23u32) & 3 == action_code(m),
    {
        let c: u32 = match m {
            ActionMode::NoAction => 0,
            ActionMode::DryRun => 1,
            ActionMode::Execute => 2,
            ActionMode::Reserved => {
                return Err(VitaError::ReservedField);
            },
        };
        let w = self.0;
        self.0 = (w & !(3u32 << 23u32)) | (c << 23u32);
        assert((((w & !(3u32 << 23u32)) | (c << 23u32)) >> 23u32) & 3 == c) by (bit_vector) requires c < 3;
        Ok(())
    }

    /// The timing control mode of bits 14..12; codes 5 to 7 read as `Reserved`.
    pub fn timing_control(&self) -> (r: TimingControlMode)
        ensures
            (self@ >> 12u32) & 7 < 5 ==> timing_code(r) == (self@ >> 12u32) & 7,
            (self@ >> 12u32) & 7 >= 5 ==> r == TimingControlMode::Reserved,
    {
        let c = (self.0 >> 12u32) & 7;
        if c == 0 {
            TimingControlMode::IgnoreTimestamp
        } else if c == 1 {
            TimingControlMode::DeviceExecutionOnly
        } else if c == 2 {
            TimingControlMode::LateAndSpecifiedExecution
        } else if c == 3 {
            TimingControlMode::EarlyAndSpecifiedExecution
        } else if c == 4 {
            TimingControlMode::PermittedEarlyOrLateExecution
        } else {
            TimingControlMode::Reserved
        }
    }

    /// Writes the timing control mode; `Err(ReservedField)` for `Reserved`,
    /// which leaves the CAM as it was.
    pub fn set_timing_control(&mut self, m: TimingControlMode) -> (r: Result<(), VitaError>)
        ensures
            m == TimingControlMode::Reserved ==> r == Err::<(), VitaError>(VitaError::ReservedField) && final(self)@ == old(self)@,
            m != TimingControlMode::Reserved ==> r is Ok && final(self)@ == (old(self)@ & !(7u32 << 12u32)) | (timing_code(m) << 12u32),
            m != TimingControlMode::Reserved ==> (final(self)@ >> 12u32) & 7 == timing_code(m),
    {
        let c: u32 = match m {
            TimingControlMode::IgnoreTimestamp => 0,
            TimingControlMode::DeviceExecutionOnly => 1,
            TimingControlMode::LateAndSpecifiedExecution => 2,
            TimingControlMode::EarlyAndSpecifiedExecution => 3,
            TimingControlMode::PermittedEarlyOrLateExecution => 4,
            TimingControlMode::Reserved => {
                return Err(VitaError::ReservedField);
            },
        };
        let w = self.0;
        self.0 = (w & !(7u32 << 12u32)) | (c << 12u32);
        assert((((w & !(7u32 << 12u32)) | (c << 12u32)) >> 12u32) & 7 == c) by (bit_vector) requires c < 5;
        Ok(())
    }
}

} // verus!
