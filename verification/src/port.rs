//! The handshake that moves one byte to or from the embedded controller
//! over its two I/O ports.
//!
//! A [`PortTransfer`] decides; it touches no device. The caller starts it
//! with [`PortEvent::Start`], does what each [`PortAction`] asks of the port
//! device, and reports what happened as the next event, until the action is
//! `Done` or `Failed`.

use crate::ec::EcError;
use vstd::prelude::*;

verus! {

/// The status and command port.
pub const EC_SC: u16 = 0x66;

/// The data port.
pub const EC_DATA: u16 = 0x62;

/// The command that announces a register read.
pub const EC_SC_READ_CMD: u8 = 0x80;

/// The command that announces a register write.
pub const EC_SC_WRITE_CMD: u8 = 0x81;

/// Status bit: the controller has not yet taken the last byte sent to it.
pub const EC_SC_IBF: u8 = 0x02;

/// Status bit: the controller has a byte ready to be read.
pub const EC_SC_OBF: u8 = 0x01;

/// How often the status is read, at most, while waiting for one bit.
pub const POLL_LIMIT: u32 = 10_000;

/// The pause after a status read that did not show the awaited bit.
pub const POLL_DELAY_MICROS: u64 = 10;

/// The number of steps of a handshake.
pub const HANDSHAKE_STEPS: u8 = 6;

/// What is moved.
#[derive(Debug, Clone, Copy, PartialEq, Eq, Structural)]
pub enum Transfer {
    /// Read the register at `address`.
    Read { address: u8 },
    /// Write `value` to the register at `address`.
    Write { address: u8, value: u8 },
}

/// One step of a handshake.
#[derive(Debug, Clone, Copy, PartialEq, Eq, Structural)]
pub enum HandshakeStep {
    /// Poll the status until the input buffer is free.
    AwaitInputFree,
    /// Poll the status until the output buffer is full.
    AwaitOutputFull,
    /// Write `value` to `port`.
    Send { port: u16, value: u8 },
    /// Read the result from the data port.
    Receive,
}

/// What the caller is to do next.
#[derive(Debug, Clone, Copy, PartialEq, Eq, Structural)]
pub enum PortAction {
    /// Read one byte from `port` and report it as `PortEvent::Byte`.
    ReadPort { port: u16 },
    /// Write `value` to `port` and report `PortEvent::Written`.
    WritePort { port: u16, value: u8 },
    /// Pause for `micros` microseconds and report `PortEvent::Slept`.
    Sleep { micros: u64 },
    /// The transfer is complete; a read carries the byte read.
    Done { read: Option<u8> },
    /// The transfer failed.
    Failed,
}

/// What happened at the port device.
#[derive(Debug, Clone, Copy, PartialEq, Eq, Structural)]
pub enum PortEvent {
    /// Nothing yet: the transfer is to begin.
    Start,
    /// The byte that was read.
    Byte(u8),
    /// The byte was written.
    Written,
    /// The pause is over.
    Slept,
    /// The device could not be read or written.
    Fault,
}

/// What a transfer waits for.
#[derive(Debug, Clone, Copy, PartialEq, Eq, Structural)]
pub enum Waiting {
    Start,
    Status,
    Sleep,
    Write,
    Data,
    /// The transfer is over and accepts no further event.
    Closed,
}

/// The state of one transfer.
#[derive(Debug, Clone, Copy, PartialEq, Eq, Structural)]
pub struct PortTransfer {
    pub transfer: Transfer,
    /// The step in progress.
    pub index: u8,
    /// The status reads of the step in progress that did not show the
    /// awaited bit.
    pub polls: u32,
    pub waiting: Waiting,
}

/// The steps of a read: wait, announce the read, wait, name the register,
/// wait for the result, fetch it. The steps of a write: wait, announce the
/// write, wait, name the register, wait, hand over the value.
pub open spec fn step_of(transfer: Transfer, index: int) -> Option<HandshakeStep> {
    match transfer {
        Transfer::Read { address } => if index == 0 || index == 2 {
            Some(HandshakeStep::AwaitInputFree)
        } else if index == 1 {
            Some(HandshakeStep::Send { port: EC_SC, value: EC_SC_READ_CMD })
        } else if index == 3 {
            Some(HandshakeStep::Send { port: EC_DATA, value: address })
        } else if index == 4 {
            Some(HandshakeStep::AwaitOutputFull)
        } else if index == 5 {
            Some(HandshakeStep::Receive)
        } else {
            None
        },
        Transfer::Write { address, value } => if index == 0 || index == 2 || index == 4 {
            Some(HandshakeStep::AwaitInputFree)
        } else if index == 1 {
            Some(HandshakeStep::Send { port: EC_SC, value: EC_SC_WRITE_CMD })
        } else if index == 3 {
            Some(HandshakeStep::Send { port: EC_DATA, value: address })
        } else if index == 5 {
            Some(HandshakeStep::Send { port: EC_DATA, value })
        } else {
            None
        },
    }
}

/// Whether a status byte shows what a waiting step waits for.
pub open spec fn shows(step: Option<HandshakeStep>, status: u8) -> bool {
    match step {
        Some(HandshakeStep::AwaitInputFree) => status & EC_SC_IBF == 0,
        Some(HandshakeStep::AwaitOutputFull) => status & EC_SC_OBF != 0,
        _ => false,
    }
}

impl PortTransfer {
    /// The transfer once it is over.
    pub open spec fn closed(self) -> PortTransfer {
        PortTransfer { waiting: Waiting::Closed, ..self }
    }

    /// The state and the action on entering step `index`. Past the last
    /// step the transfer is done.
    pub open spec fn enter(self, index: int) -> (PortTransfer, PortAction) {
        let at = PortTransfer { index: index as u8, polls: 0, ..self };
        match step_of(self.transfer, index) {
            None => (at.closed(), PortAction::Done { read: None }),
            Some(HandshakeStep::Send { port, value }) => (
                PortTransfer { waiting: Waiting::Write, ..at },
                PortAction::WritePort { port, value },
            ),
            Some(HandshakeStep::Receive) => (
                PortTransfer { waiting: Waiting::Data, ..at },
                PortAction::ReadPort { port: EC_DATA },
            ),
            Some(_) => (
                PortTransfer { waiting: Waiting::Status, ..at },
                PortAction::ReadPort { port: EC_SC },
            ),
        }
    }

    /// The state and the action that follow an event.
    ///
    /// A status byte that shows the awaited bit moves on to the next step;
    /// one that does not is counted and followed by a pause. After the
    /// pause the status is read again, unless it has been read
    /// `POLL_LIMIT` times in this step: then the transfer fails. A fault,
    /// or an event that the transfer does not wait for, fails it too.
    pub open spec fn next(self, event: PortEvent) -> (PortTransfer, PortAction) {
        match (self.waiting, event) {
            (Waiting::Start, PortEvent::Start) => self.enter(0),
            (Waiting::Status, PortEvent::Byte(status)) => if shows(
                step_of(self.transfer, self.index as int),
                status,
            ) {
                self.enter(self.following())
            } else if self.polls < POLL_LIMIT {
                (
                    PortTransfer { polls: (self.polls + 1) as u32, waiting: Waiting::Sleep, ..self },
                    PortAction::Sleep { micros: POLL_DELAY_MICROS },
                )
            } else {
                (self.closed(), PortAction::Failed)
            },
            (Waiting::Sleep, PortEvent::Slept) => if self.polls < POLL_LIMIT {
                (
                    PortTransfer { waiting: Waiting::Status, ..self },
                    PortAction::ReadPort { port: EC_SC },
                )
            } else {
                (self.closed(), PortAction::Failed)
            },
            (Waiting::Write, PortEvent::Written) => self.enter(self.following()),
            (Waiting::Data, PortEvent::Byte(value)) => (
                self.closed(),
                PortAction::Done { read: Some(value) },
            ),
            _ => (self.closed(), PortAction::Failed),
        }
    }

    /// The index of the step after the one in progress. Past the last step
    /// there is none, and the index stays where it is.
    pub open spec fn following(self) -> int {
        if self.index < HANDSHAKE_STEPS {
            self.index + 1
        } else {
            HANDSHAKE_STEPS as int
        }
    }

    /// A transfer that reads the register at `address`.
    pub fn read(address: u8) -> (transfer: PortTransfer)
        ensures
            transfer == (PortTransfer {
                transfer: Transfer::Read { address },
                index: 0,
                polls: 0,
                waiting: Waiting::Start,
            }),
    {
        PortTransfer {
            transfer: Transfer::Read { address },
            index: 0,
            polls: 0,
            waiting: Waiting::Start,
        }
    }

    /// A transfer that writes `value` to the register at `address`.
    pub fn write(address: u8, value: u8) -> (transfer: PortTransfer)
        ensures
            transfer == (PortTransfer {
                transfer: Transfer::Write { address, value },
                index: 0,
                polls: 0,
                waiting: Waiting::Start,
            }),
    {
        PortTransfer {
            transfer: Transfer::Write { address, value },
            index: 0,
            polls: 0,
            waiting: Waiting::Start,
        }
    }

    /// The step at `index`, if the handshake has one there.
    pub fn step_at(&self, index: u8) -> (step: Option<HandshakeStep>)
        ensures
            step == step_of(self.transfer, index as int),
    {
        match self.transfer {
            Transfer::Read { address } => match index {
                0 | 2 => Some(HandshakeStep::AwaitInputFree),
                1 => Some(HandshakeStep::Send { port: EC_SC, value: EC_SC_READ_CMD }),
                3 => Some(HandshakeStep::Send { port: EC_DATA, value: address }),
                4 => Some(HandshakeStep::AwaitOutputFull),
                5 => Some(HandshakeStep::Receive),
                _ => None,
            },
            Transfer::Write { address, value } => match index {
                0 | 2 | 4 => Some(HandshakeStep::AwaitInputFree),
                1 => Some(HandshakeStep::Send { port: EC_SC, value: EC_SC_WRITE_CMD }),
                3 => Some(HandshakeStep::Send { port: EC_DATA, value: address }),
                5 => Some(HandshakeStep::Send { port: EC_DATA, value }),
                _ => None,
            },
        }
    }

    /// The index of the step after the one in progress.
    fn next_index(&self) -> (index: u8)
        ensures
            index == self.following(),
    {
        if self.index < HANDSHAKE_STEPS {
            self.index + 1
        } else {
            HANDSHAKE_STEPS
        }
    }

    /// Enters step `index` and says what to do there.
    fn begin_step(&mut self, index: u8) -> (action: PortAction)
        ensures
            (*final(self), action) == old(self).enter(index as int),
    {
        self.index = index;
        self.polls = 0;
        match self.step_at(index) {
            None => {
                self.waiting = Waiting::Closed;
                PortAction::Done { read: None }
            },
            Some(HandshakeStep::Send { port, value }) => {
                self.waiting = Waiting::Write;
                PortAction::WritePort { port, value }
            },
            Some(HandshakeStep::Receive) => {
                self.waiting = Waiting::Data;
                PortAction::ReadPort { port: EC_DATA }
            },
            Some(_) => {
                self.waiting = Waiting::Status;
                PortAction::ReadPort { port: EC_SC }
            },
        }
    }

    /// Closes the transfer as failed.
    fn fail(&mut self) -> (action: PortAction)
        ensures
            *final(self) == old(self).closed(),
            action == PortAction::Failed,
    {
        self.waiting = Waiting::Closed;
        PortAction::Failed
    }

    /// Takes in what happened at the port device and says what to do next.
    pub fn step(&mut self, event: PortEvent) -> (action: PortAction)
        ensures
            (*final(self), action) == old(self).next(event),
    {
        match (self.waiting, event) {
            (Waiting::Start, PortEvent::Start) => self.begin_step(0),
            (Waiting::Status, PortEvent::Byte(status)) => {
                let ready = match self.step_at(self.index) {
                    Some(HandshakeStep::AwaitInputFree) => status & EC_SC_IBF == 0,
                    Some(HandshakeStep::AwaitOutputFull) => status & EC_SC_OBF != 0,
                    _ => false,
                };
                if ready {
                    let following = self.next_index();
                    self.begin_step(following)
                } else if self.polls < POLL_LIMIT {
                    self.polls = self.polls + 1;
                    self.waiting = Waiting::Sleep;
                    PortAction::Sleep { micros: POLL_DELAY_MICROS }
                } else {
                    self.fail()
                }
            },
            (Waiting::Sleep, PortEvent::Slept) => {
                if self.polls < POLL_LIMIT {
                    self.waiting = Waiting::Status;
                    PortAction::ReadPort { port: EC_SC }
                } else {
                    self.fail()
                }
            },
            (Waiting::Write, PortEvent::Written) => {
                let following = self.next_index();
                self.begin_step(following)
            },
            (Waiting::Data, PortEvent::Byte(value)) => {
                self.waiting = Waiting::Closed;
                PortAction::Done { read: Some(value) }
            },
            _ => self.fail(),
        }
    }
}

impl PortAction {
    /// What the transfer came to, once it is over: the byte read, nothing
    /// for a write, or `IoFailed`. `None` while the transfer goes on.
    pub fn outcome(&self) -> (result: Option<Result<Option<u8>, EcError>>)
        ensures
            result == match *self {
                PortAction::Done { read } => Some(Ok::<Option<u8>, EcError>(read)),
                PortAction::Failed => Some(Err::<Option<u8>, EcError>(EcError::IoFailed)),
                _ => None,
            },
    {
        match self {
            PortAction::Done { read } => Some(Ok(*read)),
            PortAction::Failed => Some(Err(EcError::IoFailed)),
            _ => None,
        }
    }
}

} // verus!
