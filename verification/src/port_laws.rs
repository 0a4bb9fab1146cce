//! What holds of the port handshake, whatever the controller answers.

use crate::port::{
    shows, step_of, HandshakeStep, PortAction, PortEvent, PortTransfer, Transfer, Waiting, EC_DATA,
    EC_SC, EC_SC_IBF, EC_SC_OBF, EC_SC_READ_CMD, EC_SC_WRITE_CMD, POLL_DELAY_MICROS, POLL_LIMIT,
};
use vstd::prelude::*;

verus! {

/// The state and the last action after one round of polling per status
/// byte: the byte is reported, then the end of the pause that follows it.
pub open spec fn poll_rounds(start: PortTransfer, statuses: Seq<u8>) -> (PortTransfer, PortAction)
    decreases statuses.len(),
{
    if statuses.len() == 0 {
        (start, PortAction::ReadPort { port: EC_SC })
    } else {
        let (before, _) = poll_rounds(start, statuses.drop_last());
        let (paused, _) = before.next(PortEvent::Byte(statuses.last()));
        paused.next(PortEvent::Slept)
    }
}

/// The transfer polls in the step it is in.
pub open spec fn polling(transfer: PortTransfer) -> bool {
    &&& transfer.waiting == Waiting::Status
    &&& (step_of(transfer.transfer, transfer.index as int) == Some(HandshakeStep::AwaitInputFree)
        || step_of(transfer.transfer, transfer.index as int) == Some(
        HandshakeStep::AwaitOutputFull,
    ))
}

/// A status byte that does not show the awaited bit is answered by a pause
/// of the set length.
pub proof fn lemma_busy_status_pauses(transfer: PortTransfer, status: u8)
    requires
        polling(transfer),
        transfer.polls < POLL_LIMIT,
        !shows(step_of(transfer.transfer, transfer.index as int), status),
    ensures
        transfer.next(PortEvent::Byte(status)).1 == (PortAction::Sleep {
            micros: POLL_DELAY_MICROS,
        }),
{
}

/// While the controller never shows the awaited bit, the transfer keeps
/// polling through fewer than `POLL_LIMIT` status reads, and fails at the
/// `POLL_LIMIT`-th: not sooner, and not later.
pub proof fn lemma_poll_exhaustion(start: PortTransfer, statuses: Seq<u8>)
    requires
        polling(start),
        start.polls == 0,
        statuses.len() <= POLL_LIMIT,
        forall|i: int|
            0 <= i < statuses.len() ==> !shows(
                step_of(start.transfer, start.index as int),
                #[trigger] statuses[i],
            ),
    ensures
        statuses.len() < POLL_LIMIT ==> poll_rounds(start, statuses) == (
            PortTransfer { polls: statuses.len() as u32, ..start },
            PortAction::ReadPort { port: EC_SC },
        ),
        statuses.len() == POLL_LIMIT ==> poll_rounds(start, statuses) == (
            PortTransfer { polls: POLL_LIMIT, waiting: Waiting::Closed, ..start },
            PortAction::Failed,
        ),
    decreases statuses.len(),
{
    if statuses.len() > 0 {
        let head = statuses.drop_last();
        assert forall|i: int| 0 <= i < head.len() implies !shows(
            step_of(start.transfer, start.index as int),
            #[trigger] head[i],
        ) by {
            assert(head[i] == statuses[i]);
        }
        lemma_poll_exhaustion(start, head);
        assert(statuses.last() == statuses[statuses.len() - 1]);
    }
}

/// A read whose status bytes all show the awaited bit runs through the six
/// steps of the handshake in order and ends with the byte that the data
/// port gave.
pub proof fn lemma_read_handshake(address: u8, free1: u8, free2: u8, full: u8, data: u8)
    requires
        free1 & EC_SC_IBF == 0,
        free2 & EC_SC_IBF == 0,
        full & EC_SC_OBF != 0,
    ensures
        ({
            let begin = PortTransfer {
                transfer: Transfer::Read { address },
                index: 0,
                polls: 0,
                waiting: Waiting::Start,
            };
            let (s0, a0) = begin.next(PortEvent::Start);
            let (s1, a1) = s0.next(PortEvent::Byte(free1));
            let (s2, a2) = s1.next(PortEvent::Written);
            let (s3, a3) = s2.next(PortEvent::Byte(free2));
            let (s4, a4) = s3.next(PortEvent::Written);
            let (s5, a5) = s4.next(PortEvent::Byte(full));
            let (s6, a6) = s5.next(PortEvent::Byte(data));
            &&& a0 == PortAction::ReadPort { port: EC_SC }
            &&& a1 == PortAction::WritePort { port: EC_SC, value: EC_SC_READ_CMD }
            &&& a2 == PortAction::ReadPort { port: EC_SC }
            &&& a3 == PortAction::WritePort { port: EC_DATA, value: address }
            &&& a4 == PortAction::ReadPort { port: EC_SC }
            &&& a5 == PortAction::ReadPort { port: EC_DATA }
            &&& a6 == PortAction::Done { read: Some(data) }
            &&& s6.waiting == Waiting::Closed
        }),
{
}

/// A write whose status bytes all show a free input buffer runs through the
/// six steps of the handshake in order and ends without a byte.
pub proof fn lemma_write_handshake(address: u8, value: u8, free1: u8, free2: u8, free3: u8)
    requires
        free1 & EC_SC_IBF == 0,
        free2 & EC_SC_IBF == 0,
        free3 & EC_SC_IBF == 0,
    ensures
        ({
            let begin = PortTransfer {
                transfer: Transfer::Write { address, value },
                index: 0,
                polls: 0,
                waiting: Waiting::Start,
            };
            let (s0, a0) = begin.next(PortEvent::Start);
            let (s1, a1) = s0.next(PortEvent::Byte(free1));
            let (s2, a2) = s1.next(PortEvent::Written);
            let (s3, a3) = s2.next(PortEvent::Byte(free2));
            let (s4, a4) = s3.next(PortEvent::Written);
            let (s5, a5) = s4.next(PortEvent::Byte(free3));
            let (s6, a6) = s5.next(PortEvent::Written);
            &&& a0 == PortAction::ReadPort { port: EC_SC }
            &&& a1 == PortAction::WritePort { port: EC_SC, value: EC_SC_WRITE_CMD }
            &&& a2 == PortAction::ReadPort { port: EC_SC }
            &&& a3 == PortAction::WritePort { port: EC_DATA, value: address }
            &&& a4 == PortAction::ReadPort { port: EC_SC }
            &&& a5 == PortAction::WritePort { port: EC_DATA, value }
            &&& a6 == PortAction::Done { read: None }
            &&& s6.waiting == Waiting::Closed
        }),
{
}

/// A transfer that is over stays over: every further event fails.
pub proof fn lemma_closed_stays_closed(transfer: PortTransfer, event: PortEvent)
    requires
        transfer.waiting == Waiting::Closed,
    ensures
        transfer.next(event) == (transfer, PortAction::Failed),
{
}

/// A fault at the port device fails the transfer, whatever it waited for.
pub proof fn lemma_fault_fails(transfer: PortTransfer)
    ensures
        transfer.next(PortEvent::Fault) == (transfer.closed(), PortAction::Failed),
{
}

/// A controller as it shows at its two ports, answering at once: what it
/// would do with the bytes of a handshake. It latches the command sent to
/// the command port and the address sent to the data port, and holds the
/// byte of a read until the data port is read.
pub struct PromptController {
    pub registers: Seq<u8>,
    pub command: Option<u8>,
    pub address: Option<u8>,
    pub output: Option<u8>,
}

impl PromptController {
    /// Nothing is latched and no byte waits to be read.
    pub open spec fn idle(self) -> bool {
        self.registers.len() == 256 && self.command is None && self.address is None
            && self.output is None
    }

    /// The status byte: the input buffer is always free, the output buffer
    /// full while a byte waits.
    pub open spec fn status(self) -> u8 {
        if self.output is Some {
            EC_SC_OBF
        } else {
            0
        }
    }

    /// The controller after `value` was written to `port`.
    pub open spec fn written(self, port: u16, value: u8) -> PromptController {
        if port == EC_SC {
            PromptController { command: Some(value), address: None, ..self }
        } else if self.command == Some(EC_SC_READ_CMD) {
            PromptController {
                output: Some(self.registers[value as int]),
                command: None,
                ..self
            }
        } else if self.command == Some(EC_SC_WRITE_CMD) {
            match self.address {
                None => PromptController { address: Some(value), ..self },
                Some(address) => PromptController {
                    registers: self.registers.update(address as int, value),
                    command: None,
                    address: None,
                    ..self
                },
            }
        } else {
            self
        }
    }

    /// The controller after the caller did what `action` asks, and the
    /// event to report.
    pub open spec fn answer(self, action: PortAction) -> (PromptController, PortEvent) {
        match action {
            PortAction::ReadPort { port } => if port == EC_SC {
                (self, PortEvent::Byte(self.status()))
            } else {
                match self.output {
                    Some(byte) => (
                        PromptController { output: None, ..self },
                        PortEvent::Byte(byte),
                    ),
                    None => (self, PortEvent::Fault),
                }
            },
            PortAction::WritePort { port, value } => (
                self.written(port, value),
                PortEvent::Written,
            ),
            PortAction::Sleep { .. } => (self, PortEvent::Slept),
            _ => (self, PortEvent::Fault),
        }
    }
}

/// The transfer, the controller and the last action after at most `steps`
/// exchanges that follow `action`.
pub open spec fn exchange(
    transfer: PortTransfer,
    controller: PromptController,
    action: PortAction,
    steps: nat,
) -> (PortTransfer, PromptController, PortAction)
    decreases steps,
{
    if steps == 0 || action is Done || action is Failed {
        (transfer, controller, action)
    } else {
        let (answered, event) = controller.answer(action);
        let (moved, following) = transfer.next(event);
        exchange(moved, answered, following, (steps - 1) as nat)
    }
}

/// A transfer run from its start against a controller.
pub open spec fn transferred(transfer: PortTransfer, controller: PromptController) -> (
    PortTransfer,
    PromptController,
    PortAction,
) {
    let (started, action) = transfer.next(PortEvent::Start);
    exchange(started, controller, action, 8)
}

/// A write through the ports to an idle controller that answers at once
/// stores the byte in the register and leaves the controller idle.
pub proof fn lemma_port_write(controller: PromptController, address: u8, value: u8)
    requires
        controller.idle(),
    ensures
        ({
            let begin = PortTransfer {
                transfer: Transfer::Write { address, value },
                index: 0,
                polls: 0,
                waiting: Waiting::Start,
            };
            let (_, after, action) = transferred(begin, controller);
            &&& action == PortAction::Done { read: None }
            &&& after.idle()
            &&& after.registers == controller.registers.update(address as int, value)
        }),
{
    reveal_with_fuel(exchange, 9);
    assert(0u8 & EC_SC_IBF == 0) by (bit_vector);
}

/// A read through the ports from an idle controller that answers at once
/// gives the byte that the register holds and leaves the controller as it
/// was.
pub proof fn lemma_port_read(controller: PromptController, address: u8)
    requires
        controller.idle(),
    ensures
        ({
            let begin = PortTransfer {
                transfer: Transfer::Read { address },
                index: 0,
                polls: 0,
                waiting: Waiting::Start,
            };
            let (_, after, action) = transferred(begin, controller);
            &&& action == PortAction::Done { read: Some(controller.registers[address as int]) }
            &&& after == controller
        }),
{
    reveal_with_fuel(exchange, 9);
    assert(0u8 & EC_SC_IBF == 0) by (bit_vector);
    assert(EC_SC_OBF & EC_SC_OBF != 0) by (bit_vector);
}

/// A byte written to a register through the ports is the byte read back
/// through the ports, with a controller that answers at once.
pub proof fn lemma_port_round_trip(controller: PromptController, address: u8, value: u8)
    requires
        controller.idle(),
    ensures
        ({
            let writing = PortTransfer {
                transfer: Transfer::Write { address, value },
                index: 0,
                polls: 0,
                waiting: Waiting::Start,
            };
            let reading = PortTransfer {
                transfer: Transfer::Read { address },
                index: 0,
                polls: 0,
                waiting: Waiting::Start,
            };
            let (_, stored, _) = transferred(writing, controller);
            let (_, _, action) = transferred(reading, stored);
            action == PortAction::Done { read: Some(value) }
        }),
{
    lemma_port_write(controller, address, value);
    let writing = PortTransfer {
        transfer: Transfer::Write { address, value },
        index: 0,
        polls: 0,
        waiting: Waiting::Start,
    };
    let (_, stored, _) = transferred(writing, controller);
    lemma_port_read(stored, address);
}

} // verus!
