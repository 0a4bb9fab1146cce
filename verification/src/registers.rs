//! The register file of the embedded controller and the operations that
//! change it.
//!
//! The controller exposes 256 byte-wide registers. An [`EcOp`] names one
//! change to one register; a plan is a sequence of them, carried out in
//! order. [`EcRegisters`] keeps such a register file in memory, so that a
//! plan can be tried without the hardware.

use crate::ec::EcError;
use vstd::prelude::*;

verus! {

/// The number of registers.
pub const REGISTER_COUNT: usize = 256;

/// One change to one register.
#[derive(Debug, Clone, Copy, PartialEq, Eq, Structural)]
pub enum EcOp {
    /// Store `value` in the register.
    Write { address: u8, value: u8 },
    /// Read the register, set or clear the bits of `mask` in what was read,
    /// and store the result. The other bits keep what they held.
    Update { address: u8, mask: u8, set: bool },
}

impl EcOp {
    /// The register the operation changes.
    pub open spec fn target(self) -> u8 {
        match self {
            EcOp::Write { address, .. } => address,
            EcOp::Update { address, .. } => address,
        }
    }

    /// What the register holds after the operation, if it held `current`
    /// before.
    pub open spec fn outcome(self, current: u8) -> u8 {
        match self {
            EcOp::Write { value, .. } => value,
            EcOp::Update { mask, set, .. } => if set {
                current | mask
            } else {
                current & !mask
            },
        }
    }

    /// The register the operation changes.
    pub fn address(&self) -> (address: u8)
        ensures
            address == self.target(),
    {
        match self {
            EcOp::Write { address, .. } => *address,
            EcOp::Update { address, .. } => *address,
        }
    }

    /// Whether the register has to be read before it is written.
    pub fn needs_read(&self) -> (needed: bool)
        ensures
            needed == (*self is Update),
    {
        match self {
            EcOp::Write { .. } => false,
            EcOp::Update { .. } => true,
        }
    }

    /// The byte to store, given what the register was read as: `None`
    /// where it was not read or could not be read. A write needs no read.
    /// An update without the byte read has no byte to store: the bits it
    /// is to keep are not known.
    pub fn resolve(&self, current: Option<u8>) -> (value: Option<u8>)
        ensures
            value == match (*self, current) {
                (EcOp::Update { .. }, None) => None,
                (EcOp::Write { value, .. }, None) => Some(value),
                (_, Some(byte)) => Some(self.outcome(byte)),
            },
    {
        match self {
            EcOp::Write { value, .. } => Some(*value),
            EcOp::Update { mask, set, .. } => match current {
                Some(held) => if *set {
                    Some(held | *mask)
                } else {
                    Some(held & !*mask)
                },
                None => None,
            },
        }
    }
}

/// The registers after one operation.
pub open spec fn apply_op(regs: Seq<u8>, op: EcOp) -> Seq<u8> {
    regs.update(op.target() as int, op.outcome(regs[op.target() as int]))
}

/// The registers after a plan has been carried out from its first
/// operation to its last.
pub open spec fn run(regs: Seq<u8>, plan: Seq<EcOp>) -> Seq<u8>
    decreases plan.len(),
{
    if plan.len() == 0 {
        regs
    } else {
        apply_op(run(regs, plan.drop_last()), plan.last())
    }
}

/// An in-memory register file.
#[derive(Debug)]
pub struct EcRegisters {
    cells: Vec<u8>,
}

impl Clone for EcRegisters {
    fn clone(&self) -> (copy: EcRegisters)
        ensures
            copy@ == self@,
    {
        proof {
            use_type_invariant(self);
        }
        EcRegisters { cells: self.cells.clone() }
    }
}

impl View for EcRegisters {
    type V = Seq<u8>;

    closed spec fn view(&self) -> Seq<u8> {
        self.cells@
    }
}

impl EcRegisters {
    #[verifier::type_invariant]
    spec fn holds_all_registers(self) -> bool {
        self.cells@.len() == REGISTER_COUNT
    }

    /// A register file in which every register holds zero.
    pub fn new() -> (regs: EcRegisters)
        ensures
            regs@ == Seq::new(REGISTER_COUNT as nat, |i: int| 0u8),
    {
        let mut cells: Vec<u8> = Vec::new();
        while cells.len() < REGISTER_COUNT
            invariant
                cells@.len() <= REGISTER_COUNT,
                forall|i: int| 0 <= i < cells@.len() ==> cells@[i] == 0,
            decreases REGISTER_COUNT - cells@.len(),
        {
            cells.push(0);
        }
        assert(cells@ =~= Seq::new(REGISTER_COUNT as nat, |i: int| 0u8));
        EcRegisters { cells }
    }

    /// The byte a register holds.
    pub fn read_byte(&self, address: u8) -> (value: u8)
        ensures
            self@.len() == REGISTER_COUNT,
            value == self@[address as int],
    {
        proof {
            use_type_invariant(self);
        }
        self.cells[address as usize]
    }

    /// Stores a byte in a register.
    pub fn write_byte(&mut self, address: u8, value: u8)
        ensures
            final(self)@ == old(self)@.update(address as int, value),
    {
        proof {
            use_type_invariant(&*self);
        }
        self.cells[address as usize] = value;
    }

    /// Carries out one operation.
    pub fn apply(&mut self, op: EcOp)
        ensures
            final(self)@ == apply_op(old(self)@, op),
    {
        let address = op.address();
        let current = self.read_byte(address);
        match op.resolve(Some(current)) {
            Some(value) => {
                self.write_byte(address, value);
            },
            None => {},
        }
    }

    /// Carries out a plan, from its first operation to its last.
    pub fn run(&mut self, plan: &Vec<EcOp>)
        ensures
            final(self)@ == run(old(self)@, plan@),
    {
        let mut done: usize = 0;
        while done < plan.len()
            invariant
                done <= plan.len(),
                self@ == run(old(self)@, plan@.take(done as int)),
            decreases plan.len() - done,
        {
            self.apply(plan[done]);
            proof {
                let next = plan@.take(done + 1);
                assert(next.drop_last() =~= plan@.take(done as int));
                assert(next.last() == plan@[done as int]);
            }
            done += 1;
        }
        assert(plan@.take(done as int) =~= plan@);
    }
}

/// The carrying out of a plan on a device that may fail.
///
/// The caller performs the pending operation and reports how it went, until
/// nothing is pending. An update is performed by reading its register and
/// writing what [`EcOp::resolve`] gives for the byte read; where that read
/// fails nothing is written, and the error of the read is reported through
/// `failed`. The first failure ends the execution: the operations before it
/// have taken effect and stay in effect, the failed one and those after it
/// have not.
#[derive(Debug)]
pub struct Execution {
    plan: Vec<EcOp>,
    done: usize,
    failure: Option<EcError>,
}

impl Execution {
    #[verifier::type_invariant]
    spec fn within_plan(self) -> bool {
        self.done <= self.plan@.len() && (self.failure is Some ==> self.done < self.plan@.len())
    }

    /// The plan that is carried out.
    pub closed spec fn plan(&self) -> Seq<EcOp> {
        self.plan@
    }

    /// The number of operations that have taken effect.
    pub closed spec fn completed(&self) -> nat {
        self.done as nat
    }

    /// The error that ended the execution, if one did.
    pub closed spec fn failure(&self) -> Option<EcError> {
        self.failure
    }

    /// The operations that have taken effect: the plan up to the first
    /// failure.
    pub open spec fn applied(&self) -> Seq<EcOp> {
        self.plan().take(self.completed() as int)
    }

    /// The operation to perform next: none after a failure or at the end of
    /// the plan.
    pub open spec fn awaited(&self) -> Option<EcOp> {
        if self.failure() is None && self.completed() < self.plan().len() {
            Some(self.plan()[self.completed() as int])
        } else {
            None
        }
    }

    /// An execution of `plan` in which nothing has been performed yet.
    pub fn new(plan: Vec<EcOp>) -> (execution: Execution)
        ensures
            execution.plan() == plan@,
            execution.completed() == 0,
            execution.failure() is None,
    {
        Execution { plan, done: 0, failure: None }
    }

    /// The operation to perform next, if any.
    pub fn pending(&self) -> (op: Option<EcOp>)
        ensures
            op == self.awaited(),
            self.completed() <= self.plan().len(),
    {
        proof {
            use_type_invariant(self);
        }
        if self.failure.is_none() && self.done < self.plan.len() {
            Some(self.plan[self.done])
        } else {
            None
        }
    }

    /// Takes in that the pending operation was performed. Without a pending
    /// operation nothing changes.
    pub fn succeeded(&mut self)
        ensures
            final(self).plan() == old(self).plan(),
            final(self).failure() == old(self).failure(),
            final(self).completed() == if old(self).awaited() is Some {
                old(self).completed() + 1
            } else {
                old(self).completed()
            },
    {
        proof {
            use_type_invariant(&*self);
        }
        if self.failure.is_none() && self.done < self.plan.len() {
            self.done = self.done + 1;
        }
    }

    /// Takes in that the pending operation failed with `error`, which ends
    /// the execution. Without a pending operation nothing changes.
    pub fn failed(&mut self, error: EcError)
        ensures
            final(self).plan() == old(self).plan(),
            final(self).completed() == old(self).completed(),
            final(self).failure() == if old(self).awaited() is Some {
                Some(error)
            } else {
                old(self).failure()
            },
            final(self).awaited() is None,
    {
        proof {
            use_type_invariant(&*self);
        }
        if self.failure.is_none() && self.done < self.plan.len() {
            self.failure = Some(error);
        }
    }

    /// How the execution ended: well, or with the index of the operation
    /// that failed and its error. `None` while an operation is pending.
    pub fn outcome(self) -> (result: Option<Result<(), (usize, EcError)>>)
        ensures
            match result {
                None => self.awaited() is Some,
                Some(Ok(())) => self.failure() is None && self.completed() == self.plan().len(),
                Some(Err((step, error))) => self.failure() == Some(error) && step
                    == self.completed() && step < self.plan().len(),
            },
    {
        proof {
            use_type_invariant(&self);
        }
        let finished = self.done >= self.plan.len();
        match self.failure {
            Some(error) => Some(Err((self.done, error))),
            None => if finished {
                Some(Ok(()))
            } else {
                None
            },
        }
    }
}

} // verus!
