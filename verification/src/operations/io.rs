//! IOC, IN and OUT.

use vstd::prelude::*;

use super::Operation;
use crate::computer::{Computer, ComputerView, ExecutionFault};
use crate::io::io_device::{
    spec_drain_error, spec_drained_device, spec_drained_memory, DeviceError, IoDeviceView, IoMessage};
use crate::mix::instruction::Instruction;
use crate::mix::op_codes;

verus! {

/// The input and output operations: a message goes to the device that the
/// modification names.
pub struct Io {
    pub instruction: Instruction,
}

impl Io {
    /// The operation of `instruction`.
    pub fn new(instruction: &Instruction) -> (op: Io)
        ensures
            op.instruction == *instruction,
    {
        Io { instruction: *instruction }
    }

    /// Why no message can go out, if none can.
    pub open spec fn spec_refused(&self, pre: ComputerView) -> Option<ExecutionFault> {
        if !(op_codes::IOC <= self.instruction.operation <= op_codes::OUT) {
            Some(ExecutionFault::UnknownOp)
        } else if self.instruction.index_specification > 6 {
            Some(ExecutionFault::IndexSpec)
        } else if self.instruction.modification >= 19 {
            Some(ExecutionFault::Device(DeviceError::NoSuchDevice))
        } else {
            None
        }
    }

    /// The message that goes out: the operation and the address of the
    /// instruction.
    pub open spec fn spec_message(&self, pre: ComputerView) -> IoMessage {
        IoMessage {
            operation: self.instruction.operation,
            address: pre.spec_indexed_address(self.instruction) as isize,
        }
    }
}

impl Operation for Io {
    /// Besides what keeps the message from going out, whatever stops the
    /// device while it finishes what it was sent before.
    open spec fn spec_fault(&self, pre: ComputerView) -> Option<ExecutionFault> {
        if self.spec_refused(pre) is Some {
            self.spec_refused(pre)
        } else {
            match spec_drain_error(
                pre.io_devices[self.instruction.modification as int],
                pre.memory,
                pre.extension,
            ) {
                Some(e) => Some(ExecutionFault::Device(e)),
                None => None,
            }
        }
    }

    /// The processor waits until the device has worked through its mailbox,
    /// oldest message first; then the device is busy, with the new message
    /// alone in its mailbox. Where the device stops on the way, the new
    /// message is not sent.
    open spec fn spec_effect(&self, pre: ComputerView) -> ComputerView {
        if self.spec_refused(pre) is Some {
            pre
        } else {
            let slot = self.instruction.modification as int;
            let drained = spec_drained_device(pre.io_devices[slot], pre.memory, pre.extension);
            let memory = spec_drained_memory(pre.io_devices[slot], pre.memory, pre.extension);
            if spec_drain_error(pre.io_devices[slot], pre.memory, pre.extension) is Some {
                ComputerView { memory, io_devices: pre.io_devices.update(slot, drained), ..pre }
            } else {
                ComputerView {
                    memory,
                    io_devices: pre.io_devices.update(
                        slot,
                        IoDeviceView {
                            busy: true,
                            mailbox: drained.mailbox.push(self.spec_message(pre)),
                            ..drained
                        },
                    ),
                    ..pre
                }
            }
        }
    }

    open spec fn spec_increments(&self) -> bool {
        true
    }

    fn execute(&self, computer: &mut Computer) -> (r: Result<(), ExecutionFault>) {
        let operation = self.instruction.operation;
        if operation < op_codes::IOC || operation > op_codes::OUT {
            return Err(ExecutionFault::UnknownOp);
        }
        if self.instruction.index_specification > 6 {
            return Err(ExecutionFault::IndexSpec);
        }
        let slot = self.instruction.modification as usize;
        if slot >= 19 {
            return Err(ExecutionFault::Device(DeviceError::NoSuchDevice));
        }
        let address = computer.get_indexed_address_value(&self.instruction);
        let extension = computer.extension;
        let ghost views = computer@.io_devices;
        assert(views[slot as int].wf());
        let mut device = computer.io_devices.remove(slot);
        assert(device@ == views[slot as int]);
        let outcome = device.wait_ready(&mut computer.memory, &extension);
        let result = match outcome {
            Ok(()) => {
                device.set_busy();
                device.send(IoMessage { operation, address });
                Ok(())
            },
            Err(e) => Err(ExecutionFault::Device(e)),
        };
        let ghost after = device@;
        assert(after.kind == views[slot as int].kind);
        computer.io_devices.insert(slot, device);
        assert(computer@.io_devices =~= views.update(slot as int, after));
        result
    }

    fn should_increment_program_counter(&self) -> (r: bool) {
        true
    }
}

} // verus!
