//! Command pools of the two queues, each with the one command buffer that
//! the workload records, and the life cycle that guards re-recording.

use vstd::prelude::*;
use crate::device::Extent2D;
use crate::queue::QueueFamilies;
use crate::sync::{
    clear_sequence, copy_sequence, record_clear_commands, record_copy_commands, ClearColor,
    Command,
};

verus! {

/// Where a command buffer stands in its life cycle.
#[derive(Clone, Copy, Debug, PartialEq, Eq, Structural)]
pub enum BufferState {
    /// Reset (or new): nothing recorded.
    Initial,
    /// Recorded and ready to submit.
    Executable,
    /// Submitted; its fence has not been seen signaled.
    Pending,
    /// Its fence was seen signaled.
    Complete,
}

/// A step out of order in a command buffer's life cycle.
#[derive(Clone, Copy, Debug, PartialEq, Eq, Structural)]
pub enum PoolError {
    /// A submission from the pool may still be running.
    StillPending,
    /// Recording needs a reset buffer.
    NotReset,
    /// Only a recorded buffer can be submitted.
    NotExecutable,
    /// Only a submitted buffer can complete.
    NotPending,
}

/// The life cycle of a pool's single command buffer and what was recorded
/// in it.
#[derive(Debug)]
pub struct Recording {
    state: BufferState,
    commands: Vec<Command>,
}

impl Recording {
    pub closed spec fn state(&self) -> BufferState {
        self.state
    }

    pub closed spec fn commands(&self) -> Seq<Command> {
        self.commands@
    }

    pub fn new() -> (r: Self)
        ensures
            r.state() == BufferState::Initial,
            r.commands() == Seq::<Command>::empty(),
    {
        Recording { state: BufferState::Initial, commands: Vec::new() }
    }

    /// The state of the buffer.
    pub fn state_now(&self) -> (r: BufferState)
        ensures
            r == self.state(),
    {
        self.state
    }

    /// Returns the buffer to `Initial`, unless its last submission may still
    /// run.
    pub fn reset(&mut self) -> (r: Result<(), PoolError>)
        ensures
            old(self).state() == BufferState::Pending ==> r == Err::<(), PoolError>(
                PoolError::StillPending,
            ) && final(self).state() == old(self).state() && final(self).commands() == old(self).commands(),
            old(self).state() != BufferState::Pending ==> r is Ok && final(self).state()
                == BufferState::Initial && final(self).commands() == Seq::<Command>::empty(),
    {
        if self.state == BufferState::Pending {
            return Err(PoolError::StillPending);
        }
        self.state = BufferState::Initial;
        self.commands = Vec::new();
        Ok(())
    }

    /// Stores a finished recording, if the buffer was reset.
    pub fn store(&mut self, commands: Vec<Command>) -> (r: Result<(), PoolError>)
        ensures
            old(self).state() == BufferState::Initial ==> r is Ok && final(self).state()
                == BufferState::Executable && final(self).commands() == commands@,
            old(self).state() != BufferState::Initial ==> r == Err::<(), PoolError>(
                PoolError::NotReset,
            ) && final(self).state() == old(self).state() && final(self).commands() == old(self).commands(),
    {
        if self.state != BufferState::Initial {
            return Err(PoolError::NotReset);
        }
        self.state = BufferState::Executable;
        self.commands = commands;
        Ok(())
    }

    /// Notes that the recorded buffer was submitted.
    pub fn mark_submitted(&mut self) -> (r: Result<(), PoolError>)
        ensures
            final(self).commands() == old(self).commands(),
            old(self).state() == BufferState::Executable ==> r is Ok && final(self).state()
                == BufferState::Pending,
            old(self).state() != BufferState::Executable ==> r == Err::<(), PoolError>(
                PoolError::NotExecutable,
            ) && final(self).state() == old(self).state(),
    {
        if self.state != BufferState::Executable {
            return Err(PoolError::NotExecutable);
        }
        self.state = BufferState::Pending;
        Ok(())
    }

    /// Notes that the fence of the buffer's submission was seen signaled.
    pub fn mark_complete(&mut self) -> (r: Result<(), PoolError>)
        ensures
            final(self).commands() == old(self).commands(),
            old(self).state() == BufferState::Pending ==> r is Ok && final(self).state()
                == BufferState::Complete,
            old(self).state() != BufferState::Pending ==> r == Err::<(), PoolError>(
                PoolError::NotPending,
            ) && final(self).state() == old(self).state(),
    {
        if self.state != BufferState::Pending {
            return Err(PoolError::NotPending);
        }
        self.state = BufferState::Complete;
        Ok(())
    }

    /// The recorded commands.
    pub fn commands_now(&self) -> (r: &Vec<Command>)
        ensures
            r@ == self.commands(),
    {
        &self.commands
    }
}

/// The transient pool of the compute family and its buffer that clears the
/// image. Handles are the driver's, as integers.
#[derive(Debug)]
pub struct ComputeCommandBufferPool {
    pub pool: u64,
    pub clear_img: u64,
    pub recording: Recording,
}

impl ComputeCommandBufferPool {
    /// A pool whose buffer has nothing recorded yet.
    pub fn create(pool: u64, clear_img: u64) -> (r: Self)
        ensures
            r.pool == pool,
            r.clear_img == clear_img,
            r.recording.state() == BufferState::Initial,
    {
        ComputeCommandBufferPool { pool, clear_img, recording: Recording::new() }
    }

    /// Resets the pool, unless its last submission may still run.
    pub fn reset(&mut self) -> (r: Result<(), PoolError>)
        ensures
            final(self).pool == old(self).pool,
            final(self).clear_img == old(self).clear_img,
            old(self).recording.state() == BufferState::Pending ==> r == Err::<(), PoolError>(
                PoolError::StillPending,
            ) && final(self).recording.state() == BufferState::Pending && final(self).recording.commands() == old(self).recording.commands(),
            old(self).recording.state() != BufferState::Pending ==> r is Ok && final(self).recording.state() == BufferState::Initial && final(self).recording.commands()
                == Seq::<Command>::empty(),
    {
        self.recording.reset()
    }

    /// Records the clear of `image` to `color` into the reset buffer.
    pub fn record_clear_img(&mut self, families: &QueueFamilies, image: u64, color: ClearColor) -> (r:
        Result<(), PoolError>)
        ensures
            final(self).pool == old(self).pool,
            final(self).clear_img == old(self).clear_img,
            old(self).recording.state() == BufferState::Initial ==> r is Ok && final(self).recording.state() == BufferState::Executable && final(self).recording.commands()
                == clear_sequence(families.compute_index(), families.transfer_index(), image, color),
            old(self).recording.state() != BufferState::Initial ==> r == Err::<(), PoolError>(
                PoolError::NotReset,
            ) && final(self).recording.state() == old(self).recording.state() && final(self).recording.commands() == old(self).recording.commands(),
    {
        if self.recording.state_now() != BufferState::Initial {
            return Err(PoolError::NotReset);
        }
        let commands = record_clear_commands(families, image, color);
        self.recording.store(commands)
    }
}

/// The transient pool of the transfer family and its buffer that copies the
/// image into the buffer. Handles are the driver's, as integers.
#[derive(Debug)]
pub struct TransferCommandBufferPool {
    pub pool: u64,
    pub copy_image_to_buffer: u64,
    pub recording: Recording,
}

impl TransferCommandBufferPool {
    /// A pool whose buffer has nothing recorded yet.
    pub fn create(pool: u64, copy_image_to_buffer: u64) -> (r: Self)
        ensures
            r.pool == pool,
            r.copy_image_to_buffer == copy_image_to_buffer,
            r.recording.state() == BufferState::Initial,
    {
        TransferCommandBufferPool { pool, copy_image_to_buffer, recording: Recording::new() }
    }

    /// Resets the pool, unless its last submission may still run.
    pub fn reset(&mut self) -> (r: Result<(), PoolError>)
        ensures
            final(self).pool == old(self).pool,
            final(self).copy_image_to_buffer == old(self).copy_image_to_buffer,
            old(self).recording.state() == BufferState::Pending ==> r == Err::<(), PoolError>(
                PoolError::StillPending,
            ) && final(self).recording.state() == BufferState::Pending && final(self).recording.commands() == old(self).recording.commands(),
            old(self).recording.state() != BufferState::Pending ==> r is Ok && final(self).recording.state() == BufferState::Initial && final(self).recording.commands()
                == Seq::<Command>::empty(),
    {
        self.recording.reset()
    }

    /// Records the copy of `src_image` into `dst_buffer` into the reset
    /// buffer.
    pub fn record_copy_img_to_buffer(
        &mut self,
        families: &QueueFamilies,
        src_image: u64,
        dst_buffer: u64,
        extent: Extent2D,
    ) -> (r: Result<(), PoolError>)
        ensures
            final(self).pool == old(self).pool,
            final(self).copy_image_to_buffer == old(self).copy_image_to_buffer,
            old(self).recording.state() == BufferState::Initial ==> r is Ok && final(self).recording.state() == BufferState::Executable && final(self).recording.commands()
                == copy_sequence(
                families.compute_index(),
                families.transfer_index(),
                src_image,
                dst_buffer,
                extent,
            ),
            old(self).recording.state() != BufferState::Initial ==> r == Err::<(), PoolError>(
                PoolError::NotReset,
            ) && final(self).recording.state() == old(self).recording.state() && final(self).recording.commands() == old(self).recording.commands(),
    {
        if self.recording.state_now() != BufferState::Initial {
            return Err(PoolError::NotReset);
        }
        let commands = record_copy_commands(families, src_image, dst_buffer, extent);
        self.recording.store(commands)
    }
}

} // verus!
