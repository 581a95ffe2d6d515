//! The fences and semaphores that pace the frames: for each frame slot one
//! fence, one semaphore for the acquired image and one for the finished
//! rendering.

use crate::rendersystem::vulkan::command::{Command, Driver, Handle, ObjectKind};
use crate::rendersystem::vulkan::device::{fresh, handles_from};
use crate::rendersystem::vulkan::{State, FRAME_COUNT};
use vstd::prelude::*;

verus! {

/// The handles `first`, `first + 2`, ... : every second one, `count` of
/// them.
pub open spec fn alternate_handles(first: int, count: nat) -> Seq<Handle> {
    Seq::new(count, |i: int| (first + 2 * i) as Handle)
}

/// The commands that create `count` signaled fences under the handles from
/// `first` on.
pub open spec fn fence_commands(first: int, count: nat) -> Seq<Command> {
    Seq::new(count, |i: int| Command::CreateFence { fence: (first + i) as Handle, signaled: true })
}

/// The commands that create `count` semaphores under the handles from
/// `first` on.
pub open spec fn semaphore_commands(first: int, count: nat) -> Seq<Command> {
    Seq::new(count, |i: int| Command::CreateSemaphore { semaphore: (first + i) as Handle })
}

impl State {
    /// Creates one fence for each frame slot. Each starts signaled, so that
    /// the first wait for it does not block.
    pub fn create_fences(driver: &mut Driver) -> (fences: Vec<Handle>)
        ensures
            fences@ == handles_from(old(driver).objects().len() as int, FRAME_COUNT as nat),
            final(driver).objects() == old(driver).objects() + fresh(
                ObjectKind::Fence,
                FRAME_COUNT as nat,
            ),
            final(driver).commands() == old(driver).commands() + fence_commands(
                old(driver).objects().len() as int,
                FRAME_COUNT as nat,
            ),
    {
        let ghost first: int = driver.objects().len() as int;
        let ghost before = *driver;
        let mut fences: Vec<Handle> = Vec::new();
        let mut i: usize = 0;
        proof {
            assert(driver.objects() =~= before.objects() + fresh(ObjectKind::Fence, 0));
            assert(driver.commands() =~= before.commands() + fence_commands(first, 0));
        }
        while i < FRAME_COUNT
            invariant
                i <= FRAME_COUNT,
                first == before.objects().len(),
                fences@ == handles_from(first, i as nat),
                driver.objects() == before.objects() + fresh(ObjectKind::Fence, i as nat),
                driver.commands() == before.commands() + fence_commands(first, i as nat),
            decreases FRAME_COUNT - i,
        {
            let fence = driver.create(ObjectKind::Fence);
            driver.record(Command::CreateFence { fence, signaled: true });
            fences.push(fence);
            i += 1;
            proof {
                assert(fences@ =~= handles_from(first, i as nat));
                assert(driver.objects() =~= before.objects() + fresh(ObjectKind::Fence, i as nat));
                assert(driver.commands() =~= before.commands() + fence_commands(first, i as nat));
            }
        }
        fences
    }

    /// Creates two semaphores for each frame slot, in turn the one that is
    /// signaled when the slot's image was acquired and the one that is
    /// signaled when its rendering is complete. Returns the former, then the
    /// latter.
    pub fn create_semaphores(driver: &mut Driver) -> (semaphores: (Vec<Handle>, Vec<Handle>))
        ensures
            semaphores.0@ == alternate_handles(
                old(driver).objects().len() as int,
                FRAME_COUNT as nat,
            ),
            semaphores.1@ == alternate_handles(
                old(driver).objects().len() as int + 1,
                FRAME_COUNT as nat,
            ),
            final(driver).objects() == old(driver).objects() + fresh(
                ObjectKind::Semaphore,
                2 * FRAME_COUNT as nat,
            ),
            final(driver).commands() == old(driver).commands() + semaphore_commands(
                old(driver).objects().len() as int,
                2 * FRAME_COUNT as nat,
            ),
    {
        let ghost first: int = driver.objects().len() as int;
        let ghost before = *driver;
        let mut acquire_semaphores: Vec<Handle> = Vec::new();
        let mut complete_semaphores: Vec<Handle> = Vec::new();
        let mut i: usize = 0;
        proof {
            assert(driver.objects() =~= before.objects() + fresh(ObjectKind::Semaphore, 0));
            assert(driver.commands() =~= before.commands() + semaphore_commands(first, 0));
        }
        while i < FRAME_COUNT
            invariant
                i <= FRAME_COUNT,
                first == before.objects().len(),
                acquire_semaphores@ == alternate_handles(first, i as nat),
                complete_semaphores@ == alternate_handles(first + 1, i as nat),
                driver.objects() == before.objects() + fresh(ObjectKind::Semaphore, 2 * i as nat),
                driver.commands() == before.commands() + semaphore_commands(first, 2 * i as nat),
            decreases FRAME_COUNT - i,
        {
            let acquire = driver.create(ObjectKind::Semaphore);
            driver.record(Command::CreateSemaphore { semaphore: acquire });
            acquire_semaphores.push(acquire);
            let complete = driver.create(ObjectKind::Semaphore);
            driver.record(Command::CreateSemaphore { semaphore: complete });
            complete_semaphores.push(complete);
            i += 1;
            proof {
                assert(acquire_semaphores@ =~= alternate_handles(first, i as nat));
                assert(complete_semaphores@ =~= alternate_handles(first + 1, i as nat));
                assert(driver.objects() =~= before.objects() + fresh(
                    ObjectKind::Semaphore,
                    2 * i as nat,
                ));
                assert(driver.commands() =~= before.commands() + semaphore_commands(
                    first,
                    2 * i as nat,
                ));
            }
        }
        (acquire_semaphores, complete_semaphores)
    }
}

} // verus!
