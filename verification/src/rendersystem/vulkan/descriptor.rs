//! The transforms that every draw reads: the layout of the descriptor set
//! that names them, the pool the sets come from, and for each frame slot a
//! buffer the host writes them to and a set that points at it.

use crate::rendersystem::vulkan::api;
use crate::rendersystem::vulkan::command::{
    AllocationInfo,
    BufferInfo,
    Command,
    Driver,
    Handle,
    MemoryUsage,
    Object,
    ObjectKind,
};
use crate::rendersystem::vulkan::device::fresh;
use crate::rendersystem::vulkan::memory::HostBuffer;
use crate::rendersystem::vulkan::{State, FRAME_COUNT};
use vstd::prelude::*;

verus! {

/// The size in bytes of the transforms of one draw: the model, view and
/// projection matrices, each of four by four numbers of eight bytes.
pub const UNIFORM_DATA_SIZE: u64 = 384;

/// How many descriptor types the pool has descriptors of: the types 0 to 10.
pub const DESCRIPTOR_TYPE_COUNT: u32 = 11;

/// How many descriptors of each type the pool has.
pub const DESCRIPTORS_PER_TYPE: u32 = 1000;

/// The command that creates the uniform buffer at `buffer`.
pub open spec fn uniform_buffer_command(buffer: Handle) -> Command {
    Command::CreateBuffer {
        buffer,
        allocation: (buffer + 1) as Handle,
        buffer_info: BufferInfo {
            size: UNIFORM_DATA_SIZE,
            usage: api::BUFFER_USAGE_UNIFORM_BUFFER,
            sharing_mode: api::SHARING_MODE_EXCLUSIVE,
        },
        memory: AllocationInfo {
            usage: MemoryUsage::Unknown,
            required_flags: api::MEMORY_PROPERTY_HOST_VISIBLE | api::MEMORY_PROPERTY_HOST_COHERENT,
        },
    }
}

/// The commands that create `count` uniform buffers from the handle `first`
/// on: for each, its creation and the mapping of its memory.
pub open spec fn uniform_buffer_commands(first: int, count: nat) -> Seq<Command> {
    Seq::new(
        2 * count,
        |k: int|
            if k % 2 == 0 {
                uniform_buffer_command((first + k) as Handle)
            } else {
                Command::MapMemory { allocation: (first + k) as Handle }
            },
    )
}

/// The ledger entries of `count` buffers, each followed by its memory.
pub open spec fn buffer_objects(count: nat) -> Seq<Object> {
    Seq::new(
        2 * count,
        |k: int|
            Object {
                kind: if k % 2 == 0 {
                    ObjectKind::Buffer
                } else {
                    ObjectKind::Allocation
                },
                alive: true,
            },
    )
}

/// The commands that allocate a descriptor set for each of `buffers` from
/// the handle `first` on: for each, its allocation and the write that points
/// its binding 0 at the buffer.
pub open spec fn descriptor_set_commands(
    first: int,
    pool: Handle,
    layout: Handle,
    buffers: Seq<HostBuffer>,
) -> Seq<Command> {
    Seq::new(
        2 * buffers.len(),
        |k: int|
            if k % 2 == 0 {
                Command::AllocateDescriptorSet { set: (first + k / 2) as Handle, pool, layout }
            } else {
                Command::WriteDescriptorSet {
                    set: (first + k / 2) as Handle,
                    binding: 0,
                    buffer: buffers[k / 2].buffer.handle,
                    size: buffers[k / 2].buffer.size,
                }
            },
    )
}

impl State {
    /// Creates the descriptor set layout: one binding, a uniform buffer that
    /// the vertex stage reads.
    pub fn create_descriptor_layout(driver: &mut Driver) -> (layout: Handle)
        ensures
            layout == old(driver).objects().len(),
            final(driver).objects() == old(driver).objects().push(
                Object { kind: ObjectKind::DescriptorSetLayout, alive: true },
            ),
            final(driver).commands() == old(driver).commands().push(
                Command::CreateDescriptorSetLayout {
                    layout,
                    binding: 0,
                    descriptor_type: api::DESCRIPTOR_TYPE_UNIFORM_BUFFER,
                    descriptor_count: 1,
                    stage_flags: api::SHADER_STAGE_VERTEX,
                },
            ),
    {
        let layout = driver.create(ObjectKind::DescriptorSetLayout);
        driver.record(
            Command::CreateDescriptorSetLayout {
                layout,
                binding: 0,
                descriptor_type: api::DESCRIPTOR_TYPE_UNIFORM_BUFFER,
                descriptor_count: 1,
                stage_flags: api::SHADER_STAGE_VERTEX,
            },
        );
        layout
    }

    /// Creates the descriptor pool: a thousand descriptors of each of the
    /// eleven descriptor types, for as many sets as there are descriptors,
    /// and sets that can be freed one by one.
    pub fn create_descriptor_pool(driver: &mut Driver) -> (pool: Handle)
        ensures
            pool == old(driver).objects().len(),
            final(driver).objects() == old(driver).objects().push(
                Object { kind: ObjectKind::DescriptorPool, alive: true },
            ),
            final(driver).commands() == old(driver).commands().push(
                Command::CreateDescriptorPool {
                    pool,
                    flags: api::DESCRIPTOR_POOL_CREATE_FREE_DESCRIPTOR_SET,
                    max_sets: 11000,
                    type_count: DESCRIPTOR_TYPE_COUNT,
                    descriptor_count: DESCRIPTORS_PER_TYPE,
                },
            ),
    {
        let pool = driver.create(ObjectKind::DescriptorPool);
        driver.record(
            Command::CreateDescriptorPool {
                pool,
                flags: api::DESCRIPTOR_POOL_CREATE_FREE_DESCRIPTOR_SET,
                max_sets: DESCRIPTORS_PER_TYPE * DESCRIPTOR_TYPE_COUNT,
                type_count: DESCRIPTOR_TYPE_COUNT,
                descriptor_count: DESCRIPTORS_PER_TYPE,
            },
        );
        pool
    }

    /// Creates one uniform buffer for each frame slot, in memory that the
    /// host sees and need not flush, and maps each for good.
    pub fn allocate_uniform_buffers(driver: &mut Driver) -> (buffers: Vec<HostBuffer>)
        ensures
            buffers@.len() == FRAME_COUNT,
            forall|i: int|
                0 <= i < FRAME_COUNT ==> {
                    &&& (#[trigger] buffers@[i]).buffer.handle == old(driver).objects().len() + 2
                        * i
                    &&& buffers@[i].buffer.allocation == buffers@[i].buffer.handle + 1
                    &&& buffers@[i].buffer.size == UNIFORM_DATA_SIZE
                },
            final(driver).objects() == old(driver).objects() + buffer_objects(FRAME_COUNT as nat),
            final(driver).commands() == old(driver).commands() + uniform_buffer_commands(
                old(driver).objects().len() as int,
                FRAME_COUNT as nat,
            ),
    {
        let ghost first: int = driver.objects().len() as int;
        let ghost before = *driver;
        let mut buffers: Vec<HostBuffer> = Vec::new();
        let mut i: usize = 0;
        proof {
            assert(driver.objects() =~= before.objects() + buffer_objects(0));
            assert(driver.commands() =~= before.commands() + uniform_buffer_commands(first, 0));
        }
        while i < FRAME_COUNT
            invariant
                i <= FRAME_COUNT,
                first == before.objects().len(),
                buffers@.len() == i,
                forall|j: int|
                    0 <= j < i ==> {
                        &&& (#[trigger] buffers@[j]).buffer.handle == first + 2 * j
                        &&& buffers@[j].buffer.allocation == buffers@[j].buffer.handle + 1
                        &&& buffers@[j].buffer.size == UNIFORM_DATA_SIZE
                    },
                driver.objects() == before.objects() + buffer_objects(i as nat),
                driver.commands() == before.commands() + uniform_buffer_commands(first, i as nat),
            decreases FRAME_COUNT - i,
        {
            let buffer = HostBuffer::new(
                driver,
                UNIFORM_DATA_SIZE,
                api::BUFFER_USAGE_UNIFORM_BUFFER,
                api::MEMORY_PROPERTY_HOST_VISIBLE | api::MEMORY_PROPERTY_HOST_COHERENT,
            );
            buffers.push(buffer);
            i += 1;
            proof {
                assert(driver.objects() =~= before.objects() + buffer_objects(i as nat));
                assert(driver.commands() =~= before.commands() + uniform_buffer_commands(
                    first,
                    i as nat,
                ));
            }
        }
        buffers
    }

    /// Allocates a descriptor set for each of the uniform buffers from
    /// `pool`, with the layout `layout`, and points its binding at the
    /// buffer.
    pub fn allocate_descriptor_sets(
        driver: &mut Driver,
        layout: Handle,
        pool: Handle,
        uniform_buffers: &Vec<HostBuffer>,
    ) -> (sets: Vec<Handle>)
        requires
            old(driver).has(layout, ObjectKind::DescriptorSetLayout),
            old(driver).has(pool, ObjectKind::DescriptorPool),
            forall|i: int|
                0 <= i < uniform_buffers@.len() ==> (#[trigger] uniform_buffers@[i]).buffer.live_in(
                    old(driver),
                ),
        ensures
            sets@.len() == uniform_buffers@.len(),
            forall|i: int|
                0 <= i < sets@.len() ==> #[trigger] sets@[i] == old(driver).objects().len() + i,
            final(driver).objects() == old(driver).objects() + fresh(
                ObjectKind::DescriptorSet,
                uniform_buffers@.len(),
            ),
            final(driver).commands() == old(driver).commands() + descriptor_set_commands(
                old(driver).objects().len() as int,
                pool,
                layout,
                uniform_buffers@,
            ),
    {
        let ghost first: int = driver.objects().len() as int;
        let ghost before = *driver;
        let mut sets: Vec<Handle> = Vec::new();
        let mut i: usize = 0;
        proof {
            assert(driver.objects() =~= before.objects() + fresh(ObjectKind::DescriptorSet, 0));
            assert(driver.commands() =~= before.commands() + descriptor_set_commands(
                first,
                pool,
                layout,
                uniform_buffers@.take(0),
            ));
        }
        while i < uniform_buffers.len()
            invariant
                i <= uniform_buffers@.len(),
                first == before.objects().len(),
                sets@.len() == i,
                forall|j: int| 0 <= j < i ==> #[trigger] sets@[j] == first + j,
                driver.objects() == before.objects() + fresh(ObjectKind::DescriptorSet, i as nat),
                driver.commands() == before.commands() + descriptor_set_commands(
                    first,
                    pool,
                    layout,
                    uniform_buffers@.take(i as int),
                ),
            decreases uniform_buffers.len() - i,
        {
            let set = driver.create(ObjectKind::DescriptorSet);
            driver.record(Command::AllocateDescriptorSet { set, pool, layout });
            driver.record(
                Command::WriteDescriptorSet {
                    set,
                    binding: 0,
                    buffer: uniform_buffers[i].buffer.handle,
                    size: uniform_buffers[i].buffer.size,
                },
            );
            sets.push(set);
            i += 1;
            proof {
                assert(driver.objects() =~= before.objects() + fresh(
                    ObjectKind::DescriptorSet,
                    i as nat,
                ));
                assert(driver.commands() =~= before.commands() + descriptor_set_commands(
                    first,
                    pool,
                    layout,
                    uniform_buffers@.take(i as int),
                ));
            }
        }
        proof {
            assert(uniform_buffers@.take(i as int) =~= uniform_buffers@);
        }
        sets
    }
}

} // verus!
