use gfx_backend_gl::command::BufferState;
use gfx_backend_gl::command::Command;
use gfx_backend_gl::command::RawCommandPool;
use gfx_backend_gl::info::Info;
use gfx_backend_gl::info::Limits;
use gfx_backend_gl::info::PlatformName;
use gfx_backend_gl::info::PrivateCaps;
use gfx_backend_gl::info::Version;
use gfx_backend_gl::native::Semaphore;
use gfx_backend_gl::physical::PhysicalDevice;
use gfx_backend_gl::physical::Gpu;
use gfx_backend_gl::physical::QueueFamily;
use gfx_backend_gl::share::GlContainer;
use gfx_backend_gl::share::ShareCell;

const OWNER: u64 = 3;

fn open_session() -> (ShareCell, Gpu) {
    let (mut cell, adapter) = PhysicalDevice::new_adapter(
        GlContainer { context: 9 },
        Info {
            platform_name: PlatformName {
                vendor: String::from("acme"),
                renderer: String::from("emulated gl"),
            },
            version: Version::new(3, 3),
            shading_language: Version::new(3, 3),
            extensions: Vec::new(),
        },
        0,
        0,
        Limits { max_texture_size: 1024, max_viewports: 1, max_compute_group_count: 1 },
        PrivateCaps { vertex_array: true, map: false },
        1,
        OWNER,
    );
    let physical = adapter.physical_device;
    let families = vec![(QueueFamily, 1usize)];
    physical.open(&mut cell, &families, 0, OWNER).expect("open");
    let gpu = physical.build_gpu(&mut cell, &families, 1);
    (cell, gpu)
}

fn recorded(pool: &mut RawCommandPool, commands: &[Command]) -> usize {
    let idx = pool.allocate();
    pool.begin(idx);
    for cmd in commands {
        pool.record(idx, *cmd);
    }
    pool.finish(idx);
    idx
}

#[test]
fn batch_replays_buffers_in_recorded_order() {
    let (cell, gpu) = open_session();
    let mut pool = gpu.device.create_command_pool();
    let first = recorded(
        &mut pool,
        &[
            Command::BindPipeline { pipeline: 1 },
            Command::Draw { first_vertex: 0, vertex_count: 3 },
        ],
    );
    let second = recorded(
        &mut pool,
        &[
            Command::Barrier,
            Command::CopyBuffer { src: 1, dst: 2, size: 64 },
            Command::Dispatch { group_count: 4 },
        ],
    );
    let queue = &gpu.queue_groups[0].queues[0];
    let indices = vec![first, second];
    let mut waits: Vec<Semaphore> = Vec::new();
    let trace = queue.submit(&cell, OWNER, &mut pool, &indices, &mut waits);
    assert_eq!(
        trace,
        vec![
            Command::BindPipeline { pipeline: 1 },
            Command::Draw { first_vertex: 0, vertex_count: 3 },
            Command::Barrier,
            Command::CopyBuffer { src: 1, dst: 2, size: 64 },
            Command::Dispatch { group_count: 4 },
        ]
    );
    assert_eq!(pool.state_of(first), BufferState::Pending);
    assert_eq!(pool.state_of(second), BufferState::Pending);
}

#[test]
fn retire_signals_fence_and_semaphores_after_issuance() {
    let (cell, gpu) = open_session();
    let mut pool = gpu.device.create_command_pool();
    let idx = recorded(&mut pool, &[Command::Barrier]);
    let queue = &gpu.queue_groups[0].queues[0];

    // An earlier batch signals a semaphore when it is retired; a later
    // batch consumes it at submission.
    let mut no_waits: Vec<Semaphore> = Vec::new();
    let mut waits = vec![Semaphore::new()];
    let mut none_fence = None;
    let warm_up = vec![];
    queue.submit(&cell, OWNER, &mut pool, &warm_up, &mut no_waits);
    queue.retire(&mut pool, &warm_up, &mut waits, &mut none_fence);
    assert!(waits[0].is_signaled());

    let indices = vec![idx];
    let mut signals = vec![Semaphore::new()];
    let mut fence = Some(gpu.device.create_fence(false));
    queue.submit(&cell, OWNER, &mut pool, &indices, &mut waits);
    // Submission consumes the wait; the signals stay down until the
    // replay has been issued and the batch retires.
    assert!(!waits[0].is_signaled());
    assert!(!signals[0].is_signaled());
    assert!(!fence.as_ref().unwrap().is_signaled());
    queue.retire(&mut pool, &indices, &mut signals, &mut fence);
    assert!(signals[0].is_signaled());
    assert!(fence.unwrap().is_signaled());
}

#[test]
fn fence_reset_returns_it_to_unsignaled() {
    let (_cell, gpu) = open_session();
    let mut fence = gpu.device.create_fence(true);
    assert!(fence.is_signaled());
    fence.reset();
    assert!(!fence.is_signaled());
    let semaphore = gpu.device.create_semaphore();
    assert!(!semaphore.is_signaled());
}

#[test]
fn retire_returns_buffers_to_executable() {
    let (cell, gpu) = open_session();
    let mut pool = gpu.device.create_command_pool();
    let idx = recorded(&mut pool, &[Command::Dispatch { group_count: 2 }]);
    let queue = &gpu.queue_groups[0].queues[0];
    let indices = vec![idx];
    let mut waits: Vec<Semaphore> = Vec::new();
    let mut signals: Vec<Semaphore> = Vec::new();
    let mut fence = None;
    let trace = queue.submit(&cell, OWNER, &mut pool, &indices, &mut waits);
    assert_eq!(trace.len(), 1);
    assert_eq!(pool.state_of(idx), BufferState::Pending);
    queue.retire(&mut pool, &indices, &mut signals, &mut fence);
    assert_eq!(pool.state_of(idx), BufferState::Executable);
    // The retired buffer keeps its commands and may be submitted
    // again.
    let again = queue.submit(&cell, OWNER, &mut pool, &indices, &mut waits);
    assert_eq!(again, vec![Command::Dispatch { group_count: 2 }]);
}

#[test]
fn pool_reset_makes_buffers_rerecordable() {
    let (cell, gpu) = open_session();
    let mut pool = gpu.device.create_command_pool();
    let first = recorded(&mut pool, &[Command::Barrier, Command::Barrier]);
    let second = recorded(&mut pool, &[Command::Dispatch { group_count: 1 }]);
    let queue = &gpu.queue_groups[0].queues[0];
    let indices = vec![first, second];
    let mut waits: Vec<Semaphore> = Vec::new();
    let mut signals: Vec<Semaphore> = Vec::new();
    let mut fence = None;
    queue.submit(&cell, OWNER, &mut pool, &indices, &mut waits);
    // While the batch is pending, an embedding sees that the pool must
    // not be recycled.
    assert!(pool.any_pending());
    queue.retire(&mut pool, &indices, &mut signals, &mut fence);
    // No buffer is pending, so the pool may be recycled in one step.
    assert!(!pool.any_pending());
    pool.reset();
    assert_eq!(pool.len(), 2);
    assert_eq!(pool.state_of(first), BufferState::Initial);
    assert_eq!(pool.state_of(second), BufferState::Initial);
    assert_eq!(pool.buffer_commands_len(first), 0);
    // Re-recording after the bulk reset works.
    pool.begin(first);
    pool.record(first, Command::Draw { first_vertex: 1, vertex_count: 2 });
    pool.finish(first);
    let replay = vec![first];
    let trace = queue.submit(&cell, OWNER, &mut pool, &replay, &mut waits);
    assert_eq!(trace, vec![Command::Draw { first_vertex: 1, vertex_count: 2 }]);
}
