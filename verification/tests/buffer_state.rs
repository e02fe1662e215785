use particle_buffer::error::{BufferError, DeviceFailure, SubmitFailure};
use particle_buffer::record::{zeroed_records, ParticleRecord};
use particle_buffer::state::{BufferState, MAX_CAPACITY, START_CAPACITY};
use particle_buffer::transfer::Transfer;

/// A record that no append ever writes: what fresh device memory may hold.
fn garbage() -> ParticleRecord {
    ParticleRecord { position: [0xDEAD_BEEF, 0x1234_5678], velocity: [0xFFFF_FFFF, 0x8000_0001] }
}

/// A record as a simulation step might leave it.
fn moving(i: u32) -> ParticleRecord {
    ParticleRecord {
        position: [(i as f32 * 0.5).to_bits(), (i as f32 * -0.25).to_bits()],
        velocity: [1.0f32.to_bits(), (i as f32).to_bits()],
    }
}

/// Does on host memory what the manager does on the device: grows where needed,
/// uploads the zeroed staging records, and tells the account only afterwards.
/// Returns the capacity grown to, if any.
fn append_on_host(
    state: &mut BufferState,
    backing: &mut Vec<ParticleRecord>,
    count: u32,
) -> Result<Option<u64>, BufferError> {
    let target = state.growth_for(count)?;
    if let Some(new_capacity) = target {
        let mut fresh = vec![garbage(); new_capacity as usize];
        if let Some(copy) = state.migration() {
            assert!(copy.apply(backing, &mut fresh));
        }
        *backing = fresh;
        state.commit_grow(new_capacity);
    }
    if let Some(copy) = state.upload(count) {
        let staging = zeroed_records(count);
        assert!(copy.apply(&staging, backing));
    }
    state.commit_append(count);
    Ok(target)
}

fn fresh_backing() -> Vec<ParticleRecord> {
    vec![garbage(); START_CAPACITY as usize]
}

#[test]
fn starts_empty_with_start_capacity() {
    let state = BufferState::new();
    assert_eq!(START_CAPACITY, 1024);
    assert_eq!(state.size(), 0);
    assert_eq!(state.capacity(), 1024);
    assert_eq!(state.generation(), 0);
    assert_eq!(state.binding_generation(), 0);
    assert!(!state.is_poisoned());
}

#[test]
fn end_to_end_scenario() {
    let mut state = BufferState::new();
    let mut backing = fresh_backing();

    assert_eq!(append_on_host(&mut state, &mut backing, 500), Ok(None));
    assert_eq!(state.size(), 500);
    assert_eq!(state.capacity(), 1024);
    assert_eq!(state.generation(), 0);
    for i in 0..500 {
        assert_eq!(backing[i], ParticleRecord::zeroed());
    }
    assert_eq!(backing[500], garbage());

    // A simulation step moves the particles before the next append.
    for i in 0..500u32 {
        backing[i as usize] = moving(i);
    }

    assert_eq!(append_on_host(&mut state, &mut backing, 600), Ok(Some(2048)));
    assert_eq!(state.size(), 1100);
    assert_eq!(state.capacity(), 2048);
    assert_eq!(state.generation(), 1);
    assert_eq!(state.binding_generation(), 1);
    assert_eq!(backing.len(), 2048);
    for i in 0..500u32 {
        assert_eq!(backing[i as usize], moving(i));
    }
    for i in 500..1100 {
        assert_eq!(backing[i], ParticleRecord::zeroed());
    }
    assert_eq!(backing[1100], garbage());
}

#[test]
fn doubling_when_one_slot_is_missing() {
    let mut state = BufferState::new();
    let mut backing = fresh_backing();
    assert_eq!(append_on_host(&mut state, &mut backing, 1024), Ok(None));
    assert_eq!(state.size(), 1024);
    assert_eq!(state.growth_for(1), Ok(Some(2048)));
    assert_eq!(append_on_host(&mut state, &mut backing, 1), Ok(Some(2048)));
    assert_eq!(state.capacity(), 2048);
    assert_eq!(state.size(), 1025);
}

#[test]
fn request_larger_than_double_sets_the_capacity() {
    let mut state = BufferState::new();
    let mut backing = fresh_backing();
    assert_eq!(append_on_host(&mut state, &mut backing, 1000), Ok(None));
    assert_eq!(state.growth_for(2000), Ok(Some(3000)));
    assert_eq!(append_on_host(&mut state, &mut backing, 2000), Ok(Some(3000)));
    assert_eq!(state.capacity(), 3000);
    assert_eq!(state.size(), 3000);
}

#[test]
fn exact_fit_does_not_grow() {
    let mut state = BufferState::new();
    assert_eq!(state.growth_for(1024), Ok(None));
    state.commit_append(1000);
    assert_eq!(state.growth_for(24), Ok(None));
    assert_eq!(state.growth_for(25), Ok(Some(2048)));
}

#[test]
fn growth_happens_once_per_append_that_needs_it() {
    let mut state = BufferState::new();
    let mut backing = fresh_backing();
    let counts = [10u32, 1014, 1, 0, 5000, 3, 20000, 1];
    let mut expected_generation = 0u64;
    for count in counts {
        let needs = state.size() as u64 + count as u64 > state.capacity();
        let before = state.capacity();
        let grown = append_on_host(&mut state, &mut backing, count).unwrap();
        if needs {
            expected_generation += 1;
            assert!(grown.is_some());
            assert!(state.capacity() > before);
        } else {
            assert_eq!(grown, None);
            assert_eq!(state.capacity(), before);
        }
        assert_eq!(state.generation(), expected_generation);
        assert_eq!(state.binding_generation(), state.generation());
    }
    assert_eq!(expected_generation, 5);
}

#[test]
fn size_never_exceeds_capacity() {
    let mut state = BufferState::new();
    let mut backing = fresh_backing();
    let counts = [0u32, 1, 1023, 1, 2048, 7, 100000, 0, 96];
    let mut total = 0u32;
    for count in counts {
        append_on_host(&mut state, &mut backing, count).unwrap();
        total += count;
        assert_eq!(state.size(), total);
        assert!(state.size() as u64 <= state.capacity());
        assert_eq!(backing.len() as u64, state.capacity());
    }
}

#[test]
fn appending_nothing_changes_nothing() {
    let mut state = BufferState::new();
    let mut backing = fresh_backing();
    assert_eq!(state.upload(0), None);
    assert_eq!(append_on_host(&mut state, &mut backing, 0), Ok(None));
    assert_eq!(state.size(), 0);
    assert_eq!(state.capacity(), 1024);
    assert_eq!(backing, fresh_backing());
}

#[test]
fn size_is_stable_between_appends() {
    let mut state = BufferState::new();
    state.commit_append(37);
    let first = state.size();
    let second = state.size();
    let third = state.size();
    assert_eq!(first, 37);
    assert_eq!(first, second);
    assert_eq!(second, third);
}

#[test]
fn new_slots_are_particles_at_rest() {
    let mut state = BufferState::new();
    let mut backing = fresh_backing();
    append_on_host(&mut state, &mut backing, 3).unwrap();
    for record in &backing[0..3] {
        assert_eq!(f32::from_bits(record.position[0]), 0.0);
        assert_eq!(f32::from_bits(record.position[1]), 0.0);
        assert_eq!(f32::from_bits(record.velocity[0]), 0.0);
        assert_eq!(f32::from_bits(record.velocity[1]), 0.0);
    }
}

#[test]
fn migration_copies_the_populated_records_only() {
    let mut state = BufferState::new();
    assert_eq!(state.migration(), None);
    state.commit_append(300);
    assert_eq!(state.migration(), Some(Transfer { src_offset: 0, dst_offset: 0, count: 300 }));
}

#[test]
fn upload_goes_behind_the_populated_records() {
    let mut state = BufferState::new();
    state.commit_append(300);
    assert_eq!(state.upload(5), Some(Transfer { src_offset: 0, dst_offset: 300, count: 5 }));
    assert_eq!(state.upload(724), Some(Transfer { src_offset: 0, dst_offset: 300, count: 724 }));
    assert_eq!(state.upload(725), None);
}

#[test]
fn size_overflow_is_refused() {
    let mut state = BufferState::new();
    assert_eq!(state.growth_for(u32::MAX), Ok(Some(u32::MAX as u64)));
    state.commit_grow(u32::MAX as u64);
    state.commit_append(u32::MAX);
    assert_eq!(state.size(), u32::MAX);
    assert_eq!(state.growth_for(1), Err(BufferError::SizeOverflow));
    assert_eq!(state.growth_for(0), Ok(None));
    assert_eq!(state.size(), u32::MAX);
}

#[test]
fn capacity_stays_below_the_limit() {
    let mut state = BufferState::new();
    state.commit_grow(u32::MAX as u64 - 1);
    state.commit_append(u32::MAX - 1);
    assert_eq!(state.growth_for(1), Ok(Some(MAX_CAPACITY - 2)));
    assert_eq!(MAX_CAPACITY, 2 * (u32::MAX as u64));
}

#[test]
fn lost_buffer_refuses_appends() {
    let mut state = BufferState::new();
    state.commit_append(10);
    state.mark_lost();
    assert!(state.is_poisoned());
    assert_eq!(state.growth_for(1), Err(BufferError::Poisoned));
    assert_eq!(state.growth_for(0), Err(BufferError::Poisoned));
    assert_eq!(state.size(), 10);
    assert_eq!(state.capacity(), 1024);
}

#[test]
fn settled_growth_that_succeeded_grows() {
    let mut state = BufferState::new();
    state.commit_append(1000);
    let copy = state.migration();
    assert_eq!(state.settle_growth(3000, copy, Ok(())), Ok(()));
    assert_eq!(state.capacity(), 3000);
    assert_eq!(state.size(), 1000);
    assert_eq!(state.generation(), 1);
    assert_eq!(state.binding_generation(), 1);
    assert!(!state.is_poisoned());
}

#[test]
fn settled_growth_that_stopped_early_changes_nothing() {
    let failures = [
        (DeviceFailure::Allocation, BufferError::Allocation),
        (DeviceFailure::Copy(SubmitFailure::NotSubmitted), BufferError::Transfer),
        (DeviceFailure::Binding, BufferError::Binding),
    ];
    for (failure, error) in failures {
        let mut state = BufferState::new();
        state.commit_append(1000);
        let copy = state.migration();
        assert_eq!(state.settle_growth(3000, copy, Err(failure)), Err(error));
        assert_eq!(state.capacity(), 1024);
        assert_eq!(state.size(), 1000);
        assert_eq!(state.generation(), 0);
        assert_eq!(state.binding_generation(), 0);
        assert!(!state.is_poisoned());
        assert_eq!(state.growth_for(2000), Ok(Some(3000)));
    }
}

#[test]
fn settled_growth_whose_wait_failed_loses_the_buffer() {
    let mut state = BufferState::new();
    state.commit_append(1000);
    let copy = state.migration();
    let failure = DeviceFailure::Copy(SubmitFailure::WaitFailed);
    assert_eq!(state.settle_growth(3000, copy, Err(failure)), Err(BufferError::FenceWait));
    assert!(state.is_poisoned());
    assert_eq!(state.capacity(), 1024);
    assert_eq!(state.size(), 1000);
    assert_eq!(state.generation(), 0);
    assert_eq!(state.growth_for(1), Err(BufferError::Poisoned));
}

#[test]
fn settled_append_that_succeeded_extends() {
    let mut state = BufferState::new();
    state.commit_append(10);
    let copy = state.upload(5);
    assert_eq!(copy, Some(Transfer { src_offset: 0, dst_offset: 10, count: 5 }));
    assert_eq!(state.settle_append(5, copy, Ok(())), Ok(()));
    assert_eq!(state.size(), 15);
    assert_eq!(state.capacity(), 1024);
    assert_eq!(state.generation(), 0);
}

#[test]
fn settled_append_of_nothing_needs_no_copy() {
    let mut state = BufferState::new();
    state.commit_append(10);
    let copy = state.upload(0);
    assert_eq!(copy, None);
    assert_eq!(state.settle_append(0, copy, Ok(())), Ok(()));
    assert_eq!(state.size(), 10);
}

#[test]
fn settled_append_that_stopped_early_changes_nothing() {
    let failures = [
        (DeviceFailure::Allocation, BufferError::Allocation),
        (DeviceFailure::Copy(SubmitFailure::NotSubmitted), BufferError::Transfer),
    ];
    for (failure, error) in failures {
        let mut state = BufferState::new();
        state.commit_append(10);
        let copy = state.upload(5);
        assert_eq!(state.settle_append(5, copy, Err(failure)), Err(error));
        assert_eq!(state.size(), 10);
        assert_eq!(state.capacity(), 1024);
        assert!(!state.is_poisoned());
    }
}

#[test]
fn settled_append_whose_wait_failed_loses_the_buffer() {
    let mut state = BufferState::new();
    state.commit_append(10);
    let copy = state.upload(5);
    let failure = DeviceFailure::Copy(SubmitFailure::WaitFailed);
    assert_eq!(state.settle_append(5, copy, Err(failure)), Err(BufferError::FenceWait));
    assert!(state.is_poisoned());
    assert_eq!(state.size(), 10);
    assert_eq!(state.growth_for(0), Err(BufferError::Poisoned));
}

#[test]
fn each_failure_has_its_error() {
    assert_eq!(DeviceFailure::Allocation.error(), BufferError::Allocation);
    assert_eq!(DeviceFailure::Binding.error(), BufferError::Binding);
    assert_eq!(DeviceFailure::Copy(SubmitFailure::NotSubmitted).error(), BufferError::Transfer);
    assert_eq!(DeviceFailure::Copy(SubmitFailure::WaitFailed).error(), BufferError::FenceWait);
    assert!(DeviceFailure::Copy(SubmitFailure::WaitFailed).loses_contents());
    assert!(!DeviceFailure::Copy(SubmitFailure::NotSubmitted).loses_contents());
    assert!(!DeviceFailure::Allocation.loses_contents());
    assert!(!DeviceFailure::Binding.loses_contents());
}
