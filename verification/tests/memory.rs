use intentrace::memory::{
    get_child_memory_break, get_mem_difference_from_previous, where_in_childs_memory,
    MemoryRegion, ProcessBreakState,
};

#[test]
fn the_break_grew_by_two_pages() {
    assert_eq!(get_mem_difference_from_previous(0x1000, 0x3000), 0x2000);
    let mut state = ProcessBreakState::new();
    state.capture(0x1000);
    assert_eq!(state.delta(0x3000), Some(0x2000));
}

#[test]
fn the_break_shrank() {
    assert_eq!(get_mem_difference_from_previous(0x3000, 0x1000), -0x2000);
    assert_eq!(get_mem_difference_from_previous(1, 0), -1);
    let mut state = ProcessBreakState::new();
    state.capture(0x5000);
    assert_eq!(state.delta(0x4000), Some(-0x1000));
}

#[test]
fn the_break_did_not_move() {
    assert_eq!(get_mem_difference_from_previous(0, 0), 0);
    assert_eq!(get_mem_difference_from_previous(0x7000, 0x7000), 0);
    assert_eq!(get_mem_difference_from_previous(usize::MAX, usize::MAX), 0);
}

#[test]
fn differences_at_the_ends_of_the_range() {
    let most = isize::MAX as usize;
    assert_eq!(get_mem_difference_from_previous(0, most), isize::MAX);
    assert_eq!(get_mem_difference_from_previous(most, 0), -isize::MAX);
    assert_eq!(get_mem_difference_from_previous(most + 1, 0), isize::MIN);
    assert_eq!(get_mem_difference_from_previous(usize::MAX, most), isize::MIN);
}

#[test]
fn a_fresh_state_has_a_baseline_of_zero() {
    let state = ProcessBreakState::new();
    assert_eq!(state.baseline, 0);
    assert_eq!(state.delta(0x2000), Some(0x2000));
}

#[test]
fn capture_replaces_the_baseline() {
    let mut state = ProcessBreakState::new();
    state.capture(0x1000);
    state.capture(0x9000);
    assert_eq!(state.baseline, 0x9000);
    assert_eq!(state.delta(0xa000), Some(0x1000));
}

#[test]
fn a_distance_too_large_for_the_result_is_refused() {
    let most = isize::MAX as usize;
    let mut state = ProcessBreakState::new();
    assert_eq!(state.delta(most), Some(isize::MAX));
    assert_eq!(state.delta(most + 1), None);
    assert_eq!(state.delta(usize::MAX), None);
    state.capture(usize::MAX);
    assert_eq!(state.delta(0), None);
    assert_eq!(state.delta(most - 1), None);
    assert_eq!(state.delta(most), Some(isize::MIN));
    assert_eq!(state.delta(usize::MAX - 1), Some(-1));
}

fn region(start: u64, end: u64, is_stack: bool) -> MemoryRegion {
    MemoryRegion { start, end, is_stack }
}

#[test]
fn an_address_is_found_in_the_first_region_that_covers_it() {
    let maps = vec![
        region(0x1000, 0x1fff, false),
        region(0x3000, 0x4fff, false),
        region(0x4000, 0x5fff, true),
    ];
    assert_eq!(where_in_childs_memory(&maps, 0x1000), Some(maps[0]));
    assert_eq!(where_in_childs_memory(&maps, 0x1fff), Some(maps[0]));
    assert_eq!(where_in_childs_memory(&maps, 0x4800), Some(maps[1]));
    assert_eq!(where_in_childs_memory(&maps, 0x5000), Some(maps[2]));
    assert_eq!(where_in_childs_memory(&maps, 0x5fff), Some(maps[2]));
}

#[test]
fn an_address_outside_every_region_is_not_found() {
    let maps = vec![region(0x1000, 0x1fff, false), region(0x3000, 0x4fff, false)];
    assert_eq!(where_in_childs_memory(&maps, 0), None);
    assert_eq!(where_in_childs_memory(&maps, 0xfff), None);
    assert_eq!(where_in_childs_memory(&maps, 0x2000), None);
    assert_eq!(where_in_childs_memory(&maps, 0x5000), None);
    assert_eq!(where_in_childs_memory(&Vec::new(), 0x1000), None);
}

#[test]
fn the_stack_range_comes_with_the_baseline() {
    let mut state = ProcessBreakState::new();
    state.capture(0x55_0000);
    let maps = vec![
        region(0x1000, 0x1fff, false),
        region(0x7ffd_0000, 0x7ffe_0000, true),
        region(0x7fff_0000, 0x7fff_ffff, true),
    ];
    assert_eq!(get_child_memory_break(&state, &maps), (0x55_0000, (0x7ffd_0000, 0x7ffe_0000)));
}

#[test]
fn without_a_stack_the_range_is_empty() {
    let state = ProcessBreakState::new();
    let maps = vec![region(0x1000, 0x1fff, false)];
    assert_eq!(get_child_memory_break(&state, &maps), (0, (0, 0)));
    assert_eq!(get_child_memory_break(&state, &Vec::new()), (0, (0, 0)));
}
