//! The program break of a traced process, and the layout of its memory.

use vstd::prelude::*;

verus! {

/// How far the program break moved over a call: `post_call_brk` less
/// `pre_call_brk`, positive where the heap grew.
pub fn get_mem_difference_from_previous(pre_call_brk: usize, post_call_brk: usize) -> (delta: isize)
    requires
        isize::MIN <= post_call_brk - pre_call_brk <= isize::MAX,
    ensures
        delta == post_call_brk - pre_call_brk,
{
    if post_call_brk >= pre_call_brk {
        (post_call_brk - pre_call_brk) as isize
    } else {
        let shrunk: usize = pre_call_brk - post_call_brk;
        -((shrunk - 1) as isize) - 1
    }
}

/// The program break of the traced process as it was just before the
/// latest call that could move it.
#[derive(Clone, Copy, Debug, PartialEq, Eq)]
pub struct ProcessBreakState {
    pub baseline: usize,
}

impl ProcessBreakState {
    /// The state before any break was captured: a baseline of 0.
    pub fn new() -> (state: ProcessBreakState)
        ensures
            state.baseline == 0,
    {
        ProcessBreakState { baseline: 0 }
    }

    /// Takes `pre_call_brk` as the new baseline.
    pub fn capture(&mut self, pre_call_brk: usize)
        ensures
            final(self).baseline == pre_call_brk,
    {
        self.baseline = pre_call_brk;
    }

    /// How far the break has moved from the baseline, or `None` where the
    /// distance does not fit the result.
    pub fn delta(&self, post_call_brk: usize) -> (delta: Option<isize>)
        ensures
            delta is Some <==> isize::MIN <= post_call_brk - self.baseline <= isize::MAX,
            delta is Some ==> delta->0 == post_call_brk - self.baseline,
    {
        if post_call_brk >= self.baseline {
            if post_call_brk - self.baseline <= isize::MAX as usize {
                Some(get_mem_difference_from_previous(self.baseline, post_call_brk))
            } else {
                None
            }
        } else if self.baseline - post_call_brk - 1 <= isize::MAX as usize {
            Some(get_mem_difference_from_previous(self.baseline, post_call_brk))
        } else {
            None
        }
    }
}

/// One mapping of a process's address space: the addresses it covers, both
/// ends included, and whether it is the stack.
#[derive(Clone, Copy, Debug, PartialEq, Eq)]
pub struct MemoryRegion {
    pub start: u64,
    pub end: u64,
    pub is_stack: bool,
}

impl MemoryRegion {
    /// Whether `address` lies in the region.
    pub open spec fn covers(self, address: u64) -> bool {
        self.start <= address <= self.end
    }
}

/// The first of `maps` that covers `address`, if any does.
pub open spec fn first_covering(maps: Seq<MemoryRegion>, address: u64) -> Option<MemoryRegion>
    decreases maps.len(),
{
    if maps.len() == 0 {
        None
    } else if maps[0].covers(address) {
        Some(maps[0])
    } else {
        first_covering(maps.drop_first(), address)
    }
}

/// Finds the mapping that `address` lies in.
pub fn where_in_childs_memory(maps: &Vec<MemoryRegion>, address: u64) -> (found: Option<
    MemoryRegion,
>)
    ensures
        found == first_covering(maps@, address),
{
    let mut i: usize = 0;
    assert(maps@.skip(0) == maps@);
    while i < maps.len()
        invariant
            i <= maps.len(),
            first_covering(maps@, address) == first_covering(maps@.skip(i as int), address),
        decreases maps.len() - i,
    {
        let region: MemoryRegion = maps[i];
        if address >= region.start && address <= region.end {
            return Some(region);
        }
        assert(maps@.skip(i as int).drop_first() == maps@.skip(i + 1));
        i += 1;
    }
    None
}

/// The address range of the first stack mapping in `maps`, or `(0, 0)`
/// where none of them is the stack.
pub open spec fn stack_range(maps: Seq<MemoryRegion>) -> (u64, u64)
    decreases maps.len(),
{
    if maps.len() == 0 {
        (0, 0)
    } else if maps[0].is_stack {
        (maps[0].start, maps[0].end)
    } else {
        stack_range(maps.drop_first())
    }
}

/// The break baseline together with the address range of the stack.
pub fn get_child_memory_break(state: &ProcessBreakState, maps: &Vec<MemoryRegion>) -> (found: (
    usize,
    (u64, u64),
))
    ensures
        found.0 == state.baseline,
        found.1 == stack_range(maps@),
{
    let mut i: usize = 0;
    assert(maps@.skip(0) == maps@);
    while i < maps.len()
        invariant
            i <= maps.len(),
            stack_range(maps@) == stack_range(maps@.skip(i as int)),
        decreases maps.len() - i,
    {
        let region: MemoryRegion = maps[i];
        if region.is_stack {
            return (state.baseline, (region.start, region.end));
        }
        assert(maps@.skip(i as int).drop_first() == maps@.skip(i + 1));
        i += 1;
    }
    (state.baseline, (0, 0))
}

} // verus!
