//! Turning an allocation of free space into a costmap: every cell of the
//! allocated boxes is free, every other cell is a lethal obstacle.
//!
//! The boxes come in cell coordinates; converting world coordinates into
//! cells is floating-point work done by the caller.
use vstd::prelude::*;
use std::collections::HashSet;

verus! {

broadcast use vstd::std_specs::hash::group_hash_axioms;

/// Cost of a cell the agent may use.
pub const FREE_SPACE: u8 = 0;

/// Cost of a cell the agent must not enter.
pub const LETHAL_OBSTACLE: u8 = 254;

/// A box of allocated cells, bounds inclusive, before clamping to the costmap.
#[derive(Clone, Copy, Debug, PartialEq, Eq, Structural)]
pub struct CellBox {
    pub start_x: i32,
    pub end_x: i32,
    pub start_y: i32,
    pub end_y: i32,
}

/// `v` raised to 0, then lowered to `size - 1` (so `-1` for an empty axis).
pub open spec fn clamped(v: int, size: int) -> int {
    let raised = if v < 0 { 0 } else { v };
    if raised > size - 1 { size - 1 } else { raised }
}

/// Whether the costmap cell with row-major index `i` (rows `size_x` wide)
/// lies in box `b` once `b` is clamped to a `size_x` by `size_y` costmap.
pub open spec fn box_covers(b: CellBox, size_x: u32, size_y: u32, i: int) -> bool {
    &&& size_x >= 1
    &&& clamped(b.start_x as int, size_x as int) <= i % (size_x as int) <= clamped(
        b.end_x as int,
        size_x as int,
    )
    &&& clamped(b.start_y as int, size_y as int) <= i / (size_x as int) <= clamped(
        b.end_y as int,
        size_y as int,
    )
}

/// Whether cell `i` lies in one of the boxes.
pub open spec fn cell_allocated(boxes: Seq<CellBox>, size_x: u32, size_y: u32, i: int) -> bool {
    exists|k: int| 0 <= k < boxes.len() && #[trigger] box_covers(boxes[k], size_x, size_y, i)
}

/// Whether the row-major indices of the cells of the clamped box fit in an `i32`.
pub open spec fn box_fits(b: CellBox, size_x: u32, size_y: u32) -> bool {
    let x0 = clamped(b.start_x as int, size_x as int);
    let x1 = clamped(b.end_x as int, size_x as int);
    let y0 = clamped(b.start_y as int, size_y as int);
    let y1 = clamped(b.end_y as int, size_y as int);
    x0 <= x1 && y0 <= y1 ==> y1 * size_x + x1 <= i32::MAX
}

/// `v` clamped to the cells `0..size` of one axis of the costmap.
pub fn clamp_cell(v: i32, size: u32) -> (c: i32)
    requires
        size <= i32::MAX,
    ensures
        c == clamped(v as int, size as int),
{
    let raised = if v < 0 { 0 } else { v };
    let top = size as i32 - 1;
    if raised > top { top } else { raised }
}

/// Whether every box's cell indices fit in an `i32`, as
/// [`allocated_costmap`] needs.
pub fn boxes_fit(size_x: u32, size_y: u32, boxes: &Vec<CellBox>) -> (fit: bool)
    requires
        size_x <= i32::MAX,
        size_y <= i32::MAX,
    ensures
        fit == forall|k: int| 0 <= k < boxes.len() ==> #[trigger] box_fits(boxes[k], size_x, size_y),
{
    let mut k: usize = 0;
    while k < boxes.len()
        invariant
            k <= boxes.len(),
            size_x <= i32::MAX,
            size_y <= i32::MAX,
            forall|j: int| 0 <= j < k ==> #[trigger] box_fits(boxes[j], size_x, size_y),
        decreases boxes.len() - k,
    {
        let b = boxes[k];
        let x0 = clamp_cell(b.start_x, size_x);
        let x1 = clamp_cell(b.end_x, size_x);
        let y0 = clamp_cell(b.start_y, size_y);
        let y1 = clamp_cell(b.end_y, size_y);
        if x0 <= x1 && y0 <= y1 {
            assert(-(i32::MAX as int) <= y1 * size_x <= i32::MAX * i32::MAX) by (nonlinear_arith)
                requires
                    -1 <= y1 <= i32::MAX,
                    0 <= size_x <= i32::MAX,
            ;
            let last = (y1 as i64) * (size_x as i64) + (x1 as i64);
            assert(last == y1 * size_x + x1);
            if last > i32::MAX as i64 {
                assert(!box_fits(boxes[k as int], size_x, size_y));
                return false;
            }
        }
        k += 1;
    }
    true
}

/// Cell index `y * size_x + x` lies at column `x` and row `y`.
proof fn lemma_cell_index(x: int, y: int, size_x: int)
    requires
        size_x >= 1,
        0 <= x < size_x,
    ensures
        (y * size_x + x) % size_x == x,
        (y * size_x + x) / size_x == y,
{
    vstd::arithmetic::div_mod::lemma_fundamental_div_mod_converse(y * size_x + x, size_x, y, x);
}

/// Adds the index of every cell of the clamped box to `safe`.
fn add_box_cells(safe: &mut HashSet<usize>, b: &CellBox, size_x: u32, size_y: u32)
    requires
        size_x <= i32::MAX,
        size_y <= i32::MAX,
        box_fits(*b, size_x, size_y),
    ensures
        forall|i: usize|
            #[trigger] final(safe)@.contains(i) <==> (old(safe)@.contains(i) || box_covers(
                *b,
                size_x,
                size_y,
                i as int,
            )),
{
    let ghost base = safe@;
    let sx = size_x as i32;
    let min_x = clamp_cell(b.start_x, size_x);
    let max_x = clamp_cell(b.end_x, size_x);
    let min_y = clamp_cell(b.start_y, size_y);
    let max_y = clamp_cell(b.end_y, size_y);
    let mut y = min_y;
    while y <= max_y
        invariant
            size_x <= i32::MAX,
            size_y <= i32::MAX,
            box_fits(*b, size_x, size_y),
            sx == size_x,
            min_x == clamped(b.start_x as int, size_x as int),
            max_x == clamped(b.end_x as int, size_x as int),
            min_y == clamped(b.start_y as int, size_y as int),
            max_y == clamped(b.end_y as int, size_y as int),
            min_y <= y,
            y <= max_y + 1 || y == min_y,
            forall|i: usize|
                #[trigger] safe@.contains(i) <==> (base.contains(i) || (size_x >= 1 && min_x
                    <= (i as int) % (size_x as int) <= max_x && min_y <= (i as int) / (
                size_x as int) < y)),
        decreases max_y + 1 - y,
    {
        let mut x = min_x;
        while x <= max_x
            invariant
                size_x <= i32::MAX,
                size_y <= i32::MAX,
                box_fits(*b, size_x, size_y),
                sx == size_x,
                min_x == clamped(b.start_x as int, size_x as int),
                max_x == clamped(b.end_x as int, size_x as int),
                min_y == clamped(b.start_y as int, size_y as int),
                max_y == clamped(b.end_y as int, size_y as int),
                min_y <= y <= max_y,
                min_x <= x,
                x <= max_x + 1 || x == min_x,
                forall|i: usize|
                    #[trigger] safe@.contains(i) <==> (base.contains(i) || (size_x >= 1 && min_x
                        <= (i as int) % (size_x as int) <= max_x && (min_y <= (i as int) / (
                    size_x as int) < y || ((i as int) / (size_x as int) == y && (i as int) % (
                    size_x as int) < x)))),
            decreases max_x + 1 - x,
        {
            assert(max_y * sx + max_x <= i32::MAX);
            assert(i32::MIN <= y * sx + x <= i32::MAX) by (nonlinear_arith)
                requires
                    -1 <= y <= max_y,
                    -1 <= x <= max_x,
                    max_y * sx + max_x <= i32::MAX,
                    0 <= sx <= i32::MAX,
            ;
            assert(i32::MIN <= y * sx <= i32::MAX) by (nonlinear_arith)
                requires
                    -1 <= y <= max_y,
                    -1 <= max_x,
                    sx >= 1 ==> max_x >= 0,
                    max_y * sx + max_x <= i32::MAX,
                    0 <= sx <= i32::MAX,
            ;
            let index = y * sx + x;
            if index >= 0 {
                proof {
                    assert(sx >= 1);
                    assert(x >= 0);
                    lemma_cell_index(x as int, y as int, sx as int);
                }
                safe.insert(index as usize);
            } else {
                proof {
                    if sx >= 1 && x >= 0 && y >= 0 {
                        assert(y * sx >= 0) by (nonlinear_arith)
                            requires
                                y >= 0,
                                sx >= 1,
                        ;
                    }
                }
            }
            proof {
                assert forall|i: usize|
                    #[trigger] safe@.contains(i) <==> (base.contains(i) || (size_x >= 1 && min_x
                        <= (i as int) % (size_x as int) <= max_x && (min_y <= (i as int) / (
                    size_x as int) < y || ((i as int) / (size_x as int) == y && (i as int) % (
                    size_x as int) < x + 1)))) by {
                    if size_x >= 1 && (i as int) / (size_x as int) == y && (i as int) % (
                    size_x as int) == x {
                        vstd::arithmetic::div_mod::lemma_fundamental_div_mod(
                            i as int,
                            size_x as int,
                        );
                        assert(y * sx == (size_x as int) * y) by (nonlinear_arith)
                            requires
                                sx == size_x,
                        ;
                        assert(i as int == y * sx + x);
                    }
                }
            }
            x += 1;
        }
        y += 1;
    }
    proof {
        assert forall|i: usize|
            #[trigger] safe@.contains(i) <==> (base.contains(i) || box_covers(
                *b,
                size_x,
                size_y,
                i as int,
            )) by {}
    }
}

/// The costmap data of `data_len` cells after allocating the boxes: free
/// where a cell lies in a box (clamped to the `size_x` by `size_y` map),
/// lethal everywhere else.
///
/// Both sides of the map must be at most `i32::MAX`: cell indices are `i32`
/// values, and a side of `2^31` or more is not a count of `i32` cells (at
/// exactly `2^31` the last-cell index `side - 1` overflows). Every box's last
/// cell index must also fit in an `i32`; [`boxes_fit`] tests this.
pub fn allocated_costmap(data_len: usize, size_x: u32, size_y: u32, boxes: &Vec<CellBox>) -> (data:
    Vec<u8>)
    requires
        size_x <= i32::MAX,
        size_y <= i32::MAX,
        forall|k: int| 0 <= k < boxes.len() ==> #[trigger] box_fits(boxes[k], size_x, size_y),
    ensures
        data.len() == data_len,
        forall|i: int|
            0 <= i < data_len ==> #[trigger] data[i] == if cell_allocated(
                boxes@,
                size_x,
                size_y,
                i,
            ) {
                FREE_SPACE
            } else {
                LETHAL_OBSTACLE
            },
{
    let mut safe_indices: HashSet<usize> = HashSet::with_capacity(boxes.len());
    let mut k: usize = 0;
    while k < boxes.len()
        invariant
            k <= boxes.len(),
            size_x <= i32::MAX,
            size_y <= i32::MAX,
            forall|j: int| 0 <= j < boxes.len() ==> #[trigger] box_fits(boxes[j], size_x, size_y),
            forall|i: usize|
                #[trigger] safe_indices@.contains(i) <==> exists|j: int|
                    0 <= j < k && #[trigger] box_covers(boxes[j], size_x, size_y, i as int),
        decreases boxes.len() - k,
    {
        let ghost before = safe_indices@;
        add_box_cells(&mut safe_indices, &boxes[k], size_x, size_y);
        proof {
            assert forall|i: usize|
                #[trigger] safe_indices@.contains(i) <==> exists|j: int|
                    0 <= j < k + 1 && #[trigger] box_covers(boxes[j], size_x, size_y, i as int) by {
                if safe_indices@.contains(i) && !before.contains(i) {
                    assert(box_covers(boxes[k as int], size_x, size_y, i as int));
                }
                if exists|j: int|
                    0 <= j < k + 1 && #[trigger] box_covers(boxes[j], size_x, size_y, i as int) {
                    let j = choose|j: int|
                        0 <= j < k + 1 && #[trigger] box_covers(boxes[j], size_x, size_y, i as int);
                    if j < k {
                        assert(before.contains(i));
                    }
                }
            }
        }
        k += 1;
    }
    let mut data: Vec<u8> = Vec::with_capacity(data_len);
    let mut index: usize = 0;
    while index < data_len
        invariant
            index <= data_len,
            data.len() == index,
            forall|i: usize|
                #[trigger] safe_indices@.contains(i) <==> exists|j: int|
                    0 <= j < boxes.len() && #[trigger] box_covers(boxes[j], size_x, size_y, i as int),
            forall|i: int|
                0 <= i < index ==> #[trigger] data[i] == if cell_allocated(boxes@, size_x, size_y, i) {
                    FREE_SPACE
                } else {
                    LETHAL_OBSTACLE
                },
        decreases data_len - index,
    {
        let free = safe_indices.contains(&index);
        assert(free == cell_allocated(boxes@, size_x, size_y, index as int));
        if free {
            data.push(FREE_SPACE);
        } else {
            data.push(LETHAL_OBSTACLE);
        }
        index += 1;
    }
    data
}

/// Allocation frees only cells of the map: a cell that lies in a box has an
/// index below `size_x * size_y`.
pub proof fn lemma_allocated_cells_in_map(boxes: Seq<CellBox>, size_x: u32, size_y: u32, i: int)
    requires
        0 <= i,
        cell_allocated(boxes, size_x, size_y, i),
    ensures
        i < size_x * size_y,
{
    let k = choose|k: int| 0 <= k < boxes.len() && #[trigger] box_covers(boxes[k], size_x, size_y, i);
    let sx = size_x as int;
    let sy = size_y as int;
    vstd::arithmetic::div_mod::lemma_fundamental_div_mod(i, sx);
    let q = i / sx;
    let r = i % sx;
    assert(q <= sy - 1);
    assert(r <= sx - 1);
    assert(sx * q + r <= sx * sy - 1) by (nonlinear_arith)
        requires
            q <= sy - 1,
            r <= sx - 1,
            sx >= 1,
    ;
}

/// Whether an allocation addressed to `allocation_agent_id` is for the agent
/// with id `agent_id`: the two agree once the allocation's id is read as an `i32`.
pub fn allocation_matches_agent(allocation_agent_id: usize, agent_id: i32) -> (matches: bool)
    ensures
        matches == (allocation_agent_id as i32 == agent_id),
{
    allocation_agent_id as i32 == agent_id
}

/// The id under which an agent asks for an allocation: its id as a `usize`.
pub fn allocation_request_id(agent_id: i32) -> (id: usize)
    ensures
        id == agent_id as usize,
{
    agent_id as usize
}

/// An allocation answering a request carries the requesting agent's id back,
/// and that id always matches the agent.
pub proof fn lemma_request_id_round_trip(agent_id: i32)
    ensures
        (agent_id as usize) as i32 == agent_id,
{
    assert((agent_id as usize) as i32 == agent_id) by (bit_vector);
}

} // verus!
