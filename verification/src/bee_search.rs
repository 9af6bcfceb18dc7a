//! How bees look for flowers and hives around them.

use vstd::prelude::*;

use crate::position::{abs, has_room, steps, within, BlockPos};

verus! {

/// How far along each axis a bee looks for a flower.
pub const FLOWER_SEARCH_RADIUS: i32 = 5;

/// How far along each axis a bee looks for a hive.
pub const HIVE_SEARCH_RADIUS: i32 = 20;

/// How many hives a bee compares.
pub const MAX_HIVE_CANDIDATES: usize = 8;

/// Whether a test said of the position at an offset what `answer` says.
pub open spec fn answered<F: Fn(BlockPos) -> bool>(
    test: F,
    origin: BlockPos,
    x: int,
    y: int,
    z: int,
    answer: bool,
) -> bool {
    call_ensures(test, (origin.at(x, y, z),), answer)
}

/// The order in which a bee looks at offsets for a flower: by the steps along the axes that they
/// are away, among equal ones by `x`, among equal ones by `y`, and at last above before below.
pub open spec fn looked_at_before(ax: int, ay: int, az: int, bx: int, by: int, bz: int) -> bool {
    steps(ax, ay, az) < steps(bx, by, bz) || steps(ax, ay, az) == steps(bx, by, bz) && (ax < bx
        || ax == bx && (ay < by || ay == by && az > bz))
}

/// Whether a flower is the first that a bee finds, which is one that takes the fewest steps
/// along the axes to reach, or whether there is none.
pub open spec fn is_closest_flower<F: Fn(BlockPos) -> bool>(
    found: Option<BlockPos>,
    origin: BlockPos,
    attracts: F,
) -> bool {
    match found {
        Some(pos) => {
            &&& within(
                pos.x - origin.x,
                pos.y - origin.y,
                pos.z - origin.z,
                FLOWER_SEARCH_RADIUS as int,
            )
            &&& call_ensures(attracts, (pos,), true)
            &&& forall|x: int, y: int, z: int|
                within(x, y, z, FLOWER_SEARCH_RADIUS as int) && looked_at_before(
                    x,
                    y,
                    z,
                    pos.x - origin.x,
                    pos.y - origin.y,
                    pos.z - origin.z,
                ) ==> #[trigger] answered(attracts, origin, x, y, z, false)
        },
        None => forall|x: int, y: int, z: int|
            within(x, y, z, FLOWER_SEARCH_RADIUS as int) ==> #[trigger] answered(
                attracts,
                origin,
                x,
                y,
                z,
                false,
            ),
    }
}

/// Looks for the flower that takes the fewest steps along the axes to reach. `attracts` says
/// whether the block at a position draws bees.
pub fn find_nearby_flower<F: Fn(BlockPos) -> bool>(origin: BlockPos, attracts: F) -> (found: Option<
    BlockPos,
>)
    requires
        has_room(origin, FLOWER_SEARCH_RADIUS as int),
        forall|pos: BlockPos| call_requires(attracts, (pos,)),
    ensures
        is_closest_flower(found, origin, attracts),
{
    let max_depth: i32 = FLOWER_SEARCH_RADIUS * 3;
    let mut depth: i32 = 0;
    while depth <= max_depth
        invariant
            max_depth == FLOWER_SEARCH_RADIUS * 3,
            0 <= depth <= max_depth + 1,
            has_room(origin, FLOWER_SEARCH_RADIUS as int),
            forall|pos: BlockPos| call_requires(attracts, (pos,)),
            forall|x: int, y: int, z: int|
                within(x, y, z, FLOWER_SEARCH_RADIUS as int) && steps(x, y, z) < depth
                    ==> #[trigger] answered(attracts, origin, x, y, z, false),
        decreases max_depth - depth + 1,
    {
        let max_x: i32 = if FLOWER_SEARCH_RADIUS < depth { FLOWER_SEARCH_RADIUS } else { depth };
        let mut x: i32 = -max_x;
        while x <= max_x
            invariant
                max_depth == FLOWER_SEARCH_RADIUS * 3,
                0 <= depth <= max_depth,
                max_x == (if FLOWER_SEARCH_RADIUS < depth { FLOWER_SEARCH_RADIUS } else { depth }),
                -max_x <= x <= max_x + 1,
                has_room(origin, FLOWER_SEARCH_RADIUS as int),
                forall|pos: BlockPos| call_requires(attracts, (pos,)),
                forall|i: int, j: int, k: int|
                    within(i, j, k, FLOWER_SEARCH_RADIUS as int) && (steps(i, j, k) < depth
                        || steps(i, j, k) == depth && i < x) ==> #[trigger] answered(
                        attracts,
                        origin,
                        i,
                        j,
                        k,
                        false,
                    ),
            decreases max_x - x + 1,
        {
            let rest: i32 = if x < 0 { depth + x } else { depth - x };
            let max_y: i32 = if FLOWER_SEARCH_RADIUS < rest { FLOWER_SEARCH_RADIUS } else { rest };
            let mut y: i32 = -max_y;
            while y <= max_y
                invariant
                    max_depth == FLOWER_SEARCH_RADIUS * 3,
                    0 <= depth <= max_depth,
                    -FLOWER_SEARCH_RADIUS <= x <= FLOWER_SEARCH_RADIUS,
                    rest == depth - abs(x as int),
                    rest >= 0,
                    max_y == (if FLOWER_SEARCH_RADIUS < rest { FLOWER_SEARCH_RADIUS } else {
                        rest
                    }),
                    -max_y <= y <= max_y + 1,
                    has_room(origin, FLOWER_SEARCH_RADIUS as int),
                    forall|pos: BlockPos| call_requires(attracts, (pos,)),
                    forall|i: int, j: int, k: int|
                        within(i, j, k, FLOWER_SEARCH_RADIUS as int) && (steps(i, j, k) < depth
                            || steps(i, j, k) == depth && (i < x || i == x && j < y))
                            ==> #[trigger] answered(attracts, origin, i, j, k, false),
                decreases max_y - y + 1,
            {
                let z: i32 = if y < 0 { rest + y } else { rest - y };
                if z <= FLOWER_SEARCH_RADIUS {
                    let above = BlockPos::new(origin.x + x, origin.y + y, origin.z + z);
                    assert(above == origin.at(x as int, y as int, z as int));
                    if attracts(above) {
                        return Some(above);
                    }
                    assert(answered(attracts, origin, x as int, y as int, z as int, false));
                    if z != 0 {
                        let below = BlockPos::new(origin.x + x, origin.y + y, origin.z - z);
                        assert(below == origin.at(x as int, y as int, -z as int));
                        if attracts(below) {
                            return Some(below);
                        }
                        assert(answered(attracts, origin, x as int, y as int, -z as int, false));
                    }
                }
                y = y + 1;
            }
            x = x + 1;
        }
        depth = depth + 1;
    }
    None
}

/// The order in which a bee visits offsets when it looks for hives: by `x`, and among equal
/// ones by `y`, and among equal ones by `z`.
pub open spec fn scanned_before(ax: int, ay: int, az: int, bx: int, by: int, bz: int) -> bool {
    ax < bx || ax == bx && (ay < by || ay == by && az < bz)
}

/// Whether a position lies within the distance in which a bee looks for hives.
pub open spec fn in_hive_range(origin: BlockPos, pos: BlockPos) -> bool {
    within(
        pos.x - origin.x,
        pos.y - origin.y,
        pos.z - origin.z,
        HIVE_SEARCH_RADIUS as int,
    )
}

/// Whether one position is visited before another.
pub open spec fn visited_before(a: BlockPos, b: BlockPos) -> bool {
    scanned_before(a.x as int, a.y as int, a.z as int, b.x as int, b.y as int, b.z as int)
}

/// Whether a list holds hives with space, in the order in which they are visited, and misses
/// none that is visited before `x`, `y`, `z`.
pub open spec fn hives_until<F: Fn(BlockPos) -> bool>(
    hives: Seq<BlockPos>,
    origin: BlockPos,
    test: F,
    x: int,
    y: int,
    z: int,
) -> bool {
    &&& forall|i: int|
        0 <= i < hives.len() ==> {
            &&& in_hive_range(origin, #[trigger] hives[i])
            &&& call_ensures(test, (hives[i],), true)
            &&& scanned_before(
                hives[i].x - origin.x,
                hives[i].y - origin.y,
                hives[i].z - origin.z,
                x,
                y,
                z,
            )
        }
    &&& forall|i: int, j: int|
        0 <= i < j < hives.len() ==> visited_before(#[trigger] hives[i], #[trigger] hives[j])
    &&& forall|i: int, j: int, k: int|
        within(i, j, k, HIVE_SEARCH_RADIUS as int) && scanned_before(i, j, k, x, y, z)
            && !hives.contains(origin.at(i, j, k)) ==> #[trigger] answered(
            test,
            origin,
            i,
            j,
            k,
            false,
        )
}

/// What the first hives around a bee are: hives with space in the order in which they are
/// visited, none left out before the last, and none at all if there are fewer than the bee
/// compares.
pub open spec fn first_hives<F: Fn(BlockPos) -> bool>(
    hives: Seq<BlockPos>,
    origin: BlockPos,
    test: F,
) -> bool {
    &&& hives.len() <= MAX_HIVE_CANDIDATES
    &&& forall|i: int|
        0 <= i < hives.len() ==> in_hive_range(origin, #[trigger] hives[i]) && call_ensures(
            test,
            (hives[i],),
            true,
        )
    &&& forall|i: int, j: int|
        0 <= i < j < hives.len() ==> visited_before(#[trigger] hives[i], #[trigger] hives[j])
    &&& forall|i: int, j: int, k: int|
        within(i, j, k, HIVE_SEARCH_RADIUS as int) && !hives.contains(origin.at(i, j, k)) && (
        hives.len() < MAX_HIVE_CANDIDATES || visited_before(origin.at(i, j, k), hives.last()))
            ==> #[trigger] answered(test, origin, i, j, k, false)
}

/// Collects the first hives around a bee. `has_space` says whether there is a hive with space
/// at a position.
pub fn collect_hives<F: Fn(BlockPos) -> bool>(origin: BlockPos, has_space: F) -> (hives: Vec<
    BlockPos,
>)
    requires
        has_room(origin, HIVE_SEARCH_RADIUS as int),
        forall|pos: BlockPos| call_requires(has_space, (pos,)),
    ensures
        first_hives(hives@, origin, has_space),
{
    let r: i32 = HIVE_SEARCH_RADIUS;
    let mut hives: Vec<BlockPos> = Vec::new();
    let mut x: i32 = -r;
    while x <= r
        invariant
            r == HIVE_SEARCH_RADIUS,
            -r <= x <= r + 1,
            has_room(origin, HIVE_SEARCH_RADIUS as int),
            forall|pos: BlockPos| call_requires(has_space, (pos,)),
            hives.len() < MAX_HIVE_CANDIDATES,
            hives_until(hives@, origin, has_space, x as int, -r as int, -r as int),
        decreases r - x + 1,
    {
        let mut y: i32 = -r;
        while y <= r
            invariant
                r == HIVE_SEARCH_RADIUS,
                -r <= x <= r,
                -r <= y <= r + 1,
                has_room(origin, HIVE_SEARCH_RADIUS as int),
                forall|pos: BlockPos| call_requires(has_space, (pos,)),
                hives.len() < MAX_HIVE_CANDIDATES,
                hives_until(hives@, origin, has_space, x as int, y as int, -r as int),
            decreases r - y + 1,
        {
            let mut z: i32 = -r;
            while z <= r
                invariant
                    r == HIVE_SEARCH_RADIUS,
                    -r <= x <= r,
                    -r <= y <= r,
                    -r <= z <= r + 1,
                    has_room(origin, HIVE_SEARCH_RADIUS as int),
                    forall|pos: BlockPos| call_requires(has_space, (pos,)),
                    hives.len() < MAX_HIVE_CANDIDATES,
                    hives_until(hives@, origin, has_space, x as int, y as int, z as int),
                decreases r - z + 1,
            {
                let pos = BlockPos::new(origin.x + x, origin.y + y, origin.z + z);
                assert(pos == origin.at(x as int, y as int, z as int));
                let ghost before = hives@;
                if has_space(pos) {
                    hives.push(pos);
                    proof {
                        lemma_hive_added(
                            before,
                            origin,
                            has_space,
                            x as int,
                            y as int,
                            z as int,
                        );
                    }
                    if hives.len() >= MAX_HIVE_CANDIDATES {
                        proof {
                            lemma_enough_hives(
                                hives@,
                                origin,
                                has_space,
                                x as int,
                                y as int,
                                z as int,
                            );
                        }
                        return hives;
                    }
                } else {
                    assert(answered(has_space, origin, x as int, y as int, z as int, false));
                }
                z = z + 1;
            }
            assert(hives_until(hives@, origin, has_space, x as int, y + 1, -r as int));
            y = y + 1;
        }
        assert(hives_until(hives@, origin, has_space, x + 1, -r as int, -r as int));
        x = x + 1;
    }
    proof {
        assert forall|i: int, j: int, k: int|
            within(i, j, k, HIVE_SEARCH_RADIUS as int) && !hives@.contains(
                origin.at(i, j, k),
            ) implies #[trigger] answered(has_space, origin, i, j, k, false) by {
            assert(scanned_before(i, j, k, x as int, -r as int, -r as int));
        }
    }
    hives
}

/// A hive that was found where the bee looks extends the list.
proof fn lemma_hive_added<F: Fn(BlockPos) -> bool>(
    hives: Seq<BlockPos>,
    origin: BlockPos,
    test: F,
    x: int,
    y: int,
    z: int,
)
    requires
        has_room(origin, HIVE_SEARCH_RADIUS as int),
        within(x, y, z, HIVE_SEARCH_RADIUS as int),
        hives_until(hives, origin, test, x, y, z),
        call_ensures(test, (origin.at(x, y, z),), true),
    ensures
        hives_until(hives.push(origin.at(x, y, z)), origin, test, x, y, z + 1),
{
    let pos = origin.at(x, y, z);
    let after = hives.push(pos);
    assert forall|i: int, j: int| 0 <= i < j < after.len() implies visited_before(
        #[trigger] after[i],
        #[trigger] after[j],
    ) by {
        if j < hives.len() {
            assert(visited_before(hives[i], hives[j]));
        } else {
            assert(in_hive_range(origin, hives[i]));
        }
    }
    assert forall|i: int| 0 <= i < after.len() implies {
        &&& in_hive_range(origin, #[trigger] after[i])
        &&& call_ensures(test, (after[i],), true)
        &&& scanned_before(
            after[i].x - origin.x,
            after[i].y - origin.y,
            after[i].z - origin.z,
            x,
            y,
            z + 1,
        )
    } by {
        if i < hives.len() {
            assert(in_hive_range(origin, hives[i]));
        }
    }
    assert forall|i: int, j: int, k: int|
        within(i, j, k, HIVE_SEARCH_RADIUS as int) && scanned_before(i, j, k, x, y, z + 1)
            && !after.contains(origin.at(i, j, k)) implies #[trigger] answered(
        test,
        origin,
        i,
        j,
        k,
        false,
    ) by {
        assert(after[hives.len() as int] == pos);
        if hives.contains(origin.at(i, j, k)) {
            let n = choose|n: int| 0 <= n < hives.len() && hives[n] == origin.at(i, j, k);
            assert(after[n] == origin.at(i, j, k));
        }
    }
}

/// A full list misses no hive that is visited before its last.
proof fn lemma_enough_hives<F: Fn(BlockPos) -> bool>(
    hives: Seq<BlockPos>,
    origin: BlockPos,
    test: F,
    x: int,
    y: int,
    z: int,
)
    requires
        has_room(origin, HIVE_SEARCH_RADIUS as int),
        within(x, y, z, HIVE_SEARCH_RADIUS as int),
        hives.len() == MAX_HIVE_CANDIDATES,
        hives.last() == origin.at(x, y, z),
        hives_until(hives, origin, test, x, y, z + 1),
    ensures
        first_hives(hives, origin, test),
{
    assert forall|i: int| 0 <= i < hives.len() implies in_hive_range(origin, #[trigger] hives[i])
        && call_ensures(test, (hives[i],), true) by {}
    assert forall|i: int, j: int, k: int|
        within(i, j, k, HIVE_SEARCH_RADIUS as int) && !hives.contains(origin.at(i, j, k))
            && visited_before(origin.at(i, j, k), hives.last()) implies #[trigger] answered(
        test,
        origin,
        i,
        j,
        k,
        false,
    ) by {
        assert(scanned_before(i, j, k, x, y, z + 1));
    }
}

/// Whether positions are listed from the closest to the farthest.
pub open spec fn closest_first(origin: BlockPos, list: Seq<BlockPos>) -> bool {
    forall|i: int, j: int|
        0 <= i <= j < list.len() ==> origin.distance_squared(#[trigger] list[i])
            <= origin.distance_squared(#[trigger] list[j])
}

/// The square of the distance between two positions near each other.
pub fn distance_squared(origin: BlockPos, pos: BlockPos) -> (distance: i64)
    requires
        in_hive_range(origin, pos),
    ensures
        distance == origin.distance_squared(pos),
        0 <= distance <= 1200,
{
    let dx: i64 = pos.x as i64 - origin.x as i64;
    let dy: i64 = pos.y as i64 - origin.y as i64;
    let dz: i64 = pos.z as i64 - origin.z as i64;
    assert(0 <= dx * dx <= 400) by (nonlinear_arith)
        requires
            -20 <= dx <= 20,
    ;
    assert(0 <= dy * dy <= 400) by (nonlinear_arith)
        requires
            -20 <= dy <= 20,
    ;
    assert(0 <= dz * dz <= 400) by (nonlinear_arith)
        requires
            -20 <= dz <= 20,
    ;
    dx * dx + dy * dy + dz * dz
}

/// Puts a position into a list that runs from the closest to the farthest.
fn insert_by_distance(origin: BlockPos, list: &mut Vec<BlockPos>, pos: BlockPos)
    requires
        in_hive_range(origin, pos),
        closest_first(origin, old(list)@),
        forall|i: int| 0 <= i < old(list).len() ==> in_hive_range(origin, #[trigger] old(list)@[i]),
    ensures
        closest_first(origin, final(list)@),
        forall|i: int|
            0 <= i < final(list).len() ==> in_hive_range(origin, #[trigger] final(list)@[i]),
        final(list)@.to_multiset() == old(list)@.push(pos).to_multiset(),
{
    let distance: i64 = distance_squared(origin, pos);
    let mut at: usize = 0;
    while at < list.len() && distance_squared(origin, list[at]) <= distance
        invariant
            at <= list.len(),
            list@ == old(list)@,
            distance == origin.distance_squared(pos),
            in_hive_range(origin, pos),
            forall|i: int| 0 <= i < list.len() ==> in_hive_range(origin, #[trigger] list@[i]),
            forall|i: int|
                0 <= i < at ==> origin.distance_squared(#[trigger] list@[i]) <= distance,
        ensures
            at <= list.len(),
            list@ == old(list)@,
            forall|i: int|
                0 <= i < at ==> origin.distance_squared(#[trigger] list@[i]) <= distance,
            at < list.len() ==> origin.distance_squared(list@[at as int]) > distance,
        decreases list.len() - at,
    {
        at = at + 1;
    }
    let ghost before = list@;
    list.insert(at, pos);
    proof {
        before.insert_ensures(at as int, pos);
        before.to_multiset_ensures();
        vstd::seq_lib::to_multiset_insert(before, at as int, pos);
        assert forall|i: int, j: int| 0 <= i <= j < list@.len() implies origin.distance_squared(
            #[trigger] list@[i],
        ) <= origin.distance_squared(#[trigger] list@[j]) by {
            let a = if i < at { i } else { i - 1 };
            let b = if j < at { j } else { j - 1 };
            if i != at && j != at {
                assert(origin.distance_squared(before[a]) <= origin.distance_squared(before[b]));
            } else if i == at && j > at {
                assert(origin.distance_squared(before[at as int]) <= origin.distance_squared(
                    before[b],
                ));
            }
        }
        assert forall|i: int| 0 <= i < list@.len() implies in_hive_range(
            origin,
            #[trigger] list@[i],
        ) by {
            if i < at {
                assert(in_hive_range(origin, before[i]));
            } else if i > at {
                assert(in_hive_range(origin, before[i - 1]));
            }
        }
    }
}

/// Lists positions from the closest to the farthest.
pub fn sort_by_distance(origin: BlockPos, list: &Vec<BlockPos>) -> (sorted: Vec<BlockPos>)
    requires
        forall|i: int| 0 <= i < list.len() ==> in_hive_range(origin, #[trigger] list@[i]),
    ensures
        closest_first(origin, sorted@),
        sorted@.to_multiset() == list@.to_multiset(),
{
    let mut sorted: Vec<BlockPos> = Vec::new();
    let mut i: usize = 0;
    assert(sorted@ =~= list@.take(0));
    while i < list.len()
        invariant
            i <= list.len(),
            forall|j: int| 0 <= j < list.len() ==> in_hive_range(origin, #[trigger] list@[j]),
            closest_first(origin, sorted@),
            forall|j: int| 0 <= j < sorted.len() ==> in_hive_range(origin, #[trigger] sorted@[j]),
            sorted@.to_multiset() == list@.take(i as int).to_multiset(),
        decreases list.len() - i,
    {
        let ghost before = sorted@;
        insert_by_distance(origin, &mut sorted, list[i]);
        proof {
            before.to_multiset_ensures();
            list@.take(i as int).to_multiset_ensures();
            assert(list@.take(i + 1) =~= list@.take(i as int).push(list@[i as int]));
        }
        i = i + 1;
    }
    assert(list@.take(i as int) =~= list@);
    sorted
}

/// Looks for hives with space and lists them from the closest to the farthest: the first ones
/// that the bee visits, up to as many as it compares.
pub fn find_nearby_hives_with_space<F: Fn(BlockPos) -> bool>(
    origin: BlockPos,
    has_space: F,
) -> (hives: Vec<BlockPos>)
    requires
        has_room(origin, HIVE_SEARCH_RADIUS as int),
        forall|pos: BlockPos| call_requires(has_space, (pos,)),
    ensures
        closest_first(origin, hives@),
        exists|found: Seq<BlockPos>|
            first_hives(found, origin, has_space) && #[trigger] found.to_multiset()
                == hives@.to_multiset(),
{
    let found = collect_hives(origin, has_space);
    sort_by_distance(origin, &found)
}

/// A flower that is found is at most five blocks away in each direction and attracts the bee, and
/// none that attracts it is fewer steps away.
pub proof fn law_found_flower_is_near<F: Fn(BlockPos) -> bool>(
    found: BlockPos,
    origin: BlockPos,
    attracts: F,
)
    requires
        is_closest_flower(Some(found), origin, attracts),
    ensures
        -5 <= found.x - origin.x <= 5,
        -5 <= found.y - origin.y <= 5,
        -5 <= found.z - origin.z <= 5,
        call_ensures(attracts, (found,), true),
        forall|x: int, y: int, z: int|
            -5 <= x <= 5 && -5 <= y <= 5 && -5 <= z <= 5 && #[trigger] steps(x, y, z) < steps(
                found.x - origin.x,
                found.y - origin.y,
                found.z - origin.z,
            ) ==> call_ensures(attracts, (origin.at(x, y, z),), false),
{
    assert forall|x: int, y: int, z: int|
        -5 <= x <= 5 && -5 <= y <= 5 && -5 <= z <= 5 && #[trigger] steps(x, y, z) < steps(
            found.x - origin.x,
            found.y - origin.y,
            found.z - origin.z,
        ) implies call_ensures(attracts, (origin.at(x, y, z),), false) by {
        assert(answered(attracts, origin, x, y, z, false));
    }
}

/// Where no flower is found, none within five blocks in each direction attracts the bee.
pub proof fn law_no_flower_means_none<F: Fn(BlockPos) -> bool>(
    origin: BlockPos,
    attracts: F,
    x: int,
    y: int,
    z: int,
)
    requires
        is_closest_flower(None, origin, attracts),
        -5 <= x <= 5,
        -5 <= y <= 5,
        -5 <= z <= 5,
    ensures
        call_ensures(attracts, (origin.at(x, y, z),), false),
{
    assert(answered(attracts, origin, x, y, z, false));
}

/// At most eight hives are found, each at most twenty blocks away in each direction and with
/// space, and none twice; fewer only where no other has space.
pub proof fn law_found_hives<F: Fn(BlockPos) -> bool>(
    hives: Seq<BlockPos>,
    origin: BlockPos,
    has_space: F,
)
    requires
        first_hives(hives, origin, has_space),
    ensures
        hives.len() <= 8,
        hives.no_duplicates(),
        forall|i: int|
            0 <= i < hives.len() ==> call_ensures(has_space, (#[trigger] hives[i],), true) && -20
                <= hives[i].x - origin.x <= 20 && -20 <= hives[i].y - origin.y <= 20 && -20
                <= hives[i].z - origin.z <= 20,
        hives.len() < 8 ==> forall|x: int, y: int, z: int|
            -20 <= x <= 20 && -20 <= y <= 20 && -20 <= z <= 20 && !hives.contains(
                #[trigger] origin.at(x, y, z),
            ) ==> call_ensures(has_space, (origin.at(x, y, z),), false),
{
    assert forall|i: int| 0 <= i < hives.len() implies call_ensures(
        has_space,
        (#[trigger] hives[i],),
        true,
    ) && -20 <= hives[i].x - origin.x <= 20 && -20 <= hives[i].y - origin.y <= 20 && -20 <= hives[i].z
        - origin.z <= 20 by {
        assert(in_hive_range(origin, hives[i]));
    }
    assert forall|i: int, j: int| 0 <= i < hives.len() && 0 <= j < hives.len() && i != j implies hives[i]
        != hives[j] by {
        if i < j {
            assert(visited_before(hives[i], hives[j]));
        } else {
            assert(visited_before(hives[j], hives[i]));
        }
    }
    if hives.len() < 8 {
        assert forall|x: int, y: int, z: int|
            -20 <= x <= 20 && -20 <= y <= 20 && -20 <= z <= 20 && !hives.contains(
                #[trigger] origin.at(x, y, z),
            ) implies call_ensures(has_space, (origin.at(x, y, z),), false) by {
            assert(answered(has_space, origin, x, y, z, false));
        }
    }
}

} // verus!
