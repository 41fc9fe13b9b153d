//! Workgroup counts for a two-dimensional compute dispatch.

use vstd::prelude::*;

verus! {

/// Width of the output image, in pixels.
pub const OUTPUT_WIDTH: u32 = 1280;

/// Height of the output image, in pixels.
pub const OUTPUT_HEIGHT: u32 = 720;

/// Invocations per workgroup along the horizontal axis.
pub const WORKGROUP_WIDTH: u32 = 8;

/// Invocations per workgroup along the vertical axis.
pub const WORKGROUP_HEIGHT: u32 = 8;

/// The number of groups of `group` invocations needed for `extent` items:
/// the quotient, rounded up.
pub open spec fn groups_needed(extent: int, group: int) -> int
    recommends
        extent >= 0,
        group > 0,
{
    (extent + group - 1) / group
}

/// Whether `count` groups of `group` invocations reach every index below `extent`.
pub open spec fn covers(count: int, group: int, extent: int) -> bool {
    forall|i: int| 0 <= i < extent ==> 0 <= #[trigger] (i / group) < count
}

/// The workgroup counts of one dispatch, per axis.
#[derive(Clone, Copy, Debug, PartialEq, Eq, Structural)]
pub struct DispatchSize {
    pub x: u32,
    pub y: u32,
    pub z: u32,
}

/// `groups_needed` is the least count whose groups reach every index: it is
/// enough, the last group is not empty, and no smaller count of groups is
/// enough.
pub proof fn lemma_groups_needed_is_least(extent: int, group: int)
    requires
        extent >= 0,
        group > 0,
    ensures
        groups_needed(extent, group) >= 0,
        groups_needed(extent, group) * group >= extent,
        extent > 0 ==> (groups_needed(extent, group) - 1) * group < extent,
        extent == 0 ==> groups_needed(extent, group) == 0,
        extent % group == 0 ==> groups_needed(extent, group) * group == extent,
        covers(groups_needed(extent, group), group, extent),
        forall|count: int|
            count >= 0 && covers(count, group, extent) ==> count >= groups_needed(extent, group),
{
    let n = groups_needed(extent, group);
    let t = extent + group - 1;
    assert(t == group * (t / group) + t % group && 0 <= t % group < group) by (nonlinear_arith)
        requires
            group > 0,
    ;
    assert(n * group == group * n) by (nonlinear_arith);
    assert((n - 1) * group == n * group - group) by (nonlinear_arith);
    assert(n >= 0) by (nonlinear_arith)
        requires
            t >= 0,
            group > 0,
            n == t / group,
    ;
    if extent % group == 0 {
        assert(extent == group * (extent / group)) by (nonlinear_arith)
            requires
                group > 0,
                extent % group == 0,
        ;
        let q = extent / group;
        assert(n == q) by (nonlinear_arith)
            requires
                group > 0,
                extent == group * q,
                extent + group - 1 == group * n + t % group,
                0 <= t % group < group,
        ;
    }
    assert forall|i: int| 0 <= i < extent implies 0 <= #[trigger] (i / group) < n by {
        assert(0 <= i / group < n) by (nonlinear_arith)
            requires
                0 <= i < extent,
                group > 0,
                n * group >= extent,
        ;
    }
    assert forall|count: int| count >= 0 && covers(count, group, extent) implies count >= n by {
        if extent > 0 {
            let last = extent - 1;
            assert(last / group == n - 1) by (nonlinear_arith)
                requires
                    group > 0,
                    last == extent - 1,
                    extent > 0,
                    n * group >= extent,
                    (n - 1) * group < extent,
            ;
            assert(0 <= last / group < count);
        }
    }
}

/// The quotient and the remainder give the rounded-up quotient without an
/// intermediate sum that could leave the range of the operands.
pub proof fn lemma_groups_needed_by_parts(extent: int, group: int)
    requires
        extent >= 0,
        group > 0,
    ensures
        groups_needed(extent, group) == extent / group + if extent % group == 0 {
            0int
        } else {
            1int
        },
        extent / group <= extent,
{
    let q = extent / group;
    let r = extent % group;
    assert(extent == group * q + r && 0 <= r < group && q >= 0 && q <= extent)
        by (nonlinear_arith)
        requires
            extent >= 0,
            group > 0,
            q == extent / group,
            r == extent % group,
    ;
    let n = groups_needed(extent, group);
    let step: int = if r == 0 { 0 } else { 1 };
    assert(n == q + step) by (nonlinear_arith)
        requires
            group > 0,
            extent == group * q + r,
            0 <= r < group,
            n == (extent + group - 1) / group,
            step == if r == 0 { 0int } else { 1int },
    ;
}

/// Number of workgroups of `group` invocations that cover `extent` items.
pub fn group_count(extent: u32, group: u32) -> (count: u32)
    requires
        group > 0,
    ensures
        count == groups_needed(extent as int, group as int),
{
    proof {
        lemma_groups_needed_by_parts(extent as int, group as int);
    }
    let whole: u32 = extent / group;
    if extent % group == 0 {
        whole
    } else {
        assert(whole < extent) by (nonlinear_arith)
            requires
                whole == extent as int / group as int,
                extent as int % group as int != 0,
                group > 0,
        ;
        whole + 1
    }
}

impl DispatchSize {
    /// The dispatch that covers an image of `width` by `height` pixels with
    /// workgroups of `group_width` by `group_height` invocations, one layer
    /// deep. There is none when a workgroup has no invocations along an axis.
    pub open spec fn covering_spec(
        width: u32,
        height: u32,
        group_width: u32,
        group_height: u32,
    ) -> Option<DispatchSize> {
        if group_width == 0 || group_height == 0 {
            None
        } else {
            Some(
                DispatchSize {
                    x: groups_needed(width as int, group_width as int) as u32,
                    y: groups_needed(height as int, group_height as int) as u32,
                    z: 1,
                },
            )
        }
    }

    /// Computes the dispatch that covers the image, rounding up on each axis.
    pub fn covering(width: u32, height: u32, group_width: u32, group_height: u32) -> (size: Option<
        DispatchSize,
    >)
        ensures
            size == Self::covering_spec(width, height, group_width, group_height),
            size matches Some(d) ==> {
                &&& d.x == groups_needed(width as int, group_width as int)
                &&& d.y == groups_needed(height as int, group_height as int)
            },
    {
        if group_width == 0 || group_height == 0 {
            return None;
        }
        let x = group_count(width, group_width);
        let y = group_count(height, group_height);
        Some(DispatchSize { x, y, z: 1 })
    }

    /// Whether the invocation at `(px, py)` belongs to a group of this dispatch.
    pub open spec fn reaches(self, group_width: int, group_height: int, px: int, py: int) -> bool {
        &&& 0 <= px / group_width < self.x
        &&& 0 <= py / group_height < self.y
    }
}

/// Every pixel of the image lies in one of the dispatched workgroups, whatever
/// the image and workgroup dimensions; and when the workgroup dimensions divide
/// the image dimensions, the groups cover the image exactly, with no
/// invocation outside it.
pub proof fn lemma_dispatch_covers_image(
    width: u32,
    height: u32,
    group_width: u32,
    group_height: u32,
)
    requires
        group_width > 0,
        group_height > 0,
    ensures
        DispatchSize::covering_spec(width, height, group_width, group_height) matches Some(d) && {
            &&& forall|px: int, py: int|
                0 <= px < width && 0 <= py < height ==> #[trigger] d.reaches(
                    group_width as int,
                    group_height as int,
                    px,
                    py,
                )
            &&& d.x * group_width >= width
            &&& d.y * group_height >= height
            &&& width % group_width == 0 ==> d.x * group_width == width
            &&& height % group_height == 0 ==> d.y * group_height == height
        },
{
    let gx = groups_needed(width as int, group_width as int);
    let gy = groups_needed(height as int, group_height as int);
    lemma_groups_needed_is_least(width as int, group_width as int);
    lemma_groups_needed_is_least(height as int, group_height as int);
    lemma_groups_needed_by_parts(width as int, group_width as int);
    lemma_groups_needed_by_parts(height as int, group_height as int);
    assert(0 <= gx <= width) by (nonlinear_arith)
        requires
            gx * group_width >= width,
            width > 0 ==> (gx - 1) * group_width < width,
            width == 0 ==> gx == 0,
            group_width > 0,
            gx >= 0,
    ;
    assert(0 <= gy <= height) by (nonlinear_arith)
        requires
            gy * group_height >= height,
            height > 0 ==> (gy - 1) * group_height < height,
            height == 0 ==> gy == 0,
            group_height > 0,
            gy >= 0,
    ;
    let d = DispatchSize::covering_spec(width, height, group_width, group_height)->Some_0;
    assert(d.x == gx && d.y == gy);
    assert forall|px: int, py: int| 0 <= px < width && 0 <= py < height implies #[trigger] d.reaches(
        group_width as int,
        group_height as int,
        px,
        py,
    ) by {
        assert(0 <= px / (group_width as int) < gx);
        assert(0 <= py / (group_height as int) < gy);
    }
}

/// The configured image of 1280 by 720 pixels is covered by 160 by 90
/// workgroups of 8 by 8 invocations, with nothing left over.
pub proof fn lemma_configured_dispatch()
    ensures
        DispatchSize::covering_spec(
            OUTPUT_WIDTH,
            OUTPUT_HEIGHT,
            WORKGROUP_WIDTH,
            WORKGROUP_HEIGHT,
        ) == Some(DispatchSize { x: 160, y: 90, z: 1 }),
        160 * WORKGROUP_WIDTH == OUTPUT_WIDTH,
        90 * WORKGROUP_HEIGHT == OUTPUT_HEIGHT,
{
}

} // verus!
