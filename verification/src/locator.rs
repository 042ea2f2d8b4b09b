use vstd::prelude::*;

use crate::capture::{DetectedTarget, TargetKind};
use crate::geometry::{PointI, RectI};

verus! {

/// The rectangle between two corners given by their edges, or `None` when it has no area.
pub fn rect_from_edges(left: i32, top: i32, right: i32, bottom: i32) -> (r: Option<RectI>)
    ensures
        (right > left && bottom > top) <==> r is Some,
        r matches Some(rect) ==> rect == (RectI {
            left,
            top,
            width: (right - left) as u32,
            height: (bottom - top) as u32,
        }),
{
    if right > left && bottom > top {
        let width = (right as i64 - left as i64) as u32;
        let height = (bottom as i64 - top as i64) as u32;
        Some(RectI::new(left, top, width, height))
    } else {
        None
    }
}

/// The number of pixels in a rectangle.
pub open spec fn area(rect: RectI) -> int {
    rect.width * rect.height
}

pub fn rect_area(rect: RectI) -> (a: u64)
    ensures
        a == area(rect),
{
    proof {
        assert(rect.width * rect.height <= 0xffff_ffff * 0xffff_ffff) by (nonlinear_arith)
            requires
                rect.width <= 0xffff_ffff,
                rect.height <= 0xffff_ffff,
        ;
    }
    rect.width as u64 * rect.height as u64
}

/// The first of `windows` (front to back) under `point`.
pub fn window_at(windows: &[RectI], point: PointI) -> (r: Option<usize>)
    ensures
        match r {
            Some(i) => i < windows@.len() && windows@[i as int].spec_contains(point) && forall|
                j: int,
            | 0 <= j < i ==> !#[trigger] windows@[j].spec_contains(point),
            None => forall|j: int| 0 <= j < windows@.len() ==> !#[trigger] windows@[j].spec_contains(
                point,
            ),
        },
{
    let mut index: usize = 0;
    while index < windows.len()
        invariant
            index <= windows@.len(),
            forall|j: int| 0 <= j < index ==> !#[trigger] windows@[j].spec_contains(point),
        decreases windows@.len() - index,
    {
        if windows[index].contains(point) {
            return Some(index);
        }
        index = index + 1;
    }
    None
}

/// The smallest of `controls` under `point`; among equally small ones the first.
pub fn smallest_control_at(controls: &[RectI], point: PointI) -> (r: Option<usize>)
    ensures
        match r {
            Some(i) => {
                &&& i < controls@.len()
                &&& controls@[i as int].spec_contains(point)
                &&& forall|j: int|
                    0 <= j < controls@.len() && #[trigger] controls@[j].spec_contains(point)
                        ==> area(controls@[i as int]) <= area(controls@[j])
                &&& forall|j: int|
                    0 <= j < i && #[trigger] controls@[j].spec_contains(point) ==> area(
                        controls@[i as int],
                    ) < area(controls@[j])
            },
            None => forall|j: int|
                0 <= j < controls@.len() ==> !#[trigger] controls@[j].spec_contains(point),
        },
{
    let mut best: Option<usize> = None;
    let mut best_area: u64 = 0;
    let mut index: usize = 0;
    while index < controls.len()
        invariant
            index <= controls@.len(),
            match best {
                Some(b) => {
                    &&& b < index
                    &&& controls@[b as int].spec_contains(point)
                    &&& best_area == area(controls@[b as int])
                    &&& forall|j: int|
                        0 <= j < index && #[trigger] controls@[j].spec_contains(point) ==> area(
                            controls@[b as int],
                        ) <= area(controls@[j])
                    &&& forall|j: int|
                        0 <= j < b && #[trigger] controls@[j].spec_contains(point) ==> area(
                            controls@[b as int],
                        ) < area(controls@[j])
                },
                None => forall|j: int|
                    0 <= j < index ==> !#[trigger] controls@[j].spec_contains(point),
            },
        decreases controls@.len() - index,
    {
        let control = controls[index];
        if control.contains(point) {
            let candidate = rect_area(control);
            let better = match best {
                Some(_) => candidate < best_area,
                None => true,
            };
            if better {
                best = Some(index);
                best_area = candidate;
            }
        }
        index = index + 1;
    }
    best
}

/// What the overlay highlights under the pointer: the control when there is one, else the
/// window.
pub fn detected_target(window: RectI, control: Option<RectI>) -> (target: DetectedTarget)
    ensures
        match control {
            Some(c) => target == (DetectedTarget { bounds: c, kind: TargetKind::Control }),
            None => target == (DetectedTarget { bounds: window, kind: TargetKind::Window }),
        },
{
    match control {
        Some(c) => DetectedTarget { bounds: c, kind: TargetKind::Control },
        None => DetectedTarget { bounds: window, kind: TargetKind::Window },
    }
}

} // verus!
