//! The markers drawn over a displayed frame.

use vstd::prelude::*;
use crate::geometry::{Circle, Point};

verus! {

/// The radius of the circle around the centroid of the current frame.
pub const CENTROID_RADIUS: i32 = 20;

/// The radius of the circle around each recorded hit.
pub const HIT_RADIUS: i32 = 5;

/// The intensity of every channel of the outline colour: white.
pub const OUTLINE_INTENSITY: u8 = 255;

/// The width of an outline in pixels; the circles are not filled.
pub const OUTLINE_THICKNESS: i32 = 1;

/// The connectivity of the lines that make up an outline.
pub const LINE_CONNECTIVITY: i32 = 8;

/// The marker of a recorded hit.
pub open spec fn hit_marker(hit: Point) -> Circle {
    Circle { center: hit, radius: HIT_RADIUS }
}

/// The marker of the centroid of the current frame.
pub open spec fn centroid_marker(centroid: Point) -> Circle {
    Circle { center: centroid, radius: CENTROID_RADIUS }
}

/// The circles to draw on a frame, in drawing order: the marker of the
/// centroid if there is one, then the marker of every recorded hit, oldest
/// first.
pub open spec fn overlay(centroid: Option<Point>, hits: Seq<Point>) -> Seq<Circle> {
    let markers = Seq::new(hits.len(), |i: int| hit_marker(hits[i]));
    match centroid {
        Some(c) => seq![centroid_marker(c)] + markers,
        None => markers,
    }
}

/// Lists the circles to draw on a frame with the given centroid, once the
/// hits hold what the frame added to them.
pub fn overlay_circles(centroid: Option<Point>, hits: &Vec<Point>) -> (circles: Vec<Circle>)
    ensures
        circles@ == overlay(centroid, hits@),
{
    let mut circles: Vec<Circle> = Vec::new();
    if let Some(c) = centroid {
        circles.push(Circle { center: c, radius: CENTROID_RADIUS });
    }
    let ghost head = circles@;
    let mut i: usize = 0;
    while i < hits.len()
        invariant
            i <= hits.len(),
            circles@ == head + Seq::new(i as nat, |k: int| hit_marker(hits@[k])),
        decreases hits.len() - i,
    {
        circles.push(Circle { center: hits[i], radius: HIT_RADIUS });
        i = i + 1;
    }
    circles
}

} // verus!
