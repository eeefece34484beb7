//! Touch areas that a screen registers while it lays itself out, each carrying the
//! action a tap on it triggers.

use vstd::prelude::*;
use crate::geometry::Rect;

verus! {

/// A rectangle of the screen and what a tap on it does.
pub struct TouchArea<A> {
    pub rect: Rect,
    pub action: A,
}

impl<A> TouchArea<A> {
    pub fn new(x: i32, y: i32, w: u32, h: u32, action: A) -> (t: Self)
        ensures
            t.rect == (Rect { x, y, w, h }),
            t.action == action,
    {
        TouchArea { rect: Rect::new(x, y, w, h), action }
    }
}

/// Every area's edges fit in `i32`.
pub open spec fn areas_wf<A>(areas: Seq<TouchArea<A>>) -> bool {
    forall|i: int| 0 <= i < areas.len() ==> (#[trigger] areas[i]).rect.wf()
}

/// Index of the first area, from `from` on, that holds the point.
pub open spec fn first_touched<A>(areas: Seq<TouchArea<A>>, x: int, y: int, from: int) -> Option<int>
    decreases areas.len() - from,
{
    if from < 0 || from >= areas.len() {
        None
    } else if areas[from].rect.has(x, y) {
        Some(from)
    } else {
        first_touched(areas, x, y, from + 1)
    }
}

proof fn lemma_first_touched_in_range<A>(areas: Seq<TouchArea<A>>, x: int, y: int, from: int)
    ensures
        first_touched(areas, x, y, from) matches Some(i) ==> from <= i < areas.len() && areas[i].rect.has(x, y),
    decreases areas.len() - from,
{
    if 0 <= from < areas.len() && !areas[from].rect.has(x, y) {
        lemma_first_touched_in_range(areas, x, y, from + 1);
    }
}

/// Index of the first area that holds the point.
pub fn find_touched<A>(areas: &Vec<TouchArea<A>>, x: i32, y: i32) -> (r: Option<usize>)
    requires
        areas_wf(areas@),
    ensures
        r is None <==> first_touched(areas@, x as int, y as int, 0) is None,
        r matches Some(i) ==> first_touched(areas@, x as int, y as int, 0) == Some(i as int),
        r matches Some(i) ==> i < areas@.len() && areas@[i as int].rect.has(x as int, y as int),
        first_touched(areas@, x as int, y as int, 0) matches Some(i) ==> 0 <= i < areas@.len(),
{
    proof {
        lemma_first_touched_in_range(areas@, x as int, y as int, 0);
    }
    let mut i: usize = 0;
    while i < areas.len()
        invariant
            i <= areas@.len(),
            areas_wf(areas@),
            first_touched(areas@, x as int, y as int, i as int) == first_touched(areas@, x as int, y as int, 0),
        decreases areas@.len() - i,
    {
        if areas[i].rect.contains(x, y) {
            return Some(i);
        }
        i += 1;
    }
    None
}

} // verus!
