//! The rustymon collection, six rows to a screen, with scroll and close buttons.

use vstd::prelude::*;
use crate::geometry::Rect;
use crate::page::Page;
use crate::touch::{TouchArea, areas_wf, first_touched, find_touched};

verus! {

/// What a tap on the list asks for.
#[derive(Clone, Copy, Debug, PartialEq, Eq, Structural)]
pub enum RustymonListAction {
    /// The rustymon at this position of the collection.
    SelectRustymon(usize),
    ScrollUp,
    ScrollDown,
    Close,
}

/// Rows shown on one screen.
pub const ITEMS_PER_PAGE: usize = 6;

/// Rows of the collection shown from `scroll` on: at most six.
pub open spec fn row_areas(scroll: int, total: int) -> Seq<TouchArea<RustymonListAction>> {
    let shown = if total - scroll < 0 { 0 } else if total - scroll > 6 { 6 } else { total - scroll };
    Seq::new(shown as nat, |k: int| TouchArea {
        rect: Rect { x: 10, y: (50 + 60 * k) as i32, w: 348, h: 60 },
        action: RustymonListAction::SelectRustymon((scroll + k) as usize),
    })
}

/// Every touch area of the list: the rows, the scroll buttons when there is more
/// above or below, and the close button.
pub open spec fn list_areas(scroll: int, total: int) -> Seq<TouchArea<RustymonListAction>> {
    let up = if scroll > 0 {
        seq![TouchArea { rect: Rect { x: 320, y: 30, w: 40, h: 20 }, action: RustymonListAction::ScrollUp }]
    } else {
        seq![]
    };
    let down = if scroll + 6 < total {
        seq![TouchArea { rect: Rect { x: 320, y: 410, w: 40, h: 20 }, action: RustymonListAction::ScrollDown }]
    } else {
        seq![]
    };
    row_areas(scroll, total) + up + down
        + seq![TouchArea { rect: Rect { x: 10, y: 420, w: 100, h: 30 }, action: RustymonListAction::Close }]
}

/// The rustymon list.
pub struct RustymonListPage {
    touch_areas: Vec<TouchArea<RustymonListAction>>,
    needs_full_redraw: bool,
    scroll_offset: usize,
}

impl RustymonListPage {
    pub closed spec fn areas(&self) -> Seq<TouchArea<RustymonListAction>> {
        self.touch_areas@
    }

    pub closed spec fn scroll(&self) -> usize {
        self.scroll_offset
    }

    pub closed spec fn dirty(&self) -> bool {
        self.needs_full_redraw
    }

    pub closed spec fn wf(&self) -> bool {
        areas_wf(self.touch_areas@)
    }

    pub fn new() -> (p: Self)
        ensures
            p.wf(),
            p.areas().len() == 0,
            p.scroll() == 0,
            p.dirty(),
    {
        RustymonListPage { touch_areas: Vec::new(), needs_full_redraw: true, scroll_offset: 0 }
    }

    pub fn scroll_offset(&self) -> (o: usize)
        ensures
            o == self.scroll(),
    {
        self.scroll_offset
    }

    /// The first touch area under the tap gives its action.
    pub fn handle_touch(&mut self, x: i32, y: i32) -> (a: Option<RustymonListAction>)
        requires
            old(self).wf(),
        ensures
            final(self).wf(),
            final(self).areas() == old(self).areas(),
            final(self).scroll() == old(self).scroll(),
            final(self).dirty() == old(self).dirty(),
            a == (match first_touched(old(self).areas(), x as int, y as int, 0) {
                Some(i) => Some(old(self).areas()[i].action),
                None => None::<RustymonListAction>,
            }),
    {
        match find_touched(&self.touch_areas, x, y) {
            Some(i) => Some(self.touch_areas[i].action),
            None => None,
        }
    }

    pub fn scroll_up(&mut self)
        ensures
            final(self).scroll() == (if old(self).scroll() > 0 { old(self).scroll() - 1 } else { 0 }),
            final(self).dirty() == (old(self).dirty() || old(self).scroll() > 0),
            final(self).areas() == old(self).areas(),
            final(self).wf() == old(self).wf(),
    {
        if self.scroll_offset > 0 {
            self.scroll_offset -= 1;
            self.needs_full_redraw = true;
        }
    }

    /// Scrolls down one row while more than six rows remain from the top shown.
    pub fn scroll_down(&mut self, total_rustymon: usize)
        ensures
            final(self).scroll() == (if old(self).scroll() + 6 < total_rustymon { old(self).scroll() + 1 } else { old(self).scroll() as int }),
            final(self).areas() == old(self).areas(),
            final(self).wf() == old(self).wf(),
    {
        if self.scroll_offset < total_rustymon && total_rustymon - self.scroll_offset > ITEMS_PER_PAGE {
            self.scroll_offset += 1;
            self.needs_full_redraw = true;
        }
    }

    /// Registers the touch areas for a collection of `total` rustymon, as drawing lays
    /// them out; a pending full redraw was just done.
    pub fn layout(&mut self, total: usize)
        ensures
            final(self).wf(),
            final(self).areas() == list_areas(old(self).scroll() as int, total as int),
            final(self).scroll() == old(self).scroll(),
            !final(self).dirty(),
    {
        let scroll = self.scroll_offset;
        let mut areas: Vec<TouchArea<RustymonListAction>> = Vec::new();
        let mut k: usize = 0;
        while k < ITEMS_PER_PAGE && scroll < total && k < total - scroll
            invariant
                k <= 6,
                areas@.len() == k,
                areas_wf(areas@),
                scroll < total ==> k <= total - scroll,
                scroll >= total ==> k == 0,
                forall|j: int| 0 <= j < k ==> #[trigger] areas@[j] == row_areas(scroll as int, total as int)[j],
            decreases 6 - k,
        {
            areas.push(TouchArea::new(10, 50 + (k as i32) * 60, 348, 60, RustymonListAction::SelectRustymon(scroll + k)));
            k += 1;
        }
        assert(areas@ =~= row_areas(scroll as int, total as int));
        let ghost rows = areas@;
        if scroll > 0 {
            areas.push(TouchArea::new(320, 30, 40, 20, RustymonListAction::ScrollUp));
        }
        let ghost with_up = areas@;
        let visible_end = if total - scroll.min(total) > ITEMS_PER_PAGE { scroll + ITEMS_PER_PAGE } else { total };
        if visible_end < total {
            areas.push(TouchArea::new(320, 410, 40, 20, RustymonListAction::ScrollDown));
        }
        areas.push(TouchArea::new(10, 420, 100, 30, RustymonListAction::Close));
        assert(areas@ =~= list_areas(scroll as int, total as int));
        self.touch_areas = areas;
        self.needs_full_redraw = false;
    }
}

impl RustymonListPage {
    /// A full redraw is pending.
    pub closed spec fn redraw_pending(&self) -> bool {
        self.needs_full_redraw
    }
}

impl Page for RustymonListPage {
    fn update(&mut self) -> (alive: bool)
        ensures
            alive,
            *final(self) == *old(self),
    {
        true
    }

    fn mark_dirty(&mut self)
        ensures
            final(self).redraw_pending(),
    {
        self.needs_full_redraw = true;
    }

    fn needs_full_redraw(&self) -> (b: bool)
        ensures
            b == self.redraw_pending(),
    {
        self.needs_full_redraw
    }
}

} // verus!
