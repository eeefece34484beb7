//! The main menu: a column of buttons, with the battle button only while a battle is
//! running.

use vstd::prelude::*;
use crate::geometry::Rect;
use crate::page::Page;
use crate::touch::{TouchArea, areas_wf, first_touched, find_touched};

verus! {

/// Where a menu button leads.
#[derive(Clone, Copy, Debug, PartialEq, Eq, Structural)]
pub enum MenuAction {
    WorldMap,
    Battle,
    Rustymon,
    Fragments,
    Quests,
}

/// The menu button in slot `slot`.
pub open spec fn menu_button(slot: int, action: MenuAction) -> TouchArea<MenuAction> {
    TouchArea { rect: Rect { x: 44, y: (70 + 68 * slot) as i32, w: 280, h: 50 }, action }
}

/// The buttons, top to bottom: map, battle (while one runs), rustymon, quests, fragments.
pub open spec fn menu_buttons(has_battle: bool) -> Seq<TouchArea<MenuAction>> {
    if has_battle {
        seq![menu_button(0, MenuAction::WorldMap), menu_button(1, MenuAction::Battle), menu_button(2, MenuAction::Rustymon),
            menu_button(3, MenuAction::Quests), menu_button(4, MenuAction::Fragments)]
    } else {
        seq![menu_button(0, MenuAction::WorldMap), menu_button(1, MenuAction::Rustymon), menu_button(2, MenuAction::Quests),
            menu_button(3, MenuAction::Fragments)]
    }
}

/// The main menu.
pub struct MenuPage {
    touch_buttons: Vec<TouchArea<MenuAction>>,
    needs_full_redraw: bool,
    has_active_battle: bool,
}

impl MenuPage {
    pub closed spec fn buttons(&self) -> Seq<TouchArea<MenuAction>> {
        self.touch_buttons@
    }

    pub closed spec fn battle_shown(&self) -> bool {
        self.has_active_battle
    }

    pub closed spec fn dirty(&self) -> bool {
        self.needs_full_redraw
    }

    pub closed spec fn wf(&self) -> bool {
        areas_wf(self.touch_buttons@)
    }

    pub fn new() -> (p: Self)
        ensures
            p.wf(),
            p.buttons().len() == 0,
            !p.battle_shown(),
            p.dirty(),
    {
        MenuPage { touch_buttons: Vec::new(), needs_full_redraw: true, has_active_battle: false }
    }

    /// Records whether a battle runs; a change asks for a full redraw.
    pub fn set_has_active_battle(&mut self, has_battle: bool)
        ensures
            final(self).battle_shown() == has_battle,
            final(self).dirty() == (old(self).dirty() || old(self).battle_shown() != has_battle),
            final(self).buttons() == old(self).buttons(),
            final(self).wf() == old(self).wf(),
    {
        if self.has_active_battle != has_battle {
            self.has_active_battle = has_battle;
            self.needs_full_redraw = true;
        }
    }

    /// Registers the buttons as drawing lays them out; the screen was just cleared
    /// when a full redraw was due.
    pub fn layout(&mut self, has_active_battle: bool)
        ensures
            final(self).wf(),
            final(self).buttons() == menu_buttons(has_active_battle),
            final(self).battle_shown() == old(self).battle_shown(),
            !final(self).dirty(),
    {
        let mut b: Vec<TouchArea<MenuAction>> = Vec::new();
        b.push(TouchArea::new(44, 70, 280, 50, MenuAction::WorldMap));
        if has_active_battle {
            b.push(TouchArea::new(44, 138, 280, 50, MenuAction::Battle));
            b.push(TouchArea::new(44, 206, 280, 50, MenuAction::Rustymon));
            b.push(TouchArea::new(44, 274, 280, 50, MenuAction::Quests));
            b.push(TouchArea::new(44, 342, 280, 50, MenuAction::Fragments));
        } else {
            b.push(TouchArea::new(44, 138, 280, 50, MenuAction::Rustymon));
            b.push(TouchArea::new(44, 206, 280, 50, MenuAction::Quests));
            b.push(TouchArea::new(44, 274, 280, 50, MenuAction::Fragments));
        }
        assert(b@ =~= menu_buttons(has_active_battle));
        self.touch_buttons = b;
        self.needs_full_redraw = false;
    }

    /// The first button under the tap gives its action.
    pub fn handle_touch(&mut self, x: i32, y: i32) -> (a: Option<MenuAction>)
        requires
            old(self).wf(),
        ensures
            final(self).buttons() == old(self).buttons(),
            final(self).wf(),
            final(self).battle_shown() == old(self).battle_shown(),
            final(self).dirty() == old(self).dirty(),
            a == (match first_touched(old(self).buttons(), x as int, y as int, 0) {
                Some(i) => Some(old(self).buttons()[i].action),
                None => None::<MenuAction>,
            }),
    {
        match find_touched(&self.touch_buttons, x, y) {
            Some(i) => Some(self.touch_buttons[i].action),
            None => None,
        }
    }
}

impl MenuPage {
    /// A full redraw is pending.
    pub closed spec fn redraw_pending(&self) -> bool {
        self.needs_full_redraw
    }
}

impl Page for MenuPage {
    fn update(&mut self) -> (alive: bool)
        ensures
            alive,
            *final(self) == *old(self),
    {
        true
    }

    fn mark_dirty(&mut self)
        ensures
            final(self).redraw_pending(),
    {
        self.needs_full_redraw = true;
    }

    fn needs_full_redraw(&self) -> (b: bool)
        ensures
            b == self.redraw_pending(),
    {
        self.needs_full_redraw
    }
}

} // verus!
