//! A rustymon's details, with its idle animation and buttons to change its team
//! membership or open its skills.

use vstd::prelude::*;
use crate::geometry::Rect;
use crate::page::Page;
use crate::touch::{TouchArea, areas_wf, first_touched, find_touched};

verus! {

/// What a tap on the detail screen asks for.
#[derive(Clone, Copy, Debug, PartialEq, Eq, Structural)]
pub enum RustymonDetailAction {
    AddToTeam,
    RemoveFromTeam,
    OpenSkills,
    Close,
}

/// Which idle animation a species shows.
#[derive(Clone, Copy, Debug, PartialEq, Eq, Structural)]
pub enum IdleAnimation {
    Poring,
    Hornet,
    Fabre,
    ThiefBug,
}

/// The idle animation of a species; species without one show the fabre's.
pub open spec fn idle_of(species_id: u32) -> IdleAnimation {
    if species_id == 1002 {
        IdleAnimation::Poring
    } else if species_id == 1004 {
        IdleAnimation::Hornet
    } else if species_id == 1051 {
        IdleAnimation::ThiefBug
    } else {
        IdleAnimation::Fabre
    }
}

/// The idle animation of a species.
pub fn idle_animation_for(species_id: u32) -> (a: IdleAnimation)
    ensures
        a == idle_of(species_id),
{
    match species_id {
        1002 => IdleAnimation::Poring,
        1004 => IdleAnimation::Hornet,
        1007 => IdleAnimation::Fabre,
        1051 => IdleAnimation::ThiefBug,
        _ => IdleAnimation::Fabre,
    }
}

/// The team button (leave or join, by membership), then the skills button.
pub open spec fn detail_buttons(in_team: bool) -> Seq<TouchArea<RustymonDetailAction>> {
    seq![
        TouchArea {
            rect: Rect { x: 20, y: 380, w: 160, h: 35 },
            action: if in_team { RustymonDetailAction::RemoveFromTeam } else { RustymonDetailAction::AddToTeam },
        },
        TouchArea { rect: Rect { x: 190, y: 380, w: 160, h: 35 }, action: RustymonDetailAction::OpenSkills },
    ]
}

/// The detail screen; whether the idle animation is loaded is tracked here.
pub struct RustymonDetailPage {
    touch_areas: Vec<TouchArea<RustymonDetailAction>>,
    needs_full_redraw: bool,
    idle_loaded: Option<IdleAnimation>,
}

impl RustymonDetailPage {
    pub closed spec fn areas(&self) -> Seq<TouchArea<RustymonDetailAction>> {
        self.touch_areas@
    }

    pub closed spec fn idle(&self) -> Option<IdleAnimation> {
        self.idle_loaded
    }

    pub closed spec fn wf(&self) -> bool {
        areas_wf(self.touch_areas@)
    }

    pub fn new() -> (p: Self)
        ensures
            p.redraw_pending(),
            p.wf(),
            p.areas().len() == 0,
            p.idle() is None,
    {
        RustymonDetailPage { touch_areas: Vec::new(), needs_full_redraw: true, idle_loaded: None }
    }

    /// Forgets the idle animation (another rustymon is shown).
    pub fn clear_idle_animation(&mut self)
        ensures
            final(self).idle() is None,
            final(self).areas() == old(self).areas(),
            final(self).wf() == old(self).wf(),
    {
        self.idle_loaded = None;
    }

    pub fn has_idle_animation(&self) -> (b: bool)
        ensures
            b == self.idle() is Some,
    {
        self.idle_loaded.is_some()
    }

    /// Chooses the idle animation of a species; the caller loads its frames.
    pub fn load_idle_animation(&mut self, species_id: u32) -> (a: IdleAnimation)
        ensures
            a == idle_of(species_id),
            final(self).idle() == Some(a),
            final(self).areas() == old(self).areas(),
            final(self).wf() == old(self).wf(),
    {
        let a = idle_animation_for(species_id);
        self.idle_loaded = Some(a);
        a
    }

    /// The first button under the tap gives its action.
    pub fn handle_touch(&mut self, x: i32, y: i32) -> (a: Option<RustymonDetailAction>)
        requires
            old(self).wf(),
        ensures
            final(self).wf(),
            final(self).areas() == old(self).areas(),
            final(self).idle() == old(self).idle(),
            a == (match first_touched(old(self).areas(), x as int, y as int, 0) {
                Some(i) => Some(old(self).areas()[i].action),
                None => None::<RustymonDetailAction>,
            }),
    {
        match find_touched(&self.touch_areas, x, y) {
            Some(i) => Some(self.touch_areas[i].action),
            None => None,
        }
    }

    /// Registers the buttons, as drawing places them; a pending full redraw was done.
    pub fn layout(&mut self, in_team: bool)
        ensures
            final(self).wf(),
            final(self).areas() == detail_buttons(in_team),
            final(self).idle() == old(self).idle(),
    {
        let mut b: Vec<TouchArea<RustymonDetailAction>> = Vec::new();
        if in_team {
            b.push(TouchArea::new(20, 380, 160, 35, RustymonDetailAction::RemoveFromTeam));
        } else {
            b.push(TouchArea::new(20, 380, 160, 35, RustymonDetailAction::AddToTeam));
        }
        b.push(TouchArea::new(190, 380, 160, 35, RustymonDetailAction::OpenSkills));
        assert(b@ =~= detail_buttons(in_team));
        self.touch_areas = b;
        self.needs_full_redraw = false;
    }
}

impl RustymonDetailPage {
    /// A full redraw is pending.
    pub closed spec fn redraw_pending(&self) -> bool {
        self.needs_full_redraw
    }
}

impl Page for RustymonDetailPage {
    fn update(&mut self) -> (alive: bool)
        ensures
            alive,
            *final(self) == *old(self),
    {
        true
    }

    fn mark_dirty(&mut self)
        ensures
            final(self).redraw_pending(),
    {
        self.needs_full_redraw = true;
    }

    fn needs_full_redraw(&self) -> (b: bool)
        ensures
            b == self.redraw_pending(),
    {
        self.needs_full_redraw
    }
}

} // verus!
