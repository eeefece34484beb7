//! Crafting at a city's workshop: a list of recipes, a recipe's detail with the craft
//! button when the hero can afford it, and a confirmation after crafting.

use vstd::prelude::*;
use crate::geometry::Rect;
use crate::page::Page;
use crate::touch::{TouchArea, areas_wf, first_touched, find_touched};

verus! {

/// What a tap on the crafting screen asks for.
#[derive(Clone, Copy, Debug, PartialEq, Eq, Structural)]
pub enum CraftingAction {
    /// The recipe at this position of the city's list.
    SelectRecipe(usize),
    Craft,
    Close,
    Back,
}

/// Which view is shown.
#[derive(Clone, Copy, Debug, PartialEq, Eq, Structural)]
pub enum ViewMode {
    RecipeList,
    RecipeDetail,
}

/// A material a recipe needs: how many the hero has and how many it takes.
#[derive(Clone, Copy, Debug, PartialEq, Eq, Structural)]
pub struct MaterialNeed {
    pub have: u32,
    pub need: u32,
}

/// The hero reaches the level, has the gold and every material.
pub open spec fn craftable(level: u32, gold: u32, required_level: u32, cost: u32, materials: Seq<MaterialNeed>) -> bool {
    &&& level >= required_level
    &&& gold >= cost
    &&& forall|i: int| 0 <= i < materials.len() ==> (#[trigger] materials[i]).have >= materials[i].need
}

/// Whether the hero can craft a recipe.
pub fn can_craft_recipe(level: u32, gold: u32, required_level: u32, cost: u32, materials: &Vec<MaterialNeed>) -> (b: bool)
    ensures
        b == craftable(level, gold, required_level, cost, materials@),
{
    if level < required_level {
        return false;
    }
    if gold < cost {
        return false;
    }
    let mut i: usize = 0;
    while i < materials.len()
        invariant
            i <= materials@.len(),
            forall|j: int| 0 <= j < i ==> (#[trigger] materials@[j]).have >= materials@[j].need,
        decreases materials@.len() - i,
    {
        if materials[i].have < materials[i].need {
            return false;
        }
        i += 1;
    }
    true
}

/// Rows of the recipe list: six recipes from `scroll` on.
pub open spec fn recipe_rows(scroll: int, total: int) -> Seq<TouchArea<CraftingAction>> {
    let shown = if total - scroll < 0 { 0 } else if total - scroll > 6 { 6 } else { total - scroll };
    Seq::new(shown as nat, |k: int| TouchArea {
        rect: Rect { x: 10, y: (45 + 60 * k) as i32, w: 348, h: 55 },
        action: CraftingAction::SelectRecipe((scroll + k) as usize),
    })
}

pub open spec fn close_area() -> TouchArea<CraftingAction> {
    TouchArea { rect: Rect { x: 10, y: 395, w: 348, h: 50 }, action: CraftingAction::Close }
}

/// The detail view's buttons: back, and craft when the hero can.
pub open spec fn detail_areas(can_craft: bool) -> Seq<TouchArea<CraftingAction>> {
    let back = seq![TouchArea { rect: Rect { x: 15, y: 368, w: 170, h: 55 }, action: CraftingAction::Back }];
    if can_craft {
        back.push(TouchArea { rect: Rect { x: 193, y: 368, w: 170, h: 55 }, action: CraftingAction::Craft })
    } else {
        back
    }
}

/// The crafting screen.
pub struct CraftingPage {
    touch_areas: Vec<TouchArea<CraftingAction>>,
    needs_full_redraw: bool,
    pub current_location: String,
    selected_recipe_index: Option<usize>,
    scroll_offset: usize,
    craft_success_item: Option<(String, u32)>,
    view_mode: ViewMode,
}

impl CraftingPage {
    pub closed spec fn areas(&self) -> Seq<TouchArea<CraftingAction>> {
        self.touch_areas@
    }

    pub closed spec fn mode(&self) -> ViewMode {
        self.view_mode
    }

    pub closed spec fn selected(&self) -> Option<usize> {
        self.selected_recipe_index
    }

    pub closed spec fn scroll(&self) -> usize {
        self.scroll_offset
    }

    pub closed spec fn dialog(&self) -> bool {
        self.craft_success_item is Some
    }

    pub closed spec fn location(&self) -> Seq<char> {
        self.current_location@
    }

    pub closed spec fn dirty(&self) -> bool {
        self.needs_full_redraw
    }

    pub closed spec fn wf(&self) -> bool {
        areas_wf(self.touch_areas@)
    }

    /// The recipe list of Prontera.
    pub fn new() -> (p: Self)
        ensures
            p.craft_success_item_data() is None,
            p.wf(),
            p.areas().len() == 0,
            p.mode() == ViewMode::RecipeList,
            p.selected() is None,
            p.scroll() == 0,
            !p.dialog(),
            p.location() == "prontera"@,
    {
        CraftingPage {
            touch_areas: Vec::new(),
            needs_full_redraw: true,
            current_location: String::from_str("prontera"),
            selected_recipe_index: None,
            scroll_offset: 0,
            craft_success_item: None,
            view_mode: ViewMode::RecipeList,
        }
    }

    /// Another city: back to the top of its recipe list.
    pub fn set_location(&mut self, location: String)
        ensures
            final(self).location() == location@,
            final(self).selected() is None,
            final(self).scroll() == 0,
            final(self).mode() == ViewMode::RecipeList,
            final(self).dirty(),
            final(self).areas() == old(self).areas(),
            final(self).dialog() == old(self).dialog(),
            final(self).wf() == old(self).wf(),
    {
        self.current_location = location;
        self.selected_recipe_index = None;
        self.scroll_offset = 0;
        self.view_mode = ViewMode::RecipeList;
        self.needs_full_redraw = true;
    }

    pub fn selected_recipe_index(&self) -> (s: Option<usize>)
        ensures
            s == self.selected(),
    {
        self.selected_recipe_index
    }

    /// Opens the detail of recipe `index`.
    pub fn select_recipe(&mut self, index: usize)
        ensures
            final(self).selected() == Some(index),
            final(self).mode() == ViewMode::RecipeDetail,
            final(self).dirty(),
            final(self).scroll() == old(self).scroll(),
            final(self).areas() == old(self).areas(),
            final(self).dialog() == old(self).dialog(),
            final(self).wf() == old(self).wf(),
    {
        self.selected_recipe_index = Some(index);
        self.view_mode = ViewMode::RecipeDetail;
        self.needs_full_redraw = true;
    }

    /// Back from the detail to the list, keeping the selection.
    pub fn back_to_list(&mut self)
        ensures
            final(self).mode() == ViewMode::RecipeList,
            final(self).dirty(),
            final(self).selected() == old(self).selected(),
            final(self).scroll() == old(self).scroll(),
            final(self).areas() == old(self).areas(),
            final(self).dialog() == old(self).dialog(),
            final(self).wf() == old(self).wf(),
    {
        self.view_mode = ViewMode::RecipeList;
        self.needs_full_redraw = true;
    }

    /// Shows the confirmation of a crafted item.
    pub fn show_craft_success(&mut self, item_name: String, item_id: u32)
        ensures
            final(self).craft_success_item_data() == Some((item_name, item_id)),
            final(self).dialog(),
            final(self).dirty(),
            final(self).mode() == old(self).mode(),
            final(self).selected() == old(self).selected(),
            final(self).areas() == old(self).areas(),
            final(self).wf() == old(self).wf(),
    {
        self.craft_success_item = Some((item_name, item_id));
        self.needs_full_redraw = true;
    }

    pub fn clear_craft_success(&mut self)
        ensures
            final(self).craft_success_item_data() is None,
            !final(self).dialog(),
            final(self).dirty(),
            final(self).mode() == old(self).mode(),
            final(self).selected() == old(self).selected(),
            final(self).areas() == old(self).areas(),
            final(self).wf() == old(self).wf(),
    {
        self.craft_success_item = None;
        self.needs_full_redraw = true;
    }

    pub fn is_success_dialog_open(&self) -> (b: bool)
        ensures
            b == self.dialog(),
    {
        self.craft_success_item.is_some()
    }

    pub closed spec fn craft_success_item_data(&self) -> Option<(String, u32)> {
        self.craft_success_item
    }

    /// The crafted item shown in the confirmation: name and id.
    pub fn craft_success_item(&self) -> (r: &Option<(String, u32)>)
        ensures
            *r == self.craft_success_item_data(),
    {
        &self.craft_success_item
    }

    /// The first touch area under the tap gives its action.
    pub fn handle_touch(&mut self, x: i32, y: i32) -> (a: Option<CraftingAction>)
        requires
            old(self).wf(),
        ensures
            final(self).wf(),
            final(self).areas() == old(self).areas(),
            final(self).mode() == old(self).mode(),
            final(self).selected() == old(self).selected(),
            a == (match first_touched(old(self).areas(), x as int, y as int, 0) {
                Some(i) => Some(old(self).areas()[i].action),
                None => None::<CraftingAction>,
            }),
    {
        match find_touched(&self.touch_areas, x, y) {
            Some(i) => Some(self.touch_areas[i].action),
            None => None,
        }
    }

    /// Registers the touch areas of the view shown, as drawing lays it out: in the list,
    /// six recipe rows from the scroll position (when the city has recipes) and the
    /// close button; in the detail of an existing recipe, back and (when the hero can
    /// craft it) craft. `recipes` is the number of the city's recipes, `None` when the
    /// city has none listed; `can_craft` is for the selected recipe. A pending full
    /// redraw was just done.
    pub fn layout(&mut self, recipes: Option<usize>, can_craft: bool)
        ensures
            final(self).wf(),
            final(self).areas() == (match old(self).mode() {
                ViewMode::RecipeList => match recipes {
                    Some(n) => recipe_rows(old(self).scroll() as int, n as int).push(close_area()),
                    None => seq![close_area()],
                },
                ViewMode::RecipeDetail => match (recipes, old(self).selected()) {
                    (Some(n), Some(i)) => if i < n { detail_areas(can_craft) } else { seq![] },
                    _ => seq![],
                },
            }),
            final(self).mode() == old(self).mode(),
            final(self).selected() == old(self).selected(),
            final(self).scroll() == old(self).scroll(),
            final(self).dialog() == old(self).dialog(),
            !final(self).dirty(),
    {
        let mut areas: Vec<TouchArea<CraftingAction>> = Vec::new();
        match self.view_mode {
            ViewMode::RecipeList => {
                if let Some(total) = recipes {
                    let scroll = self.scroll_offset;
                    let mut k: usize = 0;
                    while k < 6 && scroll < total && k < total - scroll
                        invariant
                            k <= 6,
                            areas@.len() == k,
                            areas_wf(areas@),
                            scroll < total ==> k <= total - scroll,
                            scroll >= total ==> k == 0,
                            forall|j: int| 0 <= j < k ==> #[trigger] areas@[j] == recipe_rows(scroll as int, total as int)[j],
                        decreases 6 - k,
                    {
                        areas.push(TouchArea::new(10, 45 + (k as i32) * 60, 348, 55, CraftingAction::SelectRecipe(scroll + k)));
                        k += 1;
                    }
                    assert(areas@ =~= recipe_rows(scroll as int, total as int));
                }
                areas.push(TouchArea::new(10, 395, 348, 50, CraftingAction::Close));
            },
            ViewMode::RecipeDetail => {
                if let Some(total) = recipes {
                    if let Some(i) = self.selected_recipe_index {
                        if i < total {
                            areas.push(TouchArea::new(15, 368, 170, 55, CraftingAction::Back));
                            if can_craft {
                                areas.push(TouchArea::new(193, 368, 170, 55, CraftingAction::Craft));
                            }
                            assert(areas@ =~= detail_areas(can_craft));
                        }
                    }
                }
            },
        }
        self.touch_areas = areas;
        self.needs_full_redraw = false;
    }
}

impl CraftingPage {
    /// A full redraw is pending.
    pub closed spec fn redraw_pending(&self) -> bool {
        self.needs_full_redraw
    }
}

impl Page for CraftingPage {
    fn update(&mut self) -> (alive: bool)
        ensures
            alive,
            *final(self) == *old(self),
    {
        true
    }

    fn mark_dirty(&mut self)
        ensures
            final(self).redraw_pending(),
    {
        self.needs_full_redraw = true;
    }

    fn needs_full_redraw(&self) -> (b: bool)
        ensures
            b == self.redraw_pending(),
    {
        self.needs_full_redraw
    }
}

} // verus!
