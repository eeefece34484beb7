//! Equipment: the hero's slots, an equipped item's detail with upgrade and switch
//! buttons, and the dialog that picks an item for a slot.

use vstd::prelude::*;
use crate::geometry::Rect;
use crate::page::Page;
use crate::touch::{TouchArea, areas_wf, first_touched, find_touched};

verus! {

/// What a tap on the equipment screen asks for. Slots are named by their position in
/// the game's list of slots.
#[derive(Clone, Copy, Debug, PartialEq, Eq, Structural)]
pub enum EquipmentAction {
    SelectSlot(usize),
    SwitchToInventory,
    /// Upgrade the item with this unique id.
    Upgrade(u64),
    /// Open the item selection dialog.
    Switch,
    Back,
    Close,
}

/// Which view is shown.
#[derive(Clone, Copy, Debug, PartialEq, Eq, Structural)]
pub enum ViewMode {
    SlotList,
    ItemDetail,
    ItemSelection,
}

/// What the detail view knows of the slot's item.
#[derive(Clone, Copy, Debug, PartialEq, Eq, Structural)]
pub enum DetailInfo {
    /// Nothing is equipped.
    Empty,
    /// Something is equipped but the inventory or the game data lacks it.
    Unknown,
    /// The equipped item and its upgrade level.
    Item { unique_id: u64, upgrade: u8 },
}

pub open spec fn area(x: int, y: int, w: int, h: int, action: EquipmentAction) -> TouchArea<EquipmentAction> {
    TouchArea { rect: Rect { x: x as i32, y: y as i32, w: w as u32, h: h as u32 }, action }
}

/// The slot grid (two columns) and the inventory and close buttons.
pub open spec fn slot_list_areas(n: int) -> Seq<TouchArea<EquipmentAction>> {
    Seq::new(n as nat, |i: int| area(if i % 2 == 0 { 15 } else { 188 }, 45 + 73 * (i / 2), 165, 65, EquipmentAction::SelectSlot(i as usize)))
        + seq![area(15, 368, 165, 60, EquipmentAction::SwitchToInventory), area(188, 368, 165, 60, EquipmentAction::Close)]
}

/// The detail view's buttons, stacked from y = 290 (upgrade below level 10, switch,
/// back), or equip and back for an empty slot.
pub open spec fn detail_areas(info: DetailInfo) -> Seq<TouchArea<EquipmentAction>> {
    match info {
        DetailInfo::Empty => seq![area(15, 350, 338, 55, EquipmentAction::Switch), area(15, 410, 338, 55, EquipmentAction::Back)],
        DetailInfo::Unknown => seq![],
        DetailInfo::Item { unique_id, upgrade } => if upgrade < 10 {
            seq![area(15, 290, 338, 55, EquipmentAction::Upgrade(unique_id)), area(15, 350, 338, 55, EquipmentAction::Switch),
                area(15, 410, 338, 55, EquipmentAction::Back)]
        } else {
            seq![area(15, 290, 338, 55, EquipmentAction::Switch), area(15, 350, 338, 55, EquipmentAction::Back)]
        },
    }
}

/// The dialog's areas: five item rows from the scroll position, the unequip button and
/// (below level 10) the upgrade button when something is equipped, and close.
pub open spec fn dialog_areas(slot: usize, eligible: int, scroll: int, equipped: Option<(u64, Option<u8>)>) -> Seq<TouchArea<EquipmentAction>> {
    let shown = if eligible - scroll < 0 { 0 } else if eligible - scroll > 5 { 5 } else { eligible - scroll };
    let rows = Seq::new(shown as nat, |k: int| area(25, 100 + 45 * k, 318, 42, EquipmentAction::SelectSlot(slot)));
    let buttons = match equipped {
        Some((id, level)) => {
            let up = match level {
                Some(l) => if l < 10 { seq![area(194, 288, 154, 50, EquipmentAction::Upgrade(id))] } else { seq![] },
                None => seq![],
            };
            seq![area(30, 288, 154, 50, EquipmentAction::SelectSlot(slot))] + up
        },
        None => seq![],
    };
    rows + buttons + seq![area(30, 343, 308, 50, EquipmentAction::Close)]
}

/// The equipment screen.
pub struct EquipmentPage {
    touch_areas: Vec<TouchArea<EquipmentAction>>,
    needs_full_redraw: bool,
    selected_slot: Option<usize>,
    pub dialog_scroll_offset: usize,
    view_mode: ViewMode,
}

impl EquipmentPage {
    pub closed spec fn areas(&self) -> Seq<TouchArea<EquipmentAction>> {
        self.touch_areas@
    }

    pub closed spec fn mode(&self) -> ViewMode {
        self.view_mode
    }

    pub closed spec fn slot(&self) -> Option<usize> {
        self.selected_slot
    }

    pub closed spec fn scroll(&self) -> usize {
        self.dialog_scroll_offset
    }

    pub closed spec fn dirty(&self) -> bool {
        self.needs_full_redraw
    }

    pub closed spec fn wf(&self) -> bool {
        areas_wf(self.touch_areas@)
    }

    pub fn new() -> (p: Self)
        ensures
            p.wf(),
            p.areas().len() == 0,
            p.mode() == ViewMode::SlotList,
            p.slot() is None,
            p.scroll() == 0,
            p.dirty(),
    {
        EquipmentPage {
            touch_areas: Vec::new(),
            needs_full_redraw: true,
            selected_slot: None,
            dialog_scroll_offset: 0,
            view_mode: ViewMode::SlotList,
        }
    }

    /// The first touch area under the tap gives its action.
    pub fn handle_touch(&mut self, x: i32, y: i32) -> (a: Option<EquipmentAction>)
        requires
            old(self).wf(),
        ensures
            final(self).wf(),
            final(self).areas() == old(self).areas(),
            final(self).mode() == old(self).mode(),
            final(self).slot() == old(self).slot(),
            a == (match first_touched(old(self).areas(), x as int, y as int, 0) {
                Some(i) => Some(old(self).areas()[i].action),
                None => None::<EquipmentAction>,
            }),
    {
        match find_touched(&self.touch_areas, x, y) {
            Some(i) => Some(self.touch_areas[i].action),
            None => None,
        }
    }

    /// Opens the detail of `slot`.
    pub fn open_dialog(&mut self, slot: usize)
        ensures
            final(self).slot() == Some(slot),
            final(self).mode() == ViewMode::ItemDetail,
            final(self).scroll() == 0,
            final(self).dirty(),
            final(self).areas() == old(self).areas(),
            final(self).wf() == old(self).wf(),
    {
        self.selected_slot = Some(slot);
        self.view_mode = ViewMode::ItemDetail;
        self.dialog_scroll_offset = 0;
        self.needs_full_redraw = true;
    }

    /// Opens the item selection dialog for the slot shown.
    pub fn open_selection(&mut self)
        ensures
            final(self).mode() == ViewMode::ItemSelection,
            final(self).scroll() == 0,
            final(self).dirty(),
            final(self).slot() == old(self).slot(),
            final(self).areas() == old(self).areas(),
            final(self).wf() == old(self).wf(),
    {
        self.view_mode = ViewMode::ItemSelection;
        self.dialog_scroll_offset = 0;
        self.needs_full_redraw = true;
    }

    /// The page back at the slot list: no slot chosen, no dialog scroll, a full
    /// redraw pending, everything else as it was.
    pub closed spec fn at_slot_list(self) -> Self {
        EquipmentPage {
            view_mode: ViewMode::SlotList,
            selected_slot: None,
            dialog_scroll_offset: 0,
            needs_full_redraw: true,
            ..self
        }
    }

    /// Back to the slot list, forgetting the slot.
    pub fn back_to_list(&mut self)
        ensures
            *final(self) == old(self).at_slot_list(),
            final(self).mode() == ViewMode::SlotList,
            final(self).slot() is None,
            final(self).scroll() == 0,
            final(self).dirty(),
            final(self).areas() == old(self).areas(),
            final(self).wf() == old(self).wf(),
    {
        self.view_mode = ViewMode::SlotList;
        self.selected_slot = None;
        self.dialog_scroll_offset = 0;
        self.needs_full_redraw = true;
    }

    /// Back from the selection dialog to the detail.
    pub fn back_to_detail(&mut self)
        ensures
            final(self).mode() == ViewMode::ItemDetail,
            final(self).scroll() == 0,
            final(self).dirty(),
            final(self).slot() == old(self).slot(),
            final(self).areas() == old(self).areas(),
            final(self).wf() == old(self).wf(),
    {
        self.view_mode = ViewMode::ItemDetail;
        self.dialog_scroll_offset = 0;
        self.needs_full_redraw = true;
    }

    /// Closing the dialog goes back to the slot list.
    pub fn close_dialog(&mut self)
        ensures
            *final(self) == old(self).at_slot_list(),
            final(self).mode() == ViewMode::SlotList,
            final(self).slot() is None,
            final(self).scroll() == 0,
            final(self).dirty(),
            final(self).areas() == old(self).areas(),
            final(self).wf() == old(self).wf(),
    {
        self.back_to_list();
    }

    pub fn is_dialog_open(&self) -> (b: bool)
        ensures
            b == (self.mode() == ViewMode::ItemSelection),
    {
        self.view_mode == ViewMode::ItemSelection
    }

    pub fn selected_slot(&self) -> (s: Option<usize>)
        ensures
            s == self.slot(),
    {
        self.selected_slot
    }

    pub fn view_mode(&self) -> (m: ViewMode)
        ensures
            m == self.mode(),
    {
        self.view_mode
    }

    /// Registers the slot list's areas for `slot_count` slots (two per row); a pending
    /// full redraw was just done.
    pub fn layout_slot_list(&mut self, slot_count: usize)
        requires
            slot_count <= 16,
        ensures
            final(self).wf(),
            final(self).areas() == slot_list_areas(slot_count as int),
            final(self).mode() == old(self).mode(),
            final(self).slot() == old(self).slot(),
            final(self).scroll() == old(self).scroll(),
            !final(self).dirty(),
    {
        let mut areas: Vec<TouchArea<EquipmentAction>> = Vec::new();
        let mut i: usize = 0;
        while i < slot_count
            invariant
                i <= slot_count,
                slot_count <= 16,
                areas@.len() == i,
                areas_wf(areas@),
                forall|j: int| 0 <= j < i ==> #[trigger] areas@[j] == slot_list_areas(slot_count as int)[j],
            decreases slot_count - i,
        {
            let x: i32 = if i % 2 == 0 { 15 } else { 188 };
            let y: i32 = 45 + ((i / 2) as i32) * 73;
            areas.push(TouchArea::new(x, y, 165, 65, EquipmentAction::SelectSlot(i)));
            i += 1;
        }
        areas.push(TouchArea::new(15, 368, 165, 60, EquipmentAction::SwitchToInventory));
        areas.push(TouchArea::new(188, 368, 165, 60, EquipmentAction::Close));
        assert(areas@ =~= slot_list_areas(slot_count as int));
        self.touch_areas = areas;
        self.needs_full_redraw = false;
    }

    /// Registers the detail view's buttons for the slot shown (none without a slot).
    pub fn layout_detail(&mut self, info: DetailInfo)
        ensures
            final(self).wf(),
            final(self).areas() == (if old(self).slot() is Some { detail_areas(info) } else { seq![] }),
            final(self).mode() == old(self).mode(),
            final(self).slot() == old(self).slot(),
            final(self).scroll() == old(self).scroll(),
            !final(self).dirty(),
    {
        let mut areas: Vec<TouchArea<EquipmentAction>> = Vec::new();
        if self.selected_slot.is_some() {
            match info {
                DetailInfo::Empty => {
                    areas.push(TouchArea::new(15, 350, 338, 55, EquipmentAction::Switch));
                    areas.push(TouchArea::new(15, 410, 338, 55, EquipmentAction::Back));
                },
                DetailInfo::Unknown => {},
                DetailInfo::Item { unique_id, upgrade } => {
                    let mut y: i32 = 290;
                    if upgrade < 10 {
                        areas.push(TouchArea::new(15, y, 338, 55, EquipmentAction::Upgrade(unique_id)));
                        y = y + 60;
                    }
                    areas.push(TouchArea::new(15, y, 338, 55, EquipmentAction::Switch));
                    y = y + 60;
                    areas.push(TouchArea::new(15, y, 338, 55, EquipmentAction::Back));
                },
            }
            assert(areas@ =~= detail_areas(info));
        }
        self.touch_areas = areas;
        self.needs_full_redraw = false;
    }

    /// Registers the selection dialog's areas for the slot shown (none without a slot):
    /// `eligible` items fit the slot; `equipped` is the slot's item, with its upgrade
    /// level when the inventory holds it.
    pub fn layout_dialog(&mut self, eligible: usize, equipped: Option<(u64, Option<u8>)>)
        ensures
            final(self).wf(),
            final(self).areas() == (match old(self).slot() {
                Some(s) => dialog_areas(s, eligible as int, old(self).scroll() as int, equipped),
                None => seq![],
            }),
            final(self).mode() == old(self).mode(),
            final(self).slot() == old(self).slot(),
            final(self).scroll() == old(self).scroll(),
            !final(self).dirty(),
    {
        let mut areas: Vec<TouchArea<EquipmentAction>> = Vec::new();
        if let Some(slot) = self.selected_slot {
            let scroll = self.dialog_scroll_offset;
            let mut k: usize = 0;
            while k < 5 && scroll < eligible && k < eligible - scroll
                invariant
                    k <= 5,
                    areas@.len() == k,
                    areas_wf(areas@),
                    scroll < eligible ==> k <= eligible - scroll,
                    scroll >= eligible ==> k == 0,
                    forall|j: int| 0 <= j < k ==> #[trigger] areas@[j] == area(25, 100 + 45 * j, 318, 42, EquipmentAction::SelectSlot(slot)),
                decreases 5 - k,
            {
                areas.push(TouchArea::new(25, 100 + (k as i32) * 45, 318, 42, EquipmentAction::SelectSlot(slot)));
                k += 1;
            }
            if let Some((id, level)) = equipped {
                areas.push(TouchArea::new(30, 288, 154, 50, EquipmentAction::SelectSlot(slot)));
                if let Some(l) = level {
                    if l < 10 {
                        areas.push(TouchArea::new(194, 288, 154, 50, EquipmentAction::Upgrade(id)));
                    }
                }
            }
            areas.push(TouchArea::new(30, 343, 308, 50, EquipmentAction::Close));
            assert(areas@ =~= dialog_areas(slot, eligible as int, scroll as int, equipped));
        }
        self.touch_areas = areas;
        self.needs_full_redraw = false;
    }
}

impl EquipmentPage {
    /// A full redraw is pending.
    pub closed spec fn redraw_pending(&self) -> bool {
        self.needs_full_redraw
    }
}

impl Page for EquipmentPage {
    fn update(&mut self) -> (alive: bool)
        ensures
            alive,
            *final(self) == *old(self),
    {
        true
    }

    fn mark_dirty(&mut self)
        ensures
            final(self).redraw_pending(),
    {
        self.needs_full_redraw = true;
    }

    fn needs_full_redraw(&self) -> (b: bool)
        ensures
            b == self.redraw_pending(),
    {
        self.needs_full_redraw
    }
}

} // verus!
