//! The menu state machine: a fixed list of game labels, one highlighted
//! entry, and the key-handling transition that moves the highlight with
//! wraparound at both ends.

use vstd::prelude::*;
use vstd::string::StringExecFns;

verus! {

/// A key press as this control understands it: only `Up` and `Down`
/// navigate; every other key is grouped under `Other` and ignored.
#[derive(Clone, Copy, Debug, PartialEq, Eq, Structural)]
pub enum KeyPress {
    Up,
    Down,
    Other,
}

/// A host-shell action as far as this control reads one. The host
/// delivers periodic ticks; the menu has no time-based state, so it
/// ignores ticks and everything else alike.
#[derive(Clone, Copy, Debug, PartialEq, Eq, Structural)]
pub enum MenuAction {
    Tick,
    Other,
}

/// The menu screen state: the selectable labels, fixed at initialization,
/// and the index of the currently highlighted entry.
pub struct GamesArchive {
    /// The selectable labels, in display order.
    pub items: Vec<String>,
    /// Index of the highlighted entry; always in bounds once the control
    /// is initialized (see [`GamesArchive::well_formed`]).
    pub selection: usize,
    /// Largest valid selection index, kept equal to `items.len() - 1`.
    pub max_selection: usize,
}

/// `items` holds exactly the two game labels this menu offers, in order.
pub open spec fn holds_menu_labels(items: Seq<String>) -> bool {
    &&& items.len() == 2
    &&& items[0]@ == "tetris"@
    &&& items[1]@ == "snake_eats_apples"@
}

/// The navigation transition: where the selection moves when `key`
/// arrives while `selection` is highlighted and `max_selection` is the
/// last index. Up advances and wraps from the last entry back to the
/// first; Down retreats and wraps from the first entry to the last;
/// every other key leaves the selection where it is.
pub open spec fn next_selection(selection: int, max_selection: int, key: KeyPress) -> int {
    match key {
        KeyPress::Up => if selection == max_selection {
            0
        } else {
            selection + 1
        },
        KeyPress::Down => if selection == 0 {
            max_selection
        } else {
            selection - 1
        },
        KeyPress::Other => selection,
    }
}

/// The selection reached after a whole sequence of key presses, starting
/// from `selection`.
pub open spec fn selection_after(selection: int, max_selection: int, keys: Seq<KeyPress>) -> int
    decreases keys.len(),
{
    if keys.len() == 0 {
        selection
    } else {
        selection_after(
            next_selection(selection, max_selection, keys[0]),
            max_selection,
            keys.subrange(1, keys.len() as int),
        )
    }
}

/// Builds the fixed label list: the two games this archive offers.
fn make_labels() -> (items: Vec<String>)
    ensures
        holds_menu_labels(items@),
{
    let mut items: Vec<String> = Vec::new();
    items.push(String::from_str("tetris"));
    items.push(String::from_str("snake_eats_apples"));
    items
}

impl GamesArchive {
    /// The structural invariant: at least one label, `max_selection` is
    /// the last index, and the highlighted entry is in bounds.
    pub open spec fn well_formed(self) -> bool {
        &&& self.items@.len() >= 1
        &&& self.max_selection == self.items@.len() - 1
        &&& self.selection <= self.max_selection
    }

    /// Runtime check of [`GamesArchive::well_formed`], for callers outside
    /// the verified world.
    pub fn is_well_formed(&self) -> (r: bool)
        ensures
            r == self.well_formed(),
    {
        let n: usize = self.items.len();
        n >= 1 && self.max_selection == n - 1 && self.selection <= self.max_selection
    }

    /// Makes the menu screen: the fixed labels, with the first entry
    /// highlighted.
    pub fn new() -> (menu: Self)
        ensures
            menu.well_formed(),
            holds_menu_labels(menu.items@),
            menu.selection == 0,
            menu.max_selection == 1,
    {
        let mut menu = GamesArchive { items: Vec::new(), selection: 0, max_selection: 0 };
        menu.create()
    }

    /// (Re)initializes the control: fixes the item list to the two game
    /// labels and resets the selection to the first entry. Returns a
    /// value in the same freshly initialized state, which the host shell
    /// consumes.
    pub fn create(&mut self) -> (menu: Self)
        ensures
            final(self).well_formed(),
            holds_menu_labels(final(self).items@),
            final(self).selection == 0,
            final(self).max_selection == 1,
            menu.well_formed(),
            holds_menu_labels(menu.items@),
            menu.selection == 0,
            menu.max_selection == 1,
    {
        self.items = make_labels();
        self.max_selection = self.items.len() - 1;
        self.selection = 0;
        GamesArchive { items: make_labels(), selection: 0, max_selection: self.max_selection }
    }

    /// The label of the currently highlighted entry: the natural hook for
    /// a host that activates (launches) the selection.
    pub fn selected_label(&self) -> (label: &String)
        requires
            self.well_formed(),
        ensures
            label@ == self.items@[self.selection as int]@,
    {
        &self.items[self.selection]
    }

    /// Moves the highlight for one key press: Up advances with wraparound
    /// from the last entry to the first, Down retreats with wraparound
    /// from the first entry to the last, and every other key changes
    /// nothing. Navigation itself never emits an action.
    pub fn handle_key_events(&mut self, key: KeyPress) -> (action: Option<MenuAction>)
        requires
            old(self).well_formed(),
        ensures
            final(self).well_formed(),
            final(self).items == old(self).items,
            final(self).max_selection == old(self).max_selection,
            final(self).selection == next_selection(
                old(self).selection as int,
                old(self).max_selection as int,
                key,
            ),
            action is None,
    {
        match key {
            KeyPress::Up => {
                if self.selection == self.max_selection {
                    self.selection = 0;
                } else {
                    self.selection = self.selection + 1;
                }
            },
            KeyPress::Down => {
                if self.selection == 0 {
                    self.selection = self.max_selection;
                } else {
                    self.selection = self.selection - 1;
                }
            },
            KeyPress::Other => {},
        }
        None
    }

    /// Receives one host action and deliberately ignores it: ticks carry
    /// no meaning for the menu, and no action makes it emit one back.
    pub fn update(&mut self, action: MenuAction) -> (out: Option<MenuAction>)
        ensures
            *final(self) == *old(self),
            out is None,
    {
        match action {
            MenuAction::Tick => {},
            MenuAction::Other => {},
        }
        None
    }
}

/// Navigation keeps the selection in bounds: from any in-bounds
/// selection, one key press of any kind leads to an in-bounds selection.
pub proof fn lemma_navigation_stays_in_bounds(selection: int, max_selection: int, key: KeyPress)
    requires
        0 <= selection <= max_selection,
    ensures
        0 <= next_selection(selection, max_selection, key) <= max_selection,
{
}

/// Every reachable state is in bounds: starting in bounds, any sequence
/// of key presses ends in bounds.
pub proof fn lemma_reachable_selections_in_bounds(
    selection: int,
    max_selection: int,
    keys: Seq<KeyPress>,
)
    requires
        0 <= selection <= max_selection,
    ensures
        0 <= selection_after(selection, max_selection, keys) <= max_selection,
    decreases keys.len(),
{
    if keys.len() > 0 {
        lemma_reachable_selections_in_bounds(
            next_selection(selection, max_selection, keys[0]),
            max_selection,
            keys.subrange(1, keys.len() as int),
        );
    }
}

/// Up wraps around: from the last entry it returns to the first.
pub proof fn lemma_up_wraps(selection: int, max_selection: int)
    requires
        0 <= selection <= max_selection,
        selection == max_selection,
    ensures
        next_selection(selection, max_selection, KeyPress::Up) == 0,
{
}

/// Down wraps around: from the first entry it returns to the last.
pub proof fn lemma_down_wraps(selection: int, max_selection: int)
    requires
        0 <= selection <= max_selection,
        selection == 0,
    ensures
        next_selection(selection, max_selection, KeyPress::Down) == max_selection,
{
}

/// Strictly inside the list, Up moves the selection by exactly +1 and
/// Down by exactly -1.
pub proof fn lemma_interior_step(selection: int, max_selection: int)
    requires
        0 < selection < max_selection,
    ensures
        next_selection(selection, max_selection, KeyPress::Up) == selection + 1,
        next_selection(selection, max_selection, KeyPress::Down) == selection - 1,
{
}

/// Keys other than Up and Down leave the selection unchanged.
pub proof fn lemma_other_keys_ignored(selection: int, max_selection: int, key: KeyPress)
    requires
        key != KeyPress::Up,
        key != KeyPress::Down,
    ensures
        next_selection(selection, max_selection, key) == selection,
{
}

} // verus!
