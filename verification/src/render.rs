//! The render-description operation: from the menu state and a drawable
//! area to a plan the host shell can draw — two vertically stacked
//! regions (title banner on top, list below), one styled line per label
//! with the selected one highlighted, and a scrollbar thumb tracking the
//! selection. The computation is pure: it never changes the menu state.

use crate::menu::GamesArchive;
use vstd::arithmetic::div_mod::{
    lemma_div_is_ordered,
    lemma_div_multiples_vanish,
    lemma_div_pos_is_pos,
};
use vstd::prelude::*;
use vstd::string::StringExecFns;

verus! {

/// A rectangular region of the host's drawing surface, in terminal
/// cells: `x`/`y` is the top-left corner.
#[derive(Clone, Copy, Debug, PartialEq, Eq, Structural)]
pub struct Region {
    pub x: u16,
    pub y: u16,
    pub width: u16,
    pub height: u16,
}

/// How one list line is styled: every label is drawn in the single
/// accent style, except the selected one, which is drawn inverted
/// (foreground and background swapped).
#[derive(Clone, Copy, Debug, PartialEq, Eq, Structural)]
pub enum LineStyle {
    Accent,
    Highlighted,
}

/// One list line of the plan: a label and the style to draw it in. All
/// lines are centered horizontally in the list region.
#[derive(Clone, Debug, PartialEq, Eq)]
pub struct StyledLabel {
    pub text: String,
    pub style: LineStyle,
}

/// Everything the host shell needs to draw the menu, and nothing that
/// depends on the drawing backend. The title region carries the fixed
/// banner, centered, bordered on all four sides; the list region carries
/// the lines, centered, bordered on the right side only, with a vertical
/// scrollbar overlaid on its right edge whose track is
/// `scroll_content_length` long and whose thumb sits at
/// `scroll_position`.
#[derive(Clone, Debug, PartialEq, Eq)]
pub struct RenderPlan {
    pub title_region: Region,
    pub list_region: Region,
    pub title_text: String,
    pub lines: Vec<StyledLabel>,
    pub scroll_position: usize,
    pub scroll_content_length: usize,
}

/// Height of the title region: 23 percent of the total height, rounded
/// to the nearest cell; the list region gets the rest.
pub open spec fn title_height(total: int) -> int {
    (total * 23 + 50) / 100
}

/// The title banner drawn in the top region: fixed block-letter art,
/// identical on every render.
pub open spec fn banner_text() -> Seq<char> {
    " 
  ██████   █████  ███    ███ ███████ ███████      █████  ██████   ██████ ██   ██ ██ ██    ██ ███████ 
 ██       ██   ██ ████  ████ ██      ██          ██   ██ ██   ██ ██      ██   ██ ██ ██    ██ ██      
 ██   ███ ███████ ██ ████ ██ █████   ███████     ███████ ██████  ██      ███████ ██ ██    ██ █████   
 ██    ██ ██   ██ ██  ██  ██ ██           ██     ██   ██ ██   ██ ██      ██   ██ ██  ██  ██  ██      
  ██████  ██   ██ ██      ██ ███████ ███████     ██   ██ ██   ██  ██████ ██   ██ ██   ████   ███████ 
    "@
}

/// The whole render contract: `plan` is the one render description for
/// state `menu` drawn into `area`.
pub open spec fn plan_matches(menu: GamesArchive, area: Region, plan: RenderPlan) -> bool {
    &&& plan.title_region.x == area.x
    &&& plan.title_region.y == area.y
    &&& plan.title_region.width == area.width
    &&& plan.title_region.height == title_height(area.height as int)
    &&& plan.list_region.x == area.x
    &&& plan.list_region.y == area.y + plan.title_region.height
    &&& plan.list_region.width == area.width
    &&& plan.title_region.height + plan.list_region.height == area.height
    &&& plan.title_text@ == banner_text()
    &&& plan.lines@.len() == menu.items@.len()
    &&& (forall|i: int|
        0 <= i < menu.items@.len() ==> (#[trigger] plan.lines@[i]).text@ == menu.items@[i]@)
    &&& (forall|i: int|
        0 <= i < menu.items@.len() ==> (#[trigger] plan.lines@[i]).style == (if i
            == menu.selection as int {
            LineStyle::Highlighted
        } else {
            LineStyle::Accent
        }))
    &&& plan.scroll_content_length == menu.items@.len()
    &&& plan.scroll_position == menu.selection
}

/// The title never takes more than the whole height: 23 percent of the
/// area, rounded, still fits inside it.
pub proof fn lemma_title_height_fits(total: int)
    requires
        0 <= total,
    ensures
        0 <= title_height(total) <= total,
{
    lemma_div_pos_is_pos(total * 23 + 50, 100);
    if total >= 1 {
        assert(total * 23 + 50 <= 100 * total);
        lemma_div_is_ordered(total * 23 + 50, 100 * total, 100);
        lemma_div_multiples_vanish(total, 100);
    }
}

/// Computes the title region's height for a total area height.
pub fn title_region_height(total: u16) -> (h: u16)
    ensures
        h == title_height(total as int),
        h <= total,
{
    proof {
        lemma_title_height_fits(total as int);
    }
    let wide: u32 = total as u32;
    let scaled: u32 = (wide * 23 + 50) / 100;
    scaled as u16
}

/// The fixed banner, as drawn in the title region.
pub fn title_banner() -> (r: String)
    ensures
        r@ == banner_text(),
{
    String::from_str(" 
  ██████   █████  ███    ███ ███████ ███████      █████  ██████   ██████ ██   ██ ██ ██    ██ ███████ 
 ██       ██   ██ ████  ████ ██      ██          ██   ██ ██   ██ ██      ██   ██ ██ ██    ██ ██      
 ██   ███ ███████ ██ ████ ██ █████   ███████     ███████ ██████  ██      ███████ ██ ██    ██ █████   
 ██    ██ ██   ██ ██  ██  ██ ██           ██     ██   ██ ██   ██ ██      ██   ██ ██  ██  ██  ██      
  ██████  ██   ██ ██      ██ ███████ ███████     ██   ██ ██   ██  ██████ ██   ██ ██   ████   ███████ 
    ")
}

impl GamesArchive {
    /// Lays the menu out in `area`: splits it into a title region (23
    /// percent of the height, rounded) stacked on a list region (the
    /// rest), styles one centered line per label with the selected one
    /// highlighted, and points the scrollbar thumb at the selection. The
    /// computation is pure — the state is read, never changed — so equal
    /// states and areas always yield equal plans (see
    /// [`lemma_render_deterministic`]).
    pub fn draw(&self, area: Region) -> (plan: RenderPlan)
        requires
            self.well_formed(),
            area.y + area.height <= u16::MAX,
        ensures
            plan_matches(*self, area, plan),
    {
        let top_height: u16 = title_region_height(area.height);
        let title_region = Region { x: area.x, y: area.y, width: area.width, height: top_height };
        let list_region = Region {
            x: area.x,
            y: area.y + top_height,
            width: area.width,
            height: area.height - top_height,
        };
        let mut lines: Vec<StyledLabel> = Vec::new();
        let mut i: usize = 0;
        while i < self.items.len()
            invariant
                self.well_formed(),
                i <= self.items@.len(),
                lines@.len() == i,
                forall|j: int|
                    0 <= j < i ==> (#[trigger] lines@[j]).text@ == self.items@[j]@,
                forall|j: int|
                    0 <= j < i ==> (#[trigger] lines@[j]).style == (if j == self.selection as int {
                        LineStyle::Highlighted
                    } else {
                        LineStyle::Accent
                    }),
            decreases self.items@.len() - i,
        {
            let style = if i == self.selection {
                LineStyle::Highlighted
            } else {
                LineStyle::Accent
            };
            let text = self.items[i].clone();
            lines.push(StyledLabel { text, style });
            i = i + 1;
        }
        RenderPlan {
            title_region,
            list_region,
            title_text: title_banner(),
            lines,
            scroll_position: self.selection,
            scroll_content_length: self.items.len(),
        }
    }
}

/// Rendering is idempotent: any two plans the render contract admits for
/// the same state and the same area agree on every observable part —
/// the regions, the title text, each line's text and style, and the
/// scrollbar track and thumb.
pub proof fn lemma_render_deterministic(
    menu: GamesArchive,
    area: Region,
    first: RenderPlan,
    second: RenderPlan,
)
    requires
        plan_matches(menu, area, first),
        plan_matches(menu, area, second),
    ensures
        first.title_region == second.title_region,
        first.list_region == second.list_region,
        first.title_text@ == second.title_text@,
        first.lines@.len() == second.lines@.len(),
        forall|i: int|
            0 <= i < first.lines@.len() ==> (#[trigger] first.lines@[i]).text@ == second.lines@[i].text@
                && first.lines@[i].style == second.lines@[i].style,
        first.scroll_position == second.scroll_position,
        first.scroll_content_length == second.scroll_content_length,
{
}

} // verus!
