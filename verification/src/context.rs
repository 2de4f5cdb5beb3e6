//! The per-context state threaded through every panel call: the screen and
//! remaining available rectangles, pointer input, style values, the persistent
//! store, the shared drag-owner slot, and the output (cursor, painted shapes).

use vstd::prelude::*;
use crate::geom::{Pos, Rect};
use crate::store::{Id, PanelStore};

verus! {

/// Default width of a freshly shown side panel.
pub const DEFAULT_SIDE_PANEL_WIDTH: i64 = 200;

/// Default lower bound on a resizable side panel's width.
pub const DEFAULT_MIN_SIDE_PANEL_WIDTH: i64 = 96;

/// Default height of a standard interactive element, and so the default
/// height bound of a top panel.
pub const DEFAULT_INTERACT_HEIGHT: i64 = 18;

/// Default horizontal tolerance within which a pointer grabs a panel's
/// resize handle.
pub const DEFAULT_RESIZE_GRAB_RADIUS: i64 = 5;

/// The current pointer input, if any pointer is present this frame.
#[derive(Clone, Copy, PartialEq, Eq, Structural, Debug)]
pub struct PointerState {
    /// Latest known pointer position; `None` disables hover and resize
    /// interaction for the frame.
    pub pos: Option<Pos>,
    /// Whether any button was pressed during this frame.
    pub any_pressed: bool,
    /// Whether any button is currently held down.
    pub any_down: bool,
}

impl PointerState {
    /// A pointer state with no position and no buttons: interaction disabled.
    pub fn none() -> (r: PointerState)
        ensures
            r == (PointerState { pos: None::<Pos>, any_pressed: false, any_down: false }),
    {
        PointerState { pos: None, any_pressed: false, any_down: false }
    }
}

/// The mouse cursor requested for this frame.
#[derive(Clone, Copy, PartialEq, Eq, Structural, Debug)]
pub enum CursorIcon {
    Default,
    ResizeHorizontal,
}

/// Style values supplied by the surrounding theme system.
#[derive(Clone, Copy, PartialEq, Eq, Structural, Debug)]
pub struct Style {
    /// Horizontal tolerance for grabbing a resize handle.
    pub resize_grab_radius_side: i64,
    /// Height of a standard interactive element.
    pub interact_size_y: i64,
    /// Stroke color of a hovered resize handle.
    pub hovered_stroke: u32,
    /// Stroke color of an actively dragged resize handle.
    pub active_stroke: u32,
    /// Default background fill of side and top panel frames.
    pub side_top_panel_fill: u32,
    /// Default background fill of the central panel frame.
    pub central_panel_fill: u32,
}

impl Style {
    /// The default style values.
    pub open spec fn spec_default() -> Style {
        Style {
            resize_grab_radius_side: DEFAULT_RESIZE_GRAB_RADIUS,
            interact_size_y: DEFAULT_INTERACT_HEIGHT,
            hovered_stroke: 0x00a0_a0a0,
            active_stroke: 0x00ff_ffff,
            side_top_panel_fill: 0x0024_2424,
            central_panel_fill: 0x0018_1818,
        }
    }
}

impl Default for Style {
    fn default() -> (r: Style)
        ensures
            r == Style::spec_default(),
    {
        Style {
            resize_grab_radius_side: DEFAULT_RESIZE_GRAB_RADIUS,
            interact_size_y: DEFAULT_INTERACT_HEIGHT,
            hovered_stroke: 0x00a0_a0a0,
            active_stroke: 0x00ff_ffff,
            side_top_panel_fill: 0x0024_2424,
            central_panel_fill: 0x0018_1818,
        }
    }
}

/// A filled rectangle recorded on the background layer: a panel frame's
/// background, painted under the panel's content.
#[derive(Clone, Copy, PartialEq, Eq, Structural, Debug)]
pub struct PaintFill {
    pub rect: Rect,
    pub fill: u32,
}

/// A line segment recorded on the foreground layer, which renders above all
/// panel content (so a resize handle is never occluded by later panels).
#[derive(Clone, Copy, PartialEq, Eq, Structural, Debug)]
pub struct PaintLine {
    pub a: Pos,
    pub b: Pos,
    pub stroke: u32,
}

/// The state one UI context threads through every panel call.
///
/// `avail_rect` shrinks monotonically within a frame as panels allocate
/// space; it is reset to the full screen rectangle at the start of each
/// frame. `store` and `drag_owner` outlive frames.
pub struct Context {
    /// The full screen rectangle for the current frame.
    pub screen_rect: Rect,
    /// The part of the screen no panel has claimed yet this frame.
    pub avail_rect: Rect,
    /// Pointer input for the current frame.
    pub pointer: PointerState,
    /// Style values used for interaction and handle drawing.
    pub style: Style,
    /// Persisted per-panel state, keyed by identity.
    pub store: PanelStore,
    /// The identity holding the exclusive resize drag, if any drag is active.
    pub drag_owner: Option<Id>,
    /// The cursor requested during this frame.
    pub cursor_icon: CursorIcon,
    /// Background fills (panel frames) drawn this frame.
    pub bg_fills: Vec<PaintFill>,
    /// Foreground line segments (resize handles) drawn this frame.
    pub fg_lines: Vec<PaintLine>,
    /// The rectangle the central panel reported this frame, if it was shown.
    pub central_rect: Option<Rect>,
}

impl Context {
    pub fn new(screen_rect: Rect) -> (r: Context)
        ensures
            r.screen_rect == screen_rect,
            r.avail_rect == screen_rect,
            r.pointer == (PointerState { pos: None::<Pos>, any_pressed: false, any_down: false }),
            r.style == Style::spec_default(),
            r.store@ == Map::<u64, crate::store::PanelState>::empty(),
            r.drag_owner.is_none(),
            r.cursor_icon == CursorIcon::Default,
            r.bg_fills@ =~= Seq::<PaintFill>::empty(),
            r.fg_lines@ =~= Seq::<PaintLine>::empty(),
            r.central_rect.is_none(),
    {
        Context {
            screen_rect,
            avail_rect: screen_rect,
            pointer: PointerState::none(),
            style: Style::default(),
            store: PanelStore::new(),
            drag_owner: None,
            cursor_icon: CursorIcon::Default,
            bg_fills: Vec::new(),
            fg_lines: Vec::new(),
            central_rect: None,
        }
    }

    /// Starts a new frame: the available area is reset to the full screen
    /// rectangle and the frame's input is installed. The persistent store
    /// carries over; so does the drag owner, except that releasing every
    /// pointer button ends the active drag.
    pub fn begin_frame(&mut self, screen_rect: Rect, pointer: PointerState)
        ensures
            final(self).screen_rect == screen_rect,
            final(self).avail_rect == screen_rect,
            final(self).pointer == pointer,
            final(self).style == old(self).style,
            final(self).store == old(self).store,
            final(self).drag_owner == (if pointer.any_down {
                old(self).drag_owner
            } else {
                None::<Id>
            }),
            final(self).cursor_icon == CursorIcon::Default,
            final(self).bg_fills@ =~= Seq::<PaintFill>::empty(),
            final(self).fg_lines@ =~= Seq::<PaintLine>::empty(),
            final(self).central_rect.is_none(),
    {
        self.screen_rect = screen_rect;
        self.avail_rect = screen_rect;
        self.pointer = pointer;
        if !pointer.any_down {
            self.drag_owner = None;
        }
        self.cursor_icon = CursorIcon::Default;
        self.bg_fills = Vec::new();
        self.fg_lines = Vec::new();
        self.central_rect = None;
    }

    /// The rectangle still unclaimed by panels this frame.
    pub fn available_rect(&self) -> (r: Rect)
        ensures
            r == self.avail_rect,
    {
        self.avail_rect
    }

    /// Everything except the frame-local layout and output state is equal
    /// between `a` and `b`.
    pub open spec fn same_persistent(a: Context, b: Context) -> bool {
        &&& a.screen_rect == b.screen_rect
        &&& a.pointer == b.pointer
        &&& a.style == b.style
        &&& a.store == b.store
        &&& a.drag_owner == b.drag_owner
    }

    /// Removes a left-docked panel's reported rectangle from the available
    /// area: the area's left edge moves to the rectangle's right edge.
    pub fn allocate_left_panel(&mut self, rect: Rect)
        ensures
            final(self).avail_rect == (Rect {
                min: Pos { x: rect.max.x, y: old(self).avail_rect.min.y },
                max: old(self).avail_rect.max,
            }),
            Context::same_persistent(*final(self), *old(self)),
            final(self).cursor_icon == old(self).cursor_icon,
            final(self).bg_fills == old(self).bg_fills,
            final(self).fg_lines == old(self).fg_lines,
            final(self).central_rect == old(self).central_rect,
    {
        self.avail_rect.min.x = rect.max.x;
    }

    /// Removes a top-docked panel's reported rectangle from the available
    /// area: the area's top edge moves down to the rectangle's bottom edge.
    pub fn allocate_top_panel(&mut self, rect: Rect)
        ensures
            final(self).avail_rect == (Rect {
                min: Pos { x: old(self).avail_rect.min.x, y: rect.max.y },
                max: old(self).avail_rect.max,
            }),
            Context::same_persistent(*final(self), *old(self)),
            final(self).cursor_icon == old(self).cursor_icon,
            final(self).bg_fills == old(self).bg_fills,
            final(self).fg_lines == old(self).fg_lines,
            final(self).central_rect == old(self).central_rect,
    {
        self.avail_rect.min.y = rect.max.y;
    }

    /// Records the central panel's reported rectangle. The available area is
    /// left as it is: the central panel consumes the remainder, so nothing
    /// after it allocates from this frame.
    pub fn allocate_central_panel(&mut self, rect: Rect)
        ensures
            final(self).avail_rect == old(self).avail_rect,
            final(self).central_rect == Some(rect),
            Context::same_persistent(*final(self), *old(self)),
            final(self).cursor_icon == old(self).cursor_icon,
            final(self).bg_fills == old(self).bg_fills,
            final(self).fg_lines == old(self).fg_lines,
    {
        self.central_rect = Some(rect);
    }

    /// Draws a line segment on the foreground layer, above all panel content.
    pub fn foreground_line_segment(&mut self, a: Pos, b: Pos, stroke: u32)
        ensures
            final(self).fg_lines@ =~= old(self).fg_lines@.push(PaintLine { a, b, stroke }),
            Context::same_persistent(*final(self), *old(self)),
            final(self).avail_rect == old(self).avail_rect,
            final(self).cursor_icon == old(self).cursor_icon,
            final(self).bg_fills == old(self).bg_fills,
            final(self).central_rect == old(self).central_rect,
    {
        self.fg_lines.push(PaintLine { a, b, stroke });
    }

    /// Paints a panel frame's background fill under its content.
    pub fn background_fill(&mut self, rect: Rect, fill: u32)
        ensures
            final(self).bg_fills@ =~= old(self).bg_fills@.push(PaintFill { rect, fill }),
            Context::same_persistent(*final(self), *old(self)),
            final(self).avail_rect == old(self).avail_rect,
            final(self).cursor_icon == old(self).cursor_icon,
            final(self).fg_lines == old(self).fg_lines,
            final(self).central_rect == old(self).central_rect,
    {
        self.bg_fills.push(PaintFill { rect, fill });
    }
}

} // verus!
