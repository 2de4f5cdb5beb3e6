//! The three panel builders: a resizable left side panel, a height-bounded
//! top panel, and a central panel that fills the remainder.
//!
//! Panels are declared anew every frame, in caller-chosen order, and the
//! order matters: declare all side and top panels before the central panel,
//! which consumes whatever area remains. Declaring the central panel first
//! is a caller-discipline violation that yields an incorrect layout, not a
//! detected error.

use vstd::prelude::*;
use crate::context::{Context, CursorIcon, PaintFill, PaintLine};
use crate::context::{DEFAULT_MIN_SIDE_PANEL_WIDTH, DEFAULT_SIDE_PANEL_WIDTH};
use crate::geom::{
    add_sat, clamp_to_range, spec_add_sat, spec_sub_sat, sub_sat, Pos, Rect, WidthRange, UNBOUNDED,
};
use crate::store::{Id, PanelState};
use crate::ui::Ui;

verus! {

/// Background styling of a panel. A panel without an explicit frame uses
/// the default fill the style supplies for its kind.
#[derive(Clone, Copy, PartialEq, Eq, Structural, Debug)]
pub struct Frame {
    /// Background fill color.
    pub fill: u32,
}

/// What a panel's `show` returns: the content routine's result paired with
/// the rectangle the panel finally occupied.
pub struct InnerResponse<R> {
    /// The result of the caller-supplied content routine.
    pub inner: R,
    /// The rectangle the panel occupied, content overflow included.
    pub rect: Rect,
}

/// A panel that covers the left side of the screen, resizable by dragging
/// its right edge.
///
/// Side panels must be declared before the central panel.
#[must_use]
pub struct SidePanel {
    id: Id,
    frame: Option<Frame>,
    resizable: bool,
    default_width: i64,
    width_range: WidthRange,
}

impl SidePanel {
    /// A left side panel with the given identity and the default
    /// configuration: resizable, default width 200, width at least 96.
    pub fn left(id: Id) -> (r: SidePanel)
        ensures
            r.spec_id() == id,
            r.spec_frame().is_none(),
            r.spec_resizable(),
            r.spec_default_width() == DEFAULT_SIDE_PANEL_WIDTH,
            r.spec_width_range() == (WidthRange {
                min: DEFAULT_MIN_SIDE_PANEL_WIDTH,
                max: UNBOUNDED,
            }),
    {
        SidePanel {
            id,
            frame: None,
            resizable: true,
            default_width: DEFAULT_SIDE_PANEL_WIDTH,
            width_range: WidthRange { min: DEFAULT_MIN_SIDE_PANEL_WIDTH, max: UNBOUNDED },
        }
    }

    pub closed spec fn spec_id(self) -> Id {
        self.id
    }

    pub closed spec fn spec_frame(self) -> Option<Frame> {
        self.frame
    }

    pub closed spec fn spec_resizable(self) -> bool {
        self.resizable
    }

    pub closed spec fn spec_default_width(self) -> i64 {
        self.default_width
    }

    pub closed spec fn spec_width_range(self) -> WidthRange {
        self.width_range
    }

    /// Switch resizing on or off. Default is on.
    pub fn resizable(self, resizable: bool) -> (r: SidePanel)
        ensures
            r.spec_resizable() == resizable,
            r.spec_id() == self.spec_id(),
            r.spec_frame() == self.spec_frame(),
            r.spec_default_width() == self.spec_default_width(),
            r.spec_width_range() == self.spec_width_range(),
    {
        SidePanel { resizable, ..self }
    }

    /// The width used the first time the panel is shown, before any state
    /// has been persisted.
    pub fn default_width(self, default_width: i64) -> (r: SidePanel)
        ensures
            r.spec_default_width() == default_width,
            r.spec_id() == self.spec_id(),
            r.spec_frame() == self.spec_frame(),
            r.spec_resizable() == self.spec_resizable(),
            r.spec_width_range() == self.spec_width_range(),
    {
        SidePanel { default_width, ..self }
    }

    /// Replaces the lower bound of the allowed width range.
    pub fn min_width(self, min_width: i64) -> (r: SidePanel)
        ensures
            r.spec_width_range() == (WidthRange {
                min: min_width,
                max: self.spec_width_range().max,
            }),
            r.spec_id() == self.spec_id(),
            r.spec_frame() == self.spec_frame(),
            r.spec_resizable() == self.spec_resizable(),
            r.spec_default_width() == self.spec_default_width(),
    {
        let width_range = WidthRange { min: min_width, max: self.width_range.max };
        SidePanel { width_range, ..self }
    }

    /// Replaces the upper bound of the allowed width range.
    pub fn max_width(self, max_width: i64) -> (r: SidePanel)
        ensures
            r.spec_width_range() == (WidthRange {
                min: self.spec_width_range().min,
                max: max_width,
            }),
            r.spec_id() == self.spec_id(),
            r.spec_frame() == self.spec_frame(),
            r.spec_resizable() == self.spec_resizable(),
            r.spec_default_width() == self.spec_default_width(),
    {
        let width_range = WidthRange { min: self.width_range.min, max: max_width };
        SidePanel { width_range, ..self }
    }

    /// The allowed width range for a resizable panel. Inverted bounds are
    /// normalized before use, not rejected.
    pub fn width_range(self, width_range: WidthRange) -> (r: SidePanel)
        ensures
            r.spec_width_range() == width_range,
            r.spec_id() == self.spec_id(),
            r.spec_frame() == self.spec_frame(),
            r.spec_resizable() == self.spec_resizable(),
            r.spec_default_width() == self.spec_default_width(),
    {
        SidePanel { width_range, ..self }
    }

    /// Overrides the panel's frame (background fill).
    pub fn frame(self, frame: Frame) -> (r: SidePanel)
        ensures
            r.spec_frame() == Some(frame),
            r.spec_id() == self.spec_id(),
            r.spec_resizable() == self.spec_resizable(),
            r.spec_default_width() == self.spec_default_width(),
            r.spec_width_range() == self.spec_width_range(),
    {
        SidePanel { frame: Some(frame), ..self }
    }

    /// The width the panel starts the frame with: the persisted width for
    /// its identity if present, else the default width, clamped to the
    /// allowed range.
    pub open spec fn spec_initial_width(self, ctx: Context) -> i64 {
        let base = match ctx.store.spec_get(self.spec_id()) {
            Some(state) => state.rect.spec_width(),
            None => self.spec_default_width(),
        };
        self.spec_width_range().spec_clamp(base)
    }

    /// The panel's rectangle before any resize interaction: the available
    /// area's left edge, the initial width, the full available height.
    pub open spec fn spec_initial_rect(self, ctx: Context) -> Rect {
        Rect {
            min: ctx.avail_rect.min,
            max: Pos {
                x: spec_add_sat(ctx.avail_rect.min.x, self.spec_initial_width(ctx)),
                y: ctx.avail_rect.max.y,
            },
        }
    }

    /// Whether the pointer hovers the panel's resize handle: the panel is
    /// resizable, a pointer is present, the pointer is within the panel's
    /// vertical span and within the grab tolerance of its right edge.
    pub open spec fn spec_resize_hover(self, ctx: Context) -> bool {
        &&& self.spec_resizable()
        &&& ctx.pointer.pos is Some
        &&& self.spec_initial_rect(ctx).spec_contains_y(ctx.pointer.pos->0.y)
        &&& spec_sub_sat(self.spec_initial_rect(ctx).max.x, ctx.style.resize_grab_radius_side)
            <= ctx.pointer.pos->0.x
        &&& ctx.pointer.pos->0.x <= spec_add_sat(
            self.spec_initial_rect(ctx).max.x,
            ctx.style.resize_grab_radius_side,
        )
    }

    /// Whether this `show` call takes the drag-owner slot: a fresh press
    /// while hovering the handle.
    pub open spec fn spec_drag_started(self, ctx: Context) -> bool {
        &&& self.spec_resize_hover(ctx)
        &&& ctx.pointer.any_pressed
        &&& ctx.pointer.any_down
    }

    /// The drag owner after this `show` call.
    pub open spec fn spec_owner_after(self, ctx: Context) -> Option<Id> {
        if self.spec_drag_started(ctx) {
            Some(self.spec_id())
        } else {
            ctx.drag_owner
        }
    }

    /// Whether this panel resizes during this frame: it is resizable, a
    /// pointer is present, and its identity holds the drag-owner slot.
    pub open spec fn spec_is_resizing(self, ctx: Context) -> bool {
        &&& self.spec_resizable()
        &&& ctx.pointer.pos is Some
        &&& self.spec_owner_after(ctx) == Some(self.spec_id())
    }

    /// The panel's width this frame: while resizing, the distance from the
    /// panel's left edge to the pointer, clamped to the allowed range;
    /// otherwise the initial width.
    pub open spec fn spec_shown_width(self, ctx: Context) -> i64 {
        if self.spec_is_resizing(ctx) {
            self.spec_width_range().spec_clamp(
                spec_sub_sat(ctx.pointer.pos->0.x, ctx.avail_rect.min.x),
            )
        } else {
            self.spec_initial_width(ctx)
        }
    }

    /// The rectangle the panel claims this frame, resize interaction
    /// included.
    pub open spec fn spec_panel_rect(self, ctx: Context) -> Rect {
        Rect {
            min: ctx.avail_rect.min,
            max: Pos {
                x: spec_add_sat(ctx.avail_rect.min.x, self.spec_shown_width(ctx)),
                y: ctx.avail_rect.max.y,
            },
        }
    }

    /// The cursor after this `show` call: a horizontal-resize cursor while
    /// the handle is hovered or dragged.
    pub open spec fn spec_cursor_after(self, ctx: Context) -> CursorIcon {
        if self.spec_resize_hover(ctx) || self.spec_is_resizing(ctx) {
            CursorIcon::ResizeHorizontal
        } else {
            ctx.cursor_icon
        }
    }

    /// The region handed to the content routine: the panel's rectangle,
    /// with the full available height already claimed so that a panel with
    /// little content still spans the whole height.
    pub open spec fn spec_content_ui(self, ctx: Context) -> Ui {
        let rect = self.spec_panel_rect(ctx);
        Ui::spec_new(rect).spec_with_min_height(rect.spec_height())
    }

    /// The background fill the panel paints, from its frame override or the
    /// style's default side and top panel frame.
    pub open spec fn spec_fill(self, ctx: Context) -> u32 {
        match self.spec_frame() {
            Some(frame) => frame.fill,
            None => ctx.style.side_top_panel_fill,
        }
    }

    /// Lays the panel out, runs the content routine in it, and reports the
    /// occupied rectangle: the persisted or default width is clamped and
    /// applied to the available area's left edge; resize interaction may
    /// take the drag-owner slot and move the right edge to the pointer; the
    /// actually occupied rectangle is allocated from the available area and
    /// persisted under the panel's identity for the next frame.
    pub fn show<R, F: FnOnce(&mut Ui) -> R>(
        self,
        ctx: &mut Context,
        add_contents: F,
    ) -> (result: InnerResponse<R>)
        requires
            forall|u: &mut Ui| call_requires(add_contents, (u,)),
        ensures
            exists|u: &mut Ui|
                (call_ensures(add_contents, (u,), result.inner)
                    && mut_ref_current(u) == self.spec_content_ui(*old(ctx))
                    && result.rect == mut_ref_future(u).spec_min_rect()),
            final(ctx).avail_rect == (Rect {
                min: Pos { x: result.rect.max.x, y: old(ctx).avail_rect.min.y },
                max: old(ctx).avail_rect.max,
            }),
            final(ctx).store@ == old(ctx).store@.insert(
                self.spec_id().spec_value(),
                PanelState { rect: result.rect },
            ),
            final(ctx).drag_owner == self.spec_owner_after(*old(ctx)),
            final(ctx).cursor_icon == self.spec_cursor_after(*old(ctx)),
            final(ctx).bg_fills@ =~= old(ctx).bg_fills@.push(
                PaintFill { rect: result.rect, fill: self.spec_fill(*old(ctx)) },
            ),
            final(ctx).fg_lines@ =~= (if self.spec_resize_hover(*old(ctx))
                || self.spec_is_resizing(*old(ctx)) {
                old(ctx).fg_lines@.push(
                    PaintLine {
                        a: Pos { x: result.rect.max.x, y: result.rect.min.y },
                        b: Pos { x: result.rect.max.x, y: result.rect.max.y },
                        stroke: if self.spec_is_resizing(*old(ctx)) {
                            old(ctx).style.active_stroke
                        } else {
                            old(ctx).style.hovered_stroke
                        },
                    },
                )
            } else {
                old(ctx).fg_lines@
            }),
            final(ctx).screen_rect == old(ctx).screen_rect,
            final(ctx).pointer == old(ctx).pointer,
            final(ctx).style == old(ctx).style,
            final(ctx).central_rect == old(ctx).central_rect,
    {
        let mut width = self.default_width;
        match ctx.store.get(self.id) {
            Some(state) => {
                width = state.rect.width();
            },
            None => {},
        }
        let width = clamp_to_range(width, self.width_range);

        let avail = ctx.available_rect();
        let mut panel_rect = avail;
        panel_rect.max.x = add_sat(avail.min.x, width);

        let mut resize_hover = false;
        let mut is_resizing = false;
        if self.resizable {
            match ctx.pointer.pos {
                Some(pointer) => {
                    let grab = ctx.style.resize_grab_radius_side;
                    resize_hover = panel_rect.contains_y(pointer.y)
                        && sub_sat(panel_rect.right(), grab) <= pointer.x
                        && pointer.x <= add_sat(panel_rect.right(), grab);

                    if ctx.pointer.any_pressed && ctx.pointer.any_down && resize_hover {
                        ctx.drag_owner = Some(self.id);
                    }
                    is_resizing = match ctx.drag_owner {
                        Some(owner) => owner == self.id,
                        None => false,
                    };
                    if is_resizing {
                        let dragged = sub_sat(pointer.x, panel_rect.left());
                        let dragged = clamp_to_range(dragged, self.width_range);
                        panel_rect.max.x = add_sat(panel_rect.min.x, dragged);
                    }

                    if resize_hover || is_resizing {
                        ctx.cursor_icon = CursorIcon::ResizeHorizontal;
                    }
                },
                None => {},
            }
        }

        let mut ui = Ui::new(panel_rect);
        let full_height = ui.max_rect().height();
        ui.set_min_height(full_height);
        let inner = add_contents(&mut ui);
        proof {
            assert(exists|u: &mut Ui|
                (call_ensures(add_contents, (u,), inner)
                    && mut_ref_current(u) == self.spec_content_ui(*old(ctx))
                    && mut_ref_future(u) == ui));
        }
        let rect = ui.min_rect();
        proof {
            let u0 = choose|u: &mut Ui|
                (call_ensures(add_contents, (u,), inner)
                    && mut_ref_current(u) == self.spec_content_ui(*old(ctx))
                    && mut_ref_future(u) == ui);
            assert(rect == mut_ref_future(u0).spec_min_rect());
            assert(exists|u: &mut Ui|
                (call_ensures(add_contents, (u,), inner)
                    && mut_ref_current(u) == self.spec_content_ui(*old(ctx))
                    && rect == mut_ref_future(u).spec_min_rect()));
        }

        let fill = match self.frame {
            Some(frame) => frame.fill,
            None => ctx.style.side_top_panel_fill,
        };
        ctx.background_fill(rect, fill);

        if resize_hover || is_resizing {
            let stroke = if is_resizing {
                ctx.style.active_stroke
            } else {
                ctx.style.hovered_stroke
            };
            ctx.foreground_line_segment(rect.right_top(), rect.right_bottom(), stroke);
        }

        ctx.allocate_left_panel(rect);
        ctx.store.insert(self.id, PanelState { rect });

        InnerResponse { inner, rect }
    }
}

/// A panel that covers the top of the screen, with a bounded height.
///
/// Top panels must be declared before the central panel. They keep no
/// persisted state and offer no resize interaction.
#[must_use]
pub struct TopPanel {
    id: Id,
    max_height: Option<i64>,
    frame: Option<Frame>,
}

impl TopPanel {
    /// A top panel with the given identity. Its height is bounded by the
    /// style's standard interactive-element height unless a bound is set.
    pub fn top(id: Id) -> (r: TopPanel)
        ensures
            r.spec_id() == id,
            r.spec_max_height().is_none(),
            r.spec_frame().is_none(),
    {
        TopPanel { id, max_height: None, frame: None }
    }

    pub closed spec fn spec_id(self) -> Id {
        self.id
    }

    pub closed spec fn spec_max_height(self) -> Option<i64> {
        self.max_height
    }

    pub closed spec fn spec_frame(self) -> Option<Frame> {
        self.frame
    }

    /// Bounds the panel's height from above.
    pub fn max_height(self, max_height: i64) -> (r: TopPanel)
        ensures
            r.spec_max_height() == Some(max_height),
            r.spec_id() == self.spec_id(),
            r.spec_frame() == self.spec_frame(),
    {
        TopPanel { max_height: Some(max_height), ..self }
    }

    /// Overrides the panel's frame (background fill).
    pub fn frame(self, frame: Frame) -> (r: TopPanel)
        ensures
            r.spec_frame() == Some(frame),
            r.spec_id() == self.spec_id(),
            r.spec_max_height() == self.spec_max_height(),
    {
        TopPanel { frame: Some(frame), ..self }
    }

    /// The effective height bound: the configured one, or the style's
    /// standard interactive-element height.
    pub open spec fn spec_height_bound(self, ctx: Context) -> i64 {
        match self.spec_max_height() {
            Some(h) => h,
            None => ctx.style.interact_size_y,
        }
    }

    /// The rectangle offered to the panel: the available area, its height
    /// bounded by the effective height bound. Content may request less via
    /// natural sizing; this is an upper bound, not an exact height.
    pub open spec fn spec_panel_rect(self, ctx: Context) -> Rect {
        let capped = spec_add_sat(ctx.avail_rect.min.y, self.spec_height_bound(ctx));
        Rect {
            min: ctx.avail_rect.min,
            max: Pos {
                x: ctx.avail_rect.max.x,
                y: if ctx.avail_rect.max.y <= capped {
                    ctx.avail_rect.max.y
                } else {
                    capped
                },
            },
        }
    }

    /// The region handed to the content routine: the offered rectangle,
    /// with the full available width already claimed so that a panel with
    /// little content still spans the whole width.
    pub open spec fn spec_content_ui(self, ctx: Context) -> Ui {
        let rect = self.spec_panel_rect(ctx);
        Ui::spec_new(rect).spec_with_min_width(rect.spec_width())
    }

    /// The background fill the panel paints, from its frame override or the
    /// style's default side and top panel frame.
    pub open spec fn spec_fill(self, ctx: Context) -> u32 {
        match self.spec_frame() {
            Some(frame) => frame.fill,
            None => ctx.style.side_top_panel_fill,
        }
    }

    /// Lays the panel out against the available area's top edge, runs the
    /// content routine in it, and allocates the actually occupied rectangle
    /// from the available area.
    pub fn show<R, F: FnOnce(&mut Ui) -> R>(
        self,
        ctx: &mut Context,
        add_contents: F,
    ) -> (result: InnerResponse<R>)
        requires
            forall|u: &mut Ui| call_requires(add_contents, (u,)),
        ensures
            exists|u: &mut Ui|
                (call_ensures(add_contents, (u,), result.inner)
                    && mut_ref_current(u) == self.spec_content_ui(*old(ctx))
                    && result.rect == mut_ref_future(u).spec_min_rect()),
            final(ctx).avail_rect == (Rect {
                min: Pos { x: old(ctx).avail_rect.min.x, y: result.rect.max.y },
                max: old(ctx).avail_rect.max,
            }),
            final(ctx).bg_fills@ =~= old(ctx).bg_fills@.push(
                PaintFill { rect: result.rect, fill: self.spec_fill(*old(ctx)) },
            ),
            final(ctx).screen_rect == old(ctx).screen_rect,
            final(ctx).pointer == old(ctx).pointer,
            final(ctx).style == old(ctx).style,
            final(ctx).store == old(ctx).store,
            final(ctx).drag_owner == old(ctx).drag_owner,
            final(ctx).cursor_icon == old(ctx).cursor_icon,
            final(ctx).fg_lines == old(ctx).fg_lines,
            final(ctx).central_rect == old(ctx).central_rect,
    {
        let max_height = match self.max_height {
            Some(h) => h,
            None => ctx.style.interact_size_y,
        };

        let avail = ctx.available_rect();
        let mut panel_rect = avail;
        let capped = add_sat(avail.min.y, max_height);
        if capped < panel_rect.max.y {
            panel_rect.max.y = capped;
        }

        let mut ui = Ui::new(panel_rect);
        let full_width = ui.max_rect().width();
        ui.set_min_width(full_width);
        let inner = add_contents(&mut ui);
        proof {
            assert(exists|u: &mut Ui|
                (call_ensures(add_contents, (u,), inner)
                    && mut_ref_current(u) == self.spec_content_ui(*old(ctx))
                    && mut_ref_future(u) == ui));
        }
        let rect = ui.min_rect();
        proof {
            let u0 = choose|u: &mut Ui|
                (call_ensures(add_contents, (u,), inner)
                    && mut_ref_current(u) == self.spec_content_ui(*old(ctx))
                    && mut_ref_future(u) == ui);
            assert(rect == mut_ref_future(u0).spec_min_rect());
            assert(exists|u: &mut Ui|
                (call_ensures(add_contents, (u,), inner)
                    && mut_ref_current(u) == self.spec_content_ui(*old(ctx))
                    && rect == mut_ref_future(u).spec_min_rect()));
        }

        let fill = match self.frame {
            Some(frame) => frame.fill,
            None => ctx.style.side_top_panel_fill,
        };
        ctx.background_fill(rect, fill);

        ctx.allocate_top_panel(rect);

        InnerResponse { inner, rect }
    }
}

/// A panel that covers whatever area is left after all side and top panels.
///
/// The central panel must be declared after all other panels; only one is
/// expected per frame.
#[must_use]
pub struct CentralPanel {
    frame: Option<Frame>,
}

impl CentralPanel {
    pub closed spec fn spec_frame(self) -> Option<Frame> {
        self.frame
    }

    /// Overrides the panel's frame (background fill).
    pub fn frame(self, frame: Frame) -> (r: CentralPanel)
        ensures
            r.spec_frame() == Some(frame),
    {
        CentralPanel { frame: Some(frame) }
    }

    /// The rectangle the panel starts from: the whole remaining available
    /// area.
    pub open spec fn spec_panel_rect(self, ctx: Context) -> Rect {
        ctx.avail_rect
    }

    /// The region handed to the content routine: the remaining area, all of
    /// it already claimed.
    pub open spec fn spec_content_ui(self, ctx: Context) -> Ui {
        let rect = self.spec_panel_rect(ctx);
        Ui {
            max_rect: rect,
            min_rect: (Rect { min: rect.min, max: rect.min }).spec_union(rect),
        }
    }

    /// The background fill the panel paints, from its frame override or the
    /// style's default central panel frame.
    pub open spec fn spec_fill(self, ctx: Context) -> u32 {
        match self.spec_frame() {
            Some(frame) => frame.fill,
            None => ctx.style.central_panel_fill,
        }
    }

    /// Fills the remaining available area, runs the content routine in it,
    /// and records the occupied rectangle. The available area is not
    /// shrunk further: the central panel consumes the remainder.
    pub fn show<R, F: FnOnce(&mut Ui) -> R>(
        self,
        ctx: &mut Context,
        add_contents: F,
    ) -> (result: InnerResponse<R>)
        requires
            forall|u: &mut Ui| call_requires(add_contents, (u,)),
        ensures
            exists|u: &mut Ui|
                (call_ensures(add_contents, (u,), result.inner)
                    && mut_ref_current(u) == self.spec_content_ui(*old(ctx))
                    && result.rect == mut_ref_future(u).spec_min_rect()),
            final(ctx).central_rect == Some(result.rect),
            final(ctx).bg_fills@ =~= old(ctx).bg_fills@.push(
                PaintFill { rect: result.rect, fill: self.spec_fill(*old(ctx)) },
            ),
            final(ctx).avail_rect == old(ctx).avail_rect,
            final(ctx).screen_rect == old(ctx).screen_rect,
            final(ctx).pointer == old(ctx).pointer,
            final(ctx).style == old(ctx).style,
            final(ctx).store == old(ctx).store,
            final(ctx).drag_owner == old(ctx).drag_owner,
            final(ctx).cursor_icon == old(ctx).cursor_icon,
            final(ctx).fg_lines == old(ctx).fg_lines,
    {
        let panel_rect = ctx.available_rect();

        let mut ui = Ui::new(panel_rect);
        let whole = ui.max_rect();
        ui.expand_to_include_rect(whole);
        let inner = add_contents(&mut ui);
        proof {
            assert(exists|u: &mut Ui|
                (call_ensures(add_contents, (u,), inner)
                    && mut_ref_current(u) == self.spec_content_ui(*old(ctx))
                    && mut_ref_future(u) == ui));
        }
        let rect = ui.min_rect();
        proof {
            let u0 = choose|u: &mut Ui|
                (call_ensures(add_contents, (u,), inner)
                    && mut_ref_current(u) == self.spec_content_ui(*old(ctx))
                    && mut_ref_future(u) == ui);
            assert(rect == mut_ref_future(u0).spec_min_rect());
            assert(exists|u: &mut Ui|
                (call_ensures(add_contents, (u,), inner)
                    && mut_ref_current(u) == self.spec_content_ui(*old(ctx))
                    && rect == mut_ref_future(u).spec_min_rect()));
        }

        let fill = match self.frame {
            Some(frame) => frame.fill,
            None => ctx.style.central_panel_fill,
        };
        ctx.background_fill(rect, fill);

        ctx.allocate_central_panel(rect);

        InnerResponse { inner, rect }
    }
}

impl Default for CentralPanel {
    /// A central panel with no frame override.
    fn default() -> (r: CentralPanel)
        ensures
            r.spec_frame().is_none(),
    {
        CentralPanel { frame: None }
    }
}

} // verus!
