use panel_layout::context::{Context, CursorIcon, PointerState};
use panel_layout::geom::{add_sat, clamp_to_range, sub_sat, Pos, Rect, WidthRange, UNBOUNDED};
use panel_layout::panel::{CentralPanel, Frame, SidePanel, TopPanel};
use panel_layout::store::{Id, PanelState, PanelStore};
use panel_layout::ui::Ui;

fn screen() -> Rect {
    Rect::from_min_max(0, 0, 800, 600)
}

/// Content that claims the whole region it was offered.
fn fill_content(ui: &mut Ui) {
    let rect = ui.max_rect();
    ui.expand_to_include_rect(rect);
}

fn pointer_at(x: i64, y: i64, pressed: bool, down: bool) -> PointerState {
    PointerState {
        pos: Some(Pos { x, y }),
        any_pressed: pressed,
        any_down: down,
    }
}

#[test]
fn clamp_within_ordered_range() {
    let range = WidthRange::new(96, 300);
    assert_eq!(clamp_to_range(150, range), 150);
    assert_eq!(clamp_to_range(96, range), 96);
    assert_eq!(clamp_to_range(300, range), 300);
    assert_eq!(clamp_to_range(10, range), 96);
    assert_eq!(clamp_to_range(400, range), 300);
}

#[test]
fn clamp_normalizes_inverted_range() {
    let inverted = WidthRange::new(300, 96);
    assert_eq!(clamp_to_range(150, inverted), 150);
    assert_eq!(clamp_to_range(10, inverted), 96);
    assert_eq!(clamp_to_range(400, inverted), 300);
}

#[test]
fn saturating_arithmetic_totality() {
    assert_eq!(add_sat(i64::MAX, 5), i64::MAX);
    assert_eq!(add_sat(2, 3), 5);
    assert_eq!(sub_sat(i64::MIN, 5), i64::MIN);
    assert_eq!(sub_sat(2, 3), -1);
}

#[test]
fn store_round_trip() {
    let mut store = PanelStore::new();
    let id = Id::new(7);
    assert!(store.get(id).is_none());
    let state = PanelState {
        rect: Rect::from_min_max(0, 0, 10, 20),
    };
    store.insert(id, state);
    assert_eq!(store.get(id), Some(state));
    assert!(store.get(Id::new(8)).is_none());
}

#[test]
fn ui_claims_grow_only() {
    let mut ui = Ui::new(Rect::from_min_max(0, 0, 100, 50));
    assert_eq!(ui.min_rect(), Rect::from_min_max(0, 0, 0, 0));
    ui.set_min_height(30);
    assert_eq!(ui.min_rect(), Rect::from_min_max(0, 0, 0, 30));
    ui.set_min_width(40);
    assert_eq!(ui.min_rect(), Rect::from_min_max(0, 0, 40, 30));
    ui.set_min_height(10);
    assert_eq!(ui.min_rect(), Rect::from_min_max(0, 0, 40, 30));
    ui.expand_to_include_rect(Rect::from_min_max(0, 0, 120, 20));
    assert_eq!(ui.min_rect(), Rect::from_min_max(0, 0, 120, 30));
}

#[test]
fn top_panel_occupies_capped_height() {
    let mut ctx = Context::new(screen());
    let response = TopPanel::top(Id::new(1))
        .max_height(30)
        .show(&mut ctx, fill_content);
    assert_eq!(response.rect, Rect::from_min_max(0, 0, 800, 30));
    assert_eq!(ctx.available_rect(), Rect::from_min_max(0, 30, 800, 600));
}

#[test]
fn top_panel_default_height_bound_is_interact_size() {
    let mut ctx = Context::new(screen());
    let response = TopPanel::top(Id::new(1)).show(&mut ctx, fill_content);
    assert_eq!(response.rect, Rect::from_min_max(0, 0, 800, 18));
}

#[test]
fn top_panel_content_may_use_less_height() {
    let mut ctx = Context::new(screen());
    let response = TopPanel::top(Id::new(1))
        .max_height(40)
        .show(&mut ctx, |ui: &mut Ui| ui.set_min_height(25));
    assert_eq!(response.rect, Rect::from_min_max(0, 0, 800, 25));
    // The central panel starts at the top panel's actual bottom edge.
    let central = CentralPanel::default().show(&mut ctx, fill_content);
    assert_eq!(central.rect, Rect::from_min_max(0, 25, 800, 600));
}

#[test]
fn side_panel_then_central_end_to_end() {
    let mut ctx = Context::new(screen());
    let side = SidePanel::left(Id::new(1)).show(&mut ctx, fill_content);
    assert_eq!(side.rect, Rect::from_min_max(0, 0, 200, 600));
    let central = CentralPanel::default().show(&mut ctx, fill_content);
    assert_eq!(central.rect, Rect::from_min_max(200, 0, 800, 600));
}

#[test]
fn top_panel_then_central_end_to_end() {
    let mut ctx = Context::new(screen());
    let top = TopPanel::top(Id::new(1))
        .max_height(40)
        .show(&mut ctx, fill_content);
    assert_eq!(top.rect, Rect::from_min_max(0, 0, 800, 40));
    let central = CentralPanel::default().show(&mut ctx, fill_content);
    assert_eq!(central.rect, Rect::from_min_max(0, 40, 800, 600));
}

#[test]
fn side_panel_persists_width_across_frames() {
    let mut ctx = Context::new(screen());
    let first = SidePanel::left(Id::new(1))
        .default_width(250)
        .show(&mut ctx, fill_content);
    assert_eq!(first.rect, Rect::from_min_max(0, 0, 250, 600));

    ctx.begin_frame(screen(), PointerState::none());
    // The default width differs this frame, but the persisted width wins.
    let second = SidePanel::left(Id::new(1))
        .default_width(120)
        .show(&mut ctx, fill_content);
    assert_eq!(second.rect, Rect::from_min_max(0, 0, 250, 600));
}

#[test]
fn side_panel_content_result_is_returned() {
    let mut ctx = Context::new(screen());
    let response = SidePanel::left(Id::new(1)).show(&mut ctx, |ui: &mut Ui| {
        let rect = ui.max_rect();
        ui.expand_to_include_rect(rect);
        42u32
    });
    assert_eq!(response.inner, 42);
}

#[test]
fn drag_resize_follows_pointer_with_clamp() {
    let mut ctx = Context::new(screen());
    // Frame 1: establish the panel at width 200.
    SidePanel::left(Id::new(1)).show(&mut ctx, fill_content);

    // Frame 2: fresh press on the right edge takes the drag.
    ctx.begin_frame(screen(), pointer_at(200, 100, true, true));
    SidePanel::left(Id::new(1)).show(&mut ctx, fill_content);
    assert_eq!(ctx.drag_owner, Some(Id::new(1)));

    // Frame 3: pointer moved to x = 250 while held: width follows it.
    ctx.begin_frame(screen(), pointer_at(250, 100, false, true));
    let dragged = SidePanel::left(Id::new(1)).show(&mut ctx, fill_content);
    assert_eq!(dragged.rect, Rect::from_min_max(0, 0, 250, 600));

    // Frame 4: pointer at x = 10: the width clamps to the minimum, 96.
    ctx.begin_frame(screen(), pointer_at(10, 100, false, true));
    let clamped = SidePanel::left(Id::new(1)).show(&mut ctx, fill_content);
    assert_eq!(clamped.rect, Rect::from_min_max(0, 0, 96, 600));

    // Releasing the button ends the drag.
    ctx.begin_frame(screen(), PointerState::none());
    assert_eq!(ctx.drag_owner, None);
}

#[test]
fn drag_owner_is_exclusive() {
    let mut ctx = Context::new(screen());
    // Frame 1: panels at their default widths.
    SidePanel::left(Id::new(1)).show(&mut ctx, fill_content);
    SidePanel::left(Id::new(2)).show(&mut ctx, fill_content);

    // Frame 2: fresh press on panel 1's edge (x = 200) takes the drag.
    ctx.begin_frame(screen(), pointer_at(200, 100, true, true));
    SidePanel::left(Id::new(1)).show(&mut ctx, fill_content);
    assert_eq!(ctx.drag_owner, Some(Id::new(1)));

    // Frame 3: the button stays down; the pointer hovers panel 2's edge
    // (which now sits at x = 200 + 200 = 400). Panel 2 cannot take the slot.
    ctx.begin_frame(screen(), pointer_at(400, 100, false, true));
    let one = SidePanel::left(Id::new(1)).show(&mut ctx, fill_content);
    let two = SidePanel::left(Id::new(2)).show(&mut ctx, fill_content);
    assert_eq!(ctx.drag_owner, Some(Id::new(1)));
    // Panel 1 still resizes (toward the pointer); panel 2 keeps its width.
    assert_eq!(one.rect.width(), 400);
    assert_eq!(two.rect.width(), 200);
}

#[test]
fn non_resizable_panel_ignores_pointer() {
    let mut ctx = Context::new(screen());
    SidePanel::left(Id::new(1))
        .resizable(false)
        .show(&mut ctx, fill_content);

    ctx.begin_frame(screen(), pointer_at(200, 100, true, true));
    let response = SidePanel::left(Id::new(1))
        .resizable(false)
        .show(&mut ctx, fill_content);
    assert_eq!(ctx.drag_owner, None);
    assert_eq!(response.rect.width(), 200);
    assert_eq!(ctx.cursor_icon, CursorIcon::Default);
}

#[test]
fn hover_requests_resize_cursor_and_handle() {
    let mut ctx = Context::new(screen());
    SidePanel::left(Id::new(1)).show(&mut ctx, fill_content);

    // Hover within grab tolerance (5) of the right edge, no buttons.
    ctx.begin_frame(screen(), pointer_at(203, 100, false, false));
    let response = SidePanel::left(Id::new(1)).show(&mut ctx, fill_content);
    assert_eq!(ctx.cursor_icon, CursorIcon::ResizeHorizontal);
    assert_eq!(ctx.drag_owner, None);
    // A hover handle was drawn along the right edge with the hover stroke.
    assert_eq!(ctx.fg_lines.len(), 1);
    let line = ctx.fg_lines[0];
    assert_eq!(line.a, Pos { x: response.rect.right(), y: 0 });
    assert_eq!(line.b, Pos { x: response.rect.right(), y: 600 });
    assert_eq!(line.stroke, ctx.style.hovered_stroke);
}

#[test]
fn active_drag_uses_active_stroke() {
    let mut ctx = Context::new(screen());
    SidePanel::left(Id::new(1)).show(&mut ctx, fill_content);
    ctx.begin_frame(screen(), pointer_at(200, 100, true, true));
    SidePanel::left(Id::new(1)).show(&mut ctx, fill_content);
    assert_eq!(ctx.fg_lines.len(), 1);
    assert_eq!(ctx.fg_lines[0].stroke, ctx.style.active_stroke);
}

#[test]
fn no_pointer_disables_resize() {
    let mut ctx = Context::new(screen());
    SidePanel::left(Id::new(1)).show(&mut ctx, fill_content);
    ctx.begin_frame(
        screen(),
        PointerState {
            pos: None,
            any_pressed: true,
            any_down: true,
        },
    );
    let response = SidePanel::left(Id::new(1)).show(&mut ctx, fill_content);
    assert_eq!(ctx.drag_owner, None);
    assert_eq!(response.rect.width(), 200);
    assert_eq!(ctx.cursor_icon, CursorIcon::Default);
}

#[test]
fn width_bounds_builders_apply() {
    let mut ctx = Context::new(screen());
    let narrow = SidePanel::left(Id::new(1))
        .default_width(500)
        .max_width(300)
        .show(&mut ctx, fill_content);
    assert_eq!(narrow.rect.width(), 300);

    let mut ctx2 = Context::new(screen());
    let wide = SidePanel::left(Id::new(2))
        .default_width(10)
        .min_width(150)
        .show(&mut ctx2, fill_content);
    assert_eq!(wide.rect.width(), 150);

    let mut ctx3 = Context::new(screen());
    let ranged = SidePanel::left(Id::new(3))
        .default_width(700)
        .width_range(WidthRange::new(100, 400))
        .show(&mut ctx3, fill_content);
    assert_eq!(ranged.rect.width(), 400);
}

#[test]
fn inverted_width_range_is_normalized() {
    let mut ctx = Context::new(screen());
    let response = SidePanel::left(Id::new(1))
        .default_width(200)
        .width_range(WidthRange::new(300, 96))
        .show(&mut ctx, fill_content);
    assert_eq!(response.rect.width(), 200);

    let mut ctx2 = Context::new(screen());
    let clamped = SidePanel::left(Id::new(2))
        .default_width(500)
        .width_range(WidthRange::new(300, 96))
        .show(&mut ctx2, fill_content);
    assert_eq!(clamped.rect.width(), 300);
}

#[test]
fn default_width_range_is_unbounded_above() {
    let panel_range = WidthRange::new(96, UNBOUNDED);
    assert_eq!(clamp_to_range(1_000_000, panel_range), 1_000_000);
}

#[test]
fn frames_paint_background_fills() {
    let mut ctx = Context::new(screen());
    SidePanel::left(Id::new(1))
        .frame(Frame { fill: 0xdead_beef })
        .show(&mut ctx, fill_content);
    assert_eq!(ctx.bg_fills.len(), 1);
    assert_eq!(ctx.bg_fills[0].fill, 0xdead_beef);

    let central = CentralPanel::default().frame(Frame { fill: 0x1234_5678 });
    central.show(&mut ctx, fill_content);
    assert_eq!(ctx.bg_fills.len(), 2);
    assert_eq!(ctx.bg_fills[1].fill, 0x1234_5678);
}

#[test]
fn default_frames_use_style_fills() {
    let mut ctx = Context::new(screen());
    TopPanel::top(Id::new(1)).show(&mut ctx, fill_content);
    assert_eq!(ctx.bg_fills[0].fill, ctx.style.side_top_panel_fill);
    CentralPanel::default().show(&mut ctx, fill_content);
    assert_eq!(ctx.bg_fills[1].fill, ctx.style.central_panel_fill);
}

#[test]
fn central_panel_records_its_rect() {
    let mut ctx = Context::new(screen());
    TopPanel::top(Id::new(1))
        .max_height(40)
        .show(&mut ctx, fill_content);
    assert_eq!(ctx.central_rect, None);
    let central = CentralPanel::default().show(&mut ctx, fill_content);
    assert_eq!(ctx.central_rect, Some(central.rect));
    // The available area is not shrunk further by the central panel.
    assert_eq!(ctx.available_rect(), Rect::from_min_max(0, 40, 800, 600));
}

#[test]
fn shared_identity_aliases_state() {
    let mut ctx = Context::new(screen());
    // The first panel overflows to width 320, which is persisted under its
    // identity.
    SidePanel::left(Id::new(1)).show(&mut ctx, |ui: &mut Ui| {
        ui.expand_to_include_rect(Rect::from_min_max(0, 0, 320, 100));
    });
    // A second panel declared with the same identity reads that state.
    let aliased = SidePanel::left(Id::new(1))
        .default_width(200)
        .show(&mut ctx, fill_content);
    assert_eq!(aliased.rect.width(), 320);
}

#[test]
fn non_resizable_panel_still_clamps_width() {
    let mut ctx = Context::new(screen());
    let response = SidePanel::left(Id::new(1))
        .resizable(false)
        .default_width(10)
        .show(&mut ctx, fill_content);
    assert_eq!(response.rect.width(), 96);
}

#[test]
fn content_overflow_is_reported() {
    let mut ctx = Context::new(screen());
    let response = SidePanel::left(Id::new(1)).show(&mut ctx, |ui: &mut Ui| {
        let rect = ui.max_rect();
        ui.expand_to_include_rect(rect);
        // Content wider than the panel overflows it.
        ui.expand_to_include_rect(Rect::from_min_max(0, 0, 320, 100));
    });
    assert_eq!(response.rect, Rect::from_min_max(0, 0, 320, 600));
    // Later panels see the overflowed edge.
    assert_eq!(ctx.available_rect(), Rect::from_min_max(320, 0, 800, 600));
}
