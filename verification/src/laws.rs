//! General properties of the layout logic, stated and proved once for all
//! inputs.

use vstd::prelude::*;
use crate::context::Context;
use crate::geom::{Rect, WidthRange};
use crate::panel::SidePanel;
use crate::store::{Id, PanelState};

verus! {

/// For an ordered range, clamping lands inside the range, and a value
/// already inside the range is returned unchanged.
pub proof fn lemma_clamp_in_range(w: i64, range: WidthRange)
    requires
        range.min <= range.max,
    ensures
        range.min <= range.spec_clamp(w) <= range.max,
        range.min <= w && w <= range.max ==> range.spec_clamp(w) == w,
{
}

/// Clamping ignores the order in which the two bounds are given: a range
/// with swapped endpoints clamps exactly as the ordered one does.
pub proof fn lemma_clamp_normalizes_inverted(w: i64, lo: i64, hi: i64)
    ensures
        (WidthRange { min: hi, max: lo }).spec_clamp(w) == (WidthRange {
            min: lo,
            max: hi,
        }).spec_clamp(w),
{
}

/// A side panel shown again with the same identity, while no resize drag is
/// active, uses exactly the width persisted by the previous show, provided
/// that width lies within the panel's allowed range.
pub proof fn lemma_persisted_width_reproduced(panel: SidePanel, ctx: Context, prev: Rect)
    requires
        ctx.store.spec_get(panel.spec_id()) == Some(PanelState { rect: prev }),
        panel.spec_width_range().spec_lo() <= prev.spec_width(),
        prev.spec_width() <= panel.spec_width_range().spec_hi(),
        !panel.spec_is_resizing(ctx),
    ensures
        panel.spec_shown_width(ctx) == prev.spec_width(),
{
}

/// The drag-owner slot is exclusive: while another identity holds it and no
/// fresh press happens this frame, a side panel's show leaves the slot with
/// its current owner, however the pointer hovers.
pub proof fn lemma_drag_owner_exclusive(panel: SidePanel, ctx: Context, owner: Id)
    requires
        ctx.drag_owner == Some(owner),
        owner != panel.spec_id(),
        !ctx.pointer.any_pressed,
    ensures
        panel.spec_owner_after(ctx) == Some(owner),
{
}

} // verus!
