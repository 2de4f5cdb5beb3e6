//! A minimal content region handed to a panel's content routine.
//!
//! A [`Ui`] is created over the panel's rectangle. Content claims space by
//! growing the region's `min_rect`; the rectangle a panel finally occupies
//! is the grown `min_rect`, which may exceed the panel's own rectangle when
//! content overflows it.

use vstd::prelude::*;
use crate::geom::{spec_add_sat, add_sat, Pos, Rect};

verus! {

/// A bounded region in which content is laid out.
pub struct Ui {
    /// The bounds the region was given; content should stay inside them.
    pub max_rect: Rect,
    /// The space content has claimed so far. Starts empty at the region's
    /// top-left corner and only ever grows.
    pub min_rect: Rect,
}

impl Ui {
    /// The region a fresh `Ui` over `max_rect` starts from: nothing claimed,
    /// anchored at the top-left corner.
    pub open spec fn spec_new(max_rect: Rect) -> Ui {
        Ui { max_rect, min_rect: Rect { min: max_rect.min, max: max_rect.min } }
    }

    pub open spec fn spec_max_rect(self) -> Rect {
        self.max_rect
    }

    pub open spec fn spec_min_rect(self) -> Rect {
        self.min_rect
    }

    pub fn new(max_rect: Rect) -> (r: Ui)
        ensures
            r == Ui::spec_new(max_rect),
    {
        Ui { max_rect, min_rect: Rect { min: max_rect.min, max: max_rect.min } }
    }

    /// The bounds of the region.
    pub fn max_rect(&self) -> (r: Rect)
        ensures
            r == self.max_rect,
    {
        self.max_rect
    }

    /// The space content has claimed so far.
    pub fn min_rect(&self) -> (r: Rect)
        ensures
            r == self.min_rect,
    {
        self.min_rect
    }

    /// What `set_min_height` leaves as the claimed rectangle.
    pub open spec fn spec_with_min_height(self, height: i64) -> Ui {
        let bottom = spec_add_sat(self.min_rect.min.y, height);
        Ui {
            max_rect: self.max_rect,
            min_rect: Rect {
                min: self.min_rect.min,
                max: Pos {
                    x: self.min_rect.max.x,
                    y: if self.min_rect.max.y >= bottom {
                        self.min_rect.max.y
                    } else {
                        bottom
                    },
                },
            },
        }
    }

    /// Claims at least `height` of vertical space, measured from the top of
    /// the claimed rectangle. Never shrinks the claim.
    pub fn set_min_height(&mut self, height: i64)
        ensures
            *final(self) == old(self).spec_with_min_height(height),
    {
        let bottom = add_sat(self.min_rect.min.y, height);
        if self.min_rect.max.y < bottom {
            self.min_rect.max.y = bottom;
        }
    }

    /// What `set_min_width` leaves as the claimed rectangle.
    pub open spec fn spec_with_min_width(self, width: i64) -> Ui {
        let right = spec_add_sat(self.min_rect.min.x, width);
        Ui {
            max_rect: self.max_rect,
            min_rect: Rect {
                min: self.min_rect.min,
                max: Pos {
                    x: if self.min_rect.max.x >= right {
                        self.min_rect.max.x
                    } else {
                        right
                    },
                    y: self.min_rect.max.y,
                },
            },
        }
    }

    /// Claims at least `width` of horizontal space, measured from the left of
    /// the claimed rectangle. Never shrinks the claim.
    pub fn set_min_width(&mut self, width: i64)
        ensures
            *final(self) == old(self).spec_with_min_width(width),
    {
        let right = add_sat(self.min_rect.min.x, width);
        if self.min_rect.max.x < right {
            self.min_rect.max.x = right;
        }
    }

    /// Grows the claimed rectangle to include `rect`.
    pub fn expand_to_include_rect(&mut self, rect: Rect)
        ensures
            final(self).min_rect == old(self).min_rect.spec_union(rect),
            final(self).max_rect == old(self).max_rect,
    {
        self.min_rect = self.min_rect.union(&rect);
    }
}

} // verus!
