//! Panel identities and the keyed persistent store that carries per-panel
//! state from one frame to the next.

use vstd::prelude::*;
use std::collections::HashMap;
use crate::geom::Rect;

verus! {

broadcast use vstd::std_specs::hash::group_hash_axioms;

/// A stable identity for a panel, built from a caller-supplied seed.
///
/// The identity scopes a panel's persisted state and its claim on the shared
/// drag-owner slot within one context. Two panels must not share an identity
/// unless they intend to alias state.
#[derive(Clone, Copy, PartialEq, Eq, Structural, Debug)]
pub struct Id {
    pub value: u64,
}

impl Id {
    /// The seed the identity was built from.
    pub open spec fn spec_value(self) -> u64 {
        self.value
    }

    pub fn new(seed: u64) -> (r: Id)
        ensures
            r == (Id { value: seed }),
    {
        Id { value: seed }
    }
}

/// The record persisted for a panel across frames: the rectangle it occupied
/// the last time it was shown.
#[derive(Clone, Copy, PartialEq, Eq, Structural, Debug)]
pub struct PanelState {
    pub rect: Rect,
}

/// A keyed store of [`PanelState`] records, surviving across frames.
///
/// Entries are created lazily on a panel's first show, overwritten on every
/// later show, and never destroyed: a stale entry for a panel no longer shown
/// is harmless.
pub struct PanelStore {
    map: HashMap<u64, PanelState>,
}

impl View for PanelStore {
    type V = Map<u64, PanelState>;

    closed spec fn view(&self) -> Map<u64, PanelState> {
        self.map@
    }
}

impl PanelStore {
    /// The entry stored under `id`, if any.
    pub open spec fn spec_get(self, id: Id) -> Option<PanelState> {
        if self@.contains_key(id.spec_value()) {
            Some(self@[id.spec_value()])
        } else {
            None
        }
    }

    pub fn new() -> (r: PanelStore)
        ensures
            r@ == Map::<u64, PanelState>::empty(),
    {
        PanelStore { map: HashMap::new() }
    }

    pub fn get(&self, id: Id) -> (r: Option<PanelState>)
        ensures
            r == self.spec_get(id),
    {
        match self.map.get(&id.value) {
            Some(state) => Some(*state),
            None => None,
        }
    }

    pub fn insert(&mut self, id: Id, state: PanelState)
        ensures
            final(self)@ == old(self)@.insert(id.spec_value(), state),
            final(self).spec_get(id) == Some(state),
    {
        self.map.insert(id.value, state);
    }
}

} // verus!
