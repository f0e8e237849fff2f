//! The header mode selector: a stateless child component that translates its
//! three mutually exclusive toggles into a mode-change message for the store.

use vstd::prelude::*;

use crate::store::AppMode;
use crate::store::AppModel;
use crate::store::AppMsg;

verus! {

/// One of the header's three toggles was activated.
#[derive(Clone, Copy, Debug, PartialEq, Eq, Structural)]
pub enum HeaderMsg {
    View,
    Edit,
    Export,
}

/// The header component. It holds no state of its own: it only emits
/// mode-change messages upward to the owning store.
pub struct HeaderModel {}

/// The mode that each header toggle stands for.
pub open spec fn mode_for(msg: HeaderMsg) -> AppMode {
    match msg {
        HeaderMsg::View => AppMode::View,
        HeaderMsg::Edit => AppMode::Edit,
        HeaderMsg::Export => AppMode::Export,
    }
}

impl HeaderModel {
    /// The header starts with nothing to remember; it never reads the parent.
    pub fn init_model(_parent_model: &AppModel) -> (header: HeaderModel) {
        HeaderModel {}
    }

    /// Translates a toggle activation into the one message the header may
    /// send upward: set the corresponding mode on the owning store.
    pub fn update(&mut self, msg: HeaderMsg) -> (out: AppMsg)
        ensures
            out == AppMsg::SetMode(mode_for(msg)),
    {
        match msg {
            HeaderMsg::View => AppMsg::SetMode(AppMode::View),
            HeaderMsg::Edit => AppMsg::SetMode(AppMode::Edit),
            HeaderMsg::Export => AppMsg::SetMode(AppMode::Export),
        }
    }
}

} // verus!
