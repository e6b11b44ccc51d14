//! Change-tracking and view-state model for a terminal viewer of a working
//! tree: classification of status entries into sections, identity-keyed
//! expansion state, focus navigation, key bindings and line flattening.

pub mod index;
pub mod diff;
pub mod view;
pub mod input;
pub mod render;
pub mod laws;
