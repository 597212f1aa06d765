//! Undo/redo command core for a scene-graph editor.
//!
//! Every mutation of scene state is expressed as a reversible command
//! ([`commands::SceneCommand`]) applied to a [`scene::SceneContext`] and
//! recorded on a [`history::CommandStack`], from which it can be undone and
//! redone deterministically.

pub mod commands;
pub mod history;
pub mod scene;
