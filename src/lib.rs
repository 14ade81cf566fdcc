//! Decisions of a hotkey utility that copies the selected text, joins its
//! lines into one, and pastes the result back in place of the selection.

pub mod listener;
pub mod pipeline;
pub mod transform;
