//! The styled code editor: its builder, the palette a host lays over the
//! theme's, and what the editor hands to the input it renders into.
mod color;
mod editor;
mod style;

pub use color::Hsla;
pub use editor::{Editor, EditorParts, EditorSettings, InputConfig, TextRefinement};
pub use style::{EditorStyleOverrides, InputEditorStyle};
