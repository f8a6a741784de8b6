//! An interactive line-editor core: an editable line buffer with cursor
//! arithmetic, a byte-level escape-sequence recognizer, line history, and
//! the engine that turns incoming bytes into buffer edits and redraw
//! requests. All terminal I/O lives outside this crate; the engine consumes
//! plain bytes and hands back plain values.

pub mod behavior;
pub mod complete;
pub mod engine;
pub mod errors;
pub mod input;
pub mod line;
pub mod render;

pub use behavior::LineCompletion;
pub use behavior::LineProcessor;
pub use complete::line_is_finished;
pub use complete::process_line;
pub use engine::Repl;
pub use engine::Step;
pub use errors::Error;
pub use input::InputEvent;
pub use input::InputMachine;
pub use input::InputType;
pub use line::Line;
pub use line::LineModel;
