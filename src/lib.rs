//! The library side of a bridge to an interactive Haskell interpreter. It
//! writes the directives the interpreter is sent, reads its replies, and
//! decides, from the type the interpreter reports, whether a value is a
//! scalar, a list or a list of lists, and how much of it to fetch for a
//! destination of a given size. The channel itself is left to the caller:
//! an evaluation is a state machine that says what to send next and takes in
//! what came back.
pub mod directives;
pub mod evaluation;
pub mod laws;
pub mod text;

pub use directives::{assign, assign_command, load, reload};
pub use evaluation::{
    classify_type, evaluate, list_cells, nested_list_cells, Action, Cells, Evaluation, Event,
    Shape, Stage,
};
pub use text::{decimal_text, split_commas, trim_brackets};
