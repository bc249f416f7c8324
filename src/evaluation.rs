use vstd::prelude::*;
use crate::directives::{
    bind_directive, nested_take_command, nested_take_directive, stage_command, take_command,
    take_directive, temp_name, type_command, type_directive, value_command, value_directive,
};
use crate::text::{pieces, split_commas, trim, trim_brackets, trimmed, unbracketed};

verus! {

/// What a type signature says of a value's structure, read from its last two
/// characters only.
#[derive(Clone, Copy, Debug, PartialEq, Eq, Structural)]
pub enum Shape {
    Scalar,
    List,
    Nested,
}

pub open spec fn shape_of(signature: Seq<char>) -> Shape {
    let n = signature.len();
    if n >= 1 && signature[n - 1] == ']' {
        if n >= 2 && signature[n - 2] == ']' {
            Shape::Nested
        } else {
            Shape::List
        }
    } else {
        Shape::Scalar
    }
}

/// Reads the shape of a value from its type signature: `]]` at the end is a
/// list of lists, a single `]` a list, anything else a scalar.
pub fn classify_type(signature: &str) -> (r: Shape)
    ensures
        r == shape_of(signature@),
{
    let n = signature.unicode_len();
    if n >= 1 && signature.get_char(n - 1) == ']' {
        if n >= 2 && signature.get_char(n - 2) == ']' {
            Shape::Nested
        } else {
            Shape::List
        }
    } else {
        Shape::Scalar
    }
}

/// The elements of a list as the interpreter prints it (`[1,2,3]`), one text
/// per element.
pub fn list_cells(list: &str) -> (r: Vec<String>)
    ensures
        r.deep_view() == pieces(unbracketed(list@), ','),
        r@.len() >= 1,
{
    split_commas(trim_brackets(list))
}

/// The elements of a list of lists as the interpreter prints it
/// (`[[1,2],[3,4]]`), inner lists one after the other.
pub fn nested_list_cells(list: &str) -> (r: Vec<String>)
    ensures
        r.deep_view() == pieces(list@, ',').map_values(|p: Seq<char>| unbracketed(p)),
        r@.len() >= 1,
{
    let parts = split_commas(list);
    let mut out: Vec<String> = Vec::new();
    let mut k: usize = 0;
    while k < parts.len()
        invariant
            k <= parts@.len(),
            parts.deep_view() == pieces(list@, ','),
            out@.len() == k,
            forall|m: int| 0 <= m < k ==> #[trigger] out@[m]@ == unbracketed(parts@[m]@),
        decreases parts@.len() - k,
    {
        let cell = String::from_str(trim_brackets(parts[k].as_str()));
        out.push(cell);
        k = k + 1;
    }
    assert(out.deep_view() =~= pieces(list@, ',').map_values(|p: Seq<char>| unbracketed(p))) by {
        assert forall|m: int| 0 <= m < out@.len() implies out.deep_view()[m] == pieces(
            list@,
            ',',
        ).map_values(|p: Seq<char>| unbracketed(p))[m] by {
            assert(parts.deep_view()[m] == parts@[m]@);
        }
    }
    out
}

/// How far an evaluation has come.
#[derive(Clone, Copy, Debug, PartialEq, Eq, Structural)]
pub enum Stage {
    /// The expression is being bound to the temporary name.
    Staging,
    /// The type of the temporary binding has been asked for.
    AskingType,
    /// The value, of this shape, has been asked for.
    Fetching(Shape),
    /// The result has been handed out.
    Done,
}

/// An evaluation in progress, with the destination's width and height.
#[derive(Clone, Copy, Debug, PartialEq, Eq, Structural)]
pub struct Evaluation {
    pub width: usize,
    pub height: usize,
    pub stage: Stage,
}

/// The result of an evaluation, before its texts become cell values.
#[derive(Debug, PartialEq, Eq)]
pub enum Cells {
    /// A single text cell holding this message.
    Error(String),
    /// A single text cell holding this message, with the channel's own context.
    ChannelError(String),
    /// One value's text, for the scalar converter.
    Scalar(String),
    /// `width` by `height` cells, from these texts in order.
    Array { width: usize, height: usize, cells: Vec<String> },
}

/// What the caller does next for an evaluation.
#[derive(Debug, PartialEq, Eq)]
pub enum Action {
    /// Run this command and report its reply, whatever it is.
    Execute(String),
    /// Write this query, then read its reply; report a failure of either.
    AskType(String),
    /// The evaluation is over with this result.
    Finish(Cells),
}

/// What happened to the last action.
#[derive(Debug, PartialEq, Eq)]
pub enum Event {
    Response(String),
    WriteFailed,
    ReadFailed,
}

pub enum CellsView {
    Error(Seq<char>),
    ChannelError(Seq<char>),
    Scalar(Seq<char>),
    Array(nat, nat, Seq<Seq<char>>),
}

pub enum ActionView {
    Execute(Seq<char>),
    AskType(Seq<char>),
    Finish(CellsView),
}

pub enum EventView {
    Response(Seq<char>),
    WriteFailed,
    ReadFailed,
}

impl View for Cells {
    type V = CellsView;

    open spec fn view(&self) -> CellsView {
        match self {
            Cells::Error(m) => CellsView::Error(m@),
            Cells::ChannelError(m) => CellsView::ChannelError(m@),
            Cells::Scalar(t) => CellsView::Scalar(t@),
            Cells::Array { width, height, cells } => CellsView::Array(
                *width as nat,
                *height as nat,
                cells.deep_view(),
            ),
        }
    }
}

impl View for Action {
    type V = ActionView;

    open spec fn view(&self) -> ActionView {
        match self {
            Action::Execute(c) => ActionView::Execute(c@),
            Action::AskType(c) => ActionView::AskType(c@),
            Action::Finish(cells) => ActionView::Finish(cells@),
        }
    }
}

impl View for Event {
    type V = EventView;

    open spec fn view(&self) -> EventView {
        match self {
            Event::Response(t) => EventView::Response(t@),
            Event::WriteFailed => EventView::WriteFailed,
            Event::ReadFailed => EventView::ReadFailed,
        }
    }
}

pub open spec fn write_failed_message() -> Seq<char> {
    "Error: Cannot write to Haskell"@
}

pub open spec fn read_failed_message() -> Seq<char> {
    "Error: Cannot read from Haskell"@
}

pub open spec fn type_unasked_message() -> Seq<char> {
    "Error: Cannot ask Haskell the type"@
}

pub open spec fn no_type_message() -> Seq<char> {
    "Error: no type response from Haskell"@
}

pub open spec fn zero_size_message() -> Seq<char> {
    "Error: destination of formula has zero size"@
}

/// How many elements of a flat list a destination takes: its width when that
/// exceeds one, else its height.
pub open spec fn list_length(width: nat, height: nat) -> nat {
    if width > 1 {
        width
    } else {
        height
    }
}

pub open spec fn finish(cells: CellsView) -> (Stage, ActionView) {
    (Stage::Done, ActionView::Finish(cells))
}

/// The request that follows a type signature of this shape.
pub open spec fn fetch(width: nat, height: nat, shape: Shape) -> (Stage, ActionView) {
    match shape {
        Shape::Scalar => (Stage::Fetching(Shape::Scalar), ActionView::Execute(value_directive())),
        Shape::List => if list_length(width, height) == 0 {
            finish(CellsView::Error(zero_size_message()))
        } else {
            (
                Stage::Fetching(Shape::List),
                ActionView::Execute(take_directive(list_length(width, height))),
            )
        },
        Shape::Nested => if width == 0 || height == 0 {
            finish(CellsView::Error(zero_size_message()))
        } else {
            (
                Stage::Fetching(Shape::Nested),
                ActionView::Execute(nested_take_directive(width, height)),
            )
        },
    }
}

/// The result made from the reply to a value request of this shape.
pub open spec fn received(width: nat, height: nat, shape: Shape, reply: Seq<char>) -> CellsView {
    match shape {
        Shape::Scalar => CellsView::Scalar(reply),
        Shape::List => CellsView::Array(
            width,
            height,
            pieces(unbracketed(trimmed(reply)), ','),
        ),
        Shape::Nested => CellsView::Array(
            width,
            height,
            pieces(trimmed(reply), ',').map_values(|p: Seq<char>| unbracketed(p)),
        ),
    }
}

/// The next stage and action of an evaluation at `stage` on `event`.
pub open spec fn next(stage: Stage, width: nat, height: nat, event: EventView) -> (
    Stage,
    ActionView,
) {
    match event {
        EventView::WriteFailed => match stage {
            Stage::AskingType => finish(CellsView::Error(type_unasked_message())),
            _ => finish(CellsView::ChannelError(write_failed_message())),
        },
        EventView::ReadFailed => finish(CellsView::ChannelError(read_failed_message())),
        EventView::Response(reply) => match stage {
            Stage::Staging => if reply.len() > 0 {
                finish(CellsView::Error(reply))
            } else {
                (Stage::AskingType, ActionView::AskType(type_directive()))
            },
            Stage::AskingType => if reply.len() == 0 {
                finish(CellsView::Error(no_type_message()))
            } else {
                fetch(width, height, shape_of(trimmed(reply)))
            },
            Stage::Fetching(shape) => finish(received(width, height, shape, reply)),
            Stage::Done => finish(CellsView::Error(reply)),
        },
    }
}

fn error_text(lit: &'static str) -> (r: Cells)
    ensures
        r@ == CellsView::Error(lit@),
{
    Cells::Error(String::from_str(lit))
}

fn channel_error_text(lit: &'static str) -> (r: Cells)
    ensures
        r@ == CellsView::ChannelError(lit@),
{
    Cells::ChannelError(String::from_str(lit))
}

/// Starts evaluating `value` for a destination of `dim.0` columns and
/// `dim.1` rows: the first step binds it to the temporary name.
pub fn evaluate(value: &str, dim: (usize, usize)) -> (r: (Evaluation, Action))
    ensures
        r.0 == (Evaluation { width: dim.0, height: dim.1, stage: Stage::Staging }),
        r.1@ == ActionView::Execute(bind_directive(temp_name(), value@)),
{
    let evaluation = Evaluation { width: dim.0, height: dim.1, stage: Stage::Staging };
    (evaluation, Action::Execute(stage_command(value)))
}

impl Evaluation {
    /// Takes in what happened to the last action and says what to do next.
    pub fn step(&mut self, event: Event) -> (r: Action)
        requires
            old(self).stage != Stage::Done,
        ensures
            final(self).width == old(self).width,
            final(self).height == old(self).height,
            (final(self).stage, r@) == next(
                old(self).stage,
                old(self).width as nat,
                old(self).height as nat,
                event@,
            ),
    {
        match event {
            Event::WriteFailed => {
                let asking = self.stage == Stage::AskingType;
                self.stage = Stage::Done;
                if asking {
                    Action::Finish(error_text("Error: Cannot ask Haskell the type"))
                } else {
                    Action::Finish(channel_error_text("Error: Cannot write to Haskell"))
                }
            },
            Event::ReadFailed => {
                self.stage = Stage::Done;
                Action::Finish(channel_error_text("Error: Cannot read from Haskell"))
            },
            Event::Response(reply) => self.respond(reply),
        }
    }

    fn respond(&mut self, reply: String) -> (r: Action)
        requires
            old(self).stage != Stage::Done,
        ensures
            final(self).width == old(self).width,
            final(self).height == old(self).height,
            (final(self).stage, r@) == next(
                old(self).stage,
                old(self).width as nat,
                old(self).height as nat,
                EventView::Response(reply@),
            ),
    {
        match self.stage {
            Stage::Staging => {
                if reply.as_str().is_empty() {
                    self.stage = Stage::AskingType;
                    Action::AskType(type_command())
                } else {
                    self.stage = Stage::Done;
                    Action::Finish(Cells::Error(reply))
                }
            },
            Stage::AskingType => {
                if reply.as_str().is_empty() {
                    self.stage = Stage::Done;
                    Action::Finish(error_text("Error: no type response from Haskell"))
                } else {
                    let shape = classify_type(trim(reply.as_str()));
                    self.request(shape)
                }
            },
            Stage::Fetching(shape) => {
                self.stage = Stage::Done;
                let cells = match shape {
                    Shape::Scalar => Cells::Scalar(reply),
                    Shape::List => Cells::Array {
                        width: self.width,
                        height: self.height,
                        cells: list_cells(trim(reply.as_str())),
                    },
                    Shape::Nested => Cells::Array {
                        width: self.width,
                        height: self.height,
                        cells: nested_list_cells(trim(reply.as_str())),
                    },
                };
                Action::Finish(cells)
            },
            Stage::Done => {
                Action::Finish(Cells::Error(reply))
            },
        }
    }

    fn request(&mut self, shape: Shape) -> (r: Action)
        ensures
            final(self).width == old(self).width,
            final(self).height == old(self).height,
            (final(self).stage, r@) == fetch(
                old(self).width as nat,
                old(self).height as nat,
                shape,
            ),
    {
        let width = self.width;
        let height = self.height;
        match shape {
            Shape::Scalar => {
                self.stage = Stage::Fetching(Shape::Scalar);
                Action::Execute(value_command())
            },
            Shape::List => {
                let count = if width > 1 { width } else { height };
                if count == 0 {
                    self.stage = Stage::Done;
                    Action::Finish(error_text("Error: destination of formula has zero size"))
                } else {
                    self.stage = Stage::Fetching(Shape::List);
                    Action::Execute(take_command(count))
                }
            },
            Shape::Nested => {
                if width == 0 || height == 0 {
                    self.stage = Stage::Done;
                    Action::Finish(error_text("Error: destination of formula has zero size"))
                } else {
                    self.stage = Stage::Fetching(Shape::Nested);
                    Action::Execute(nested_take_command(width, height))
                }
            },
        }
    }
}

} // verus!
