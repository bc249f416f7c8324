use vstd::prelude::*;
use crate::directives::{nested_take_directive, take_directive};
use crate::evaluation::{
    finish, next, shape_of, zero_size_message, ActionView, CellsView, EventView, Shape, Stage,
};
use crate::text::{lemma_strip_back, lemma_strip_front, strip_front, trimmed, unbracketed};

verus! {

/// A destination with no width and no height refuses any list-typed value:
/// after the type arrives, the evaluation ends with the zero-size error.
pub proof fn zero_destination_refuses_lists(signature: Seq<char>)
    requires
        signature.len() > 0,
        shape_of(trimmed(signature)) != Shape::Scalar,
    ensures
        next(Stage::AskingType, 0, 0, EventView::Response(signature)) == finish(
            CellsView::Error(zero_size_message()),
        ),
{
}

/// For a flat list, the request asks for as many elements as the larger side
/// of the destination. This holds where the width exceeds one and is the
/// larger side, or where the width is at most one and the height is the larger
/// side; a destination one wide and zero high is refused instead.
pub proof fn flat_list_takes_larger_side(width: nat, height: nat, signature: Seq<char>)
    requires
        signature.len() > 0,
        shape_of(trimmed(signature)) == Shape::List,
        width > 0 || height > 0,
        !(width > 1 && height > width),
        !(width == 1 && height == 0),
    ensures
        next(Stage::AskingType, width, height, EventView::Response(signature)) == (
            Stage::Fetching(Shape::List),
            ActionView::Execute(take_directive(if width >= height { width } else { height })),
        ),
{
}

/// For a list of lists, the request asks for `height` outer elements, each cut
/// to `width` inner ones.
pub proof fn nested_list_takes_both_sides(width: nat, height: nat, signature: Seq<char>)
    requires
        signature.len() > 0,
        shape_of(trimmed(signature)) == Shape::Nested,
        width > 0,
        height > 0,
    ensures
        next(Stage::AskingType, width, height, EventView::Response(signature)) == (
            Stage::Fetching(Shape::Nested),
            ActionView::Execute(nested_take_directive(width, height)),
        ),
{
}

/// A binding that the interpreter answers with anything at all ends the
/// evaluation with that reply as the error, before any type is asked for.
pub proof fn staging_reply_is_the_error(width: nat, height: nat, reply: Seq<char>)
    requires
        reply.len() > 0,
    ensures
        next(Stage::Staging, width, height, EventView::Response(reply)) == finish(
            CellsView::Error(reply),
        ),
{
}

/// Trimming brackets removes the whole run of `[` at the start and the whole
/// run of `]` at the end, and nothing between them: what is left neither
/// starts with `[` nor ends with `]`.
pub proof fn unbracketed_drops_one_run_each_side(s: Seq<char>)
    ensures
        exists|i: int, j: int|
            0 <= i <= j <= s.len() && unbracketed(s) == s.subrange(i, j) && (forall|k: int|
                0 <= k < i ==> s[k] == '[') && (forall|k: int| j <= k < s.len() ==> s[k] == ']'),
        unbracketed(s).len() > 0 ==> unbracketed(s)[0] != '[' && unbracketed(s).last() != ']',
{
    let front = strip_front(s, '[');
    let i = lemma_strip_front(s, '[');
    let j = lemma_strip_back(front, ']');
    assert(unbracketed(s) == s.subrange(i, i + j)) by {
        assert(front.subrange(0, j) =~= s.subrange(i, i + j));
    }
    assert forall|k: int| i + j <= k < s.len() implies s[k] == ']' by {
        assert(s[k] == front[k - i]);
    }
    if unbracketed(s).len() > 0 {
        assert(unbracketed(s)[0] == front[0]);
    }
    assert(0 <= i <= i + j <= s.len());
}

} // verus!
