use haskell_bridge::{
    assign, assign_command, classify_type, decimal_text, evaluate, list_cells, load,
    nested_list_cells, reload, split_commas, trim_brackets, Action, Cells, Evaluation, Event,
    Shape, Stage,
};

fn strings(items: &[&str]) -> Vec<String> {
    items.iter().map(|s| s.to_string()).collect()
}

fn response(text: &str) -> Event {
    Event::Response(text.to_string())
}

/// Runs an evaluation up to its value request, past an empty binding reply
/// and the given type reply.
fn through_type(value: &str, dim: (usize, usize), signature: &str) -> (Evaluation, Action) {
    let (mut ev, first) = evaluate(value, dim);
    assert_eq!(first, Action::Execute(format!("hk_temp = {}\n", value)));
    let ask = ev.step(response(""));
    assert_eq!(ask, Action::AskType(":t hk_temp\n".to_string()));
    assert_eq!(ev.stage, Stage::AskingType);
    let next = ev.step(response(signature));
    (ev, next)
}

fn zero_size() -> Action {
    Action::Finish(Cells::Error("Error: destination of formula has zero size".to_string()))
}

#[test]
fn load_directive() {
    assert_eq!(load("Stats"), ":l Stats\n");
}

#[test]
fn reload_directive() {
    assert_eq!(reload(), ":r\n");
}

#[test]
fn assign_directive() {
    assert_eq!(assign_command("xs", "[1..10]"), "xs = [1..10]\n");
}

#[test]
fn assign_silent_reply_gives_name() {
    assert_eq!(assign("xs", ""), "xs");
}

#[test]
fn assign_reply_is_returned_verbatim() {
    let reply = "<interactive>:1:6: error: Variable not in scope: y";
    assert_eq!(assign("xs", reply), reply);
}

#[test]
fn trim_brackets_removes_one_run_each_side() {
    assert_eq!(trim_brackets("[[1,2]]"), "1,2");
    assert_ne!(trim_brackets("[[1,2]]"), "1,2]");
    assert_eq!(trim_brackets("[1,2]"), "1,2");
}

#[test]
fn trim_brackets_edges() {
    assert_eq!(trim_brackets(""), "");
    assert_eq!(trim_brackets("[]"), "");
    assert_eq!(trim_brackets("abc"), "abc");
    assert_eq!(trim_brackets("]a["), "]a[");
    assert_eq!(trim_brackets("[[a"), "a");
    assert_eq!(trim_brackets("b]]"), "b");
}

#[test]
fn split_commas_keeps_empty_pieces() {
    assert_eq!(split_commas(""), strings(&[""]));
    assert_eq!(split_commas("a,,b,"), strings(&["a", "", "b", ""]));
}

#[test]
fn decimal_numerals() {
    assert_eq!(decimal_text(0), "0");
    assert_eq!(decimal_text(7), "7");
    assert_eq!(decimal_text(10), "10");
    assert_eq!(decimal_text(12345), "12345");
}

#[test]
fn classify_signatures() {
    assert_eq!(classify_type("[a]"), Shape::List);
    assert_eq!(classify_type("[[a]]"), Shape::Nested);
    assert_eq!(classify_type("Integer"), Shape::Scalar);
    assert_eq!(classify_type("hk_temp :: (Num a, Enum a) => [a]"), Shape::List);
    assert_eq!(classify_type("]"), Shape::List);
    assert_eq!(classify_type(""), Shape::Scalar);
}

#[test]
fn list_cells_of_flat_reply() {
    assert_eq!(list_cells("[1,2,3]"), strings(&["1", "2", "3"]));
    assert_eq!(list_cells("[]"), strings(&[""]));
}

#[test]
fn nested_cells_in_row_order() {
    assert_eq!(nested_list_cells("[[1,2],[3,4]]"), strings(&["1", "2", "3", "4"]));
}

#[test]
fn staging_error_stops_before_type_query() {
    let (mut ev, _) = evaluate("x", (1, 1));
    let action = ev.step(response("error: not in scope"));
    assert_eq!(action, Action::Finish(Cells::Error("error: not in scope".to_string())));
    assert_eq!(ev.stage, Stage::Done);
}

#[test]
fn flat_list_row() {
    let (mut ev, action) = through_type("[1..]", (3, 1), "hk_temp :: [Integer]\n");
    assert_eq!(action, Action::Execute("take 3 hk_temp\n".to_string()));
    let done = ev.step(response("[1,2,3]\n"));
    assert_eq!(
        done,
        Action::Finish(Cells::Array { width: 3, height: 1, cells: strings(&["1", "2", "3"]) })
    );
}

#[test]
fn flat_list_takes_larger_side() {
    let (_, column) = through_type("[1..]", (1, 4), "[Integer]");
    assert_eq!(column, Action::Execute("take 4 hk_temp\n".to_string()));
    let (_, row) = through_type("[1..]", (4, 2), "[Integer]");
    assert_eq!(row, Action::Execute("take 4 hk_temp\n".to_string()));
    let (_, wide) = through_type("[1..]", (12345, 1), "[Integer]");
    assert_eq!(wide, Action::Execute("take 12345 hk_temp\n".to_string()));
}

#[test]
fn flat_list_zero_destination() {
    let (ev, action) = through_type("[1..]", (0, 0), "[Integer]");
    assert_eq!(action, zero_size());
    assert_eq!(ev.stage, Stage::Done);
    let (_, thin) = through_type("[1..]", (1, 0), "[Integer]");
    assert_eq!(thin, zero_size());
}

#[test]
fn nested_list_grid() {
    let (mut ev, action) = through_type("[[1,2],[3,4]]", (2, 2), "[[Integer]]");
    assert_eq!(action, Action::Execute("take 2 (map (take 2) hk_temp)\n".to_string()));
    let done = ev.step(response("[[1,2],[3,4]]"));
    assert_eq!(
        done,
        Action::Finish(Cells::Array {
            width: 2,
            height: 2,
            cells: strings(&["1", "2", "3", "4"]),
        })
    );
}

#[test]
fn nested_list_sides_in_order() {
    let (_, action) = through_type("m", (3, 2), "[[Double]]");
    assert_eq!(action, Action::Execute("take 2 (map (take 3) hk_temp)\n".to_string()));
}

#[test]
fn nested_list_zero_destination() {
    let (_, action) = through_type("m", (0, 3), "[[Double]]");
    assert_eq!(action, zero_size());
    let (_, none) = through_type("m", (0, 0), "[[Double]]");
    assert_eq!(none, zero_size());
}

#[test]
fn scalar_value() {
    let (mut ev, action) = through_type("7 / 2", (1, 1), "Double");
    assert_eq!(action, Action::Execute("hk_temp\n".to_string()));
    assert_eq!(ev.stage, Stage::Fetching(Shape::Scalar));
    let done = ev.step(response("3.5"));
    assert_eq!(done, Action::Finish(Cells::Scalar("3.5".to_string())));
}

#[test]
fn type_signature_is_trimmed() {
    let (_, action) = through_type("[1..]", (2, 1), "  [Integer]  \n");
    assert_eq!(action, Action::Execute("take 2 hk_temp\n".to_string()));
}

#[test]
fn type_query_failures() {
    let (mut unwritten, _) = evaluate("x", (1, 1));
    unwritten.step(response(""));
    assert_eq!(
        unwritten.step(Event::WriteFailed),
        Action::Finish(Cells::Error("Error: Cannot ask Haskell the type".to_string()))
    );
    let (mut unread, _) = evaluate("x", (1, 1));
    unread.step(response(""));
    assert_eq!(
        unread.step(Event::ReadFailed),
        Action::Finish(Cells::ChannelError("Error: Cannot read from Haskell".to_string()))
    );
    let (_, empty) = through_type("x", (1, 1), "");
    assert_eq!(
        empty,
        Action::Finish(Cells::Error("Error: no type response from Haskell".to_string()))
    );
}

#[test]
fn command_write_failure() {
    let (mut ev, _) = evaluate("x", (1, 1));
    assert_eq!(
        ev.step(Event::WriteFailed),
        Action::Finish(Cells::ChannelError("Error: Cannot write to Haskell".to_string()))
    );
}
