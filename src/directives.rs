use vstd::prelude::*;
use crate::text::{decimal, decimal_text};

verus! {

/// The binding every evaluated expression is staged in. It is reused on
/// purpose, so that the interpreter reclaims the previous value.
pub open spec fn temp_name() -> Seq<char> {
    "hk_temp"@
}

pub open spec fn load_directive(module: Seq<char>) -> Seq<char> {
    ":l "@ + module + "\n"@
}

pub open spec fn reload_directive() -> Seq<char> {
    ":r\n"@
}

pub open spec fn bind_directive(name: Seq<char>, expr: Seq<char>) -> Seq<char> {
    name + " = "@ + expr + "\n"@
}

pub open spec fn type_directive() -> Seq<char> {
    ":t "@ + temp_name() + "\n"@
}

pub open spec fn value_directive() -> Seq<char> {
    temp_name() + "\n"@
}

/// Asks for the first `n` elements of the staged list.
pub open spec fn take_directive(n: nat) -> Seq<char> {
    "take "@ + decimal(n) + " "@ + temp_name() + "\n"@
}

/// Asks for the first `outer` elements of the staged list of lists, each cut
/// to its first `inner` elements.
pub open spec fn nested_take_directive(inner: nat, outer: nat) -> Seq<char> {
    "take "@ + decimal(outer) + " (map (take "@ + decimal(inner) + ") "@ + temp_name() + ")\n"@
}

/// The directive that loads the module `name`. The interpreter's reply to it
/// (diagnostics, or nothing) is the result of the load, verbatim.
pub fn load(name: &str) -> (r: String)
    ensures
        r@ == load_directive(name@),
{
    proof {
        reveal_strlit(":l ");
        reveal_strlit("\n");
    }
    let mut r = String::from_str(":l ");
    r.append(name);
    r.append("\n");
    r
}

/// The directive that reloads the loaded modules. The interpreter's reply to
/// it is the result of the reload, verbatim.
pub fn reload() -> (r: String)
    ensures
        r@ == reload_directive(),
{
    String::from_str(":r\n")
}

/// The directive that binds `name` to `value`.
pub fn assign_command(name: &str, value: &str) -> (r: String)
    ensures
        r@ == bind_directive(name@, value@),
{
    let mut r = String::from_str(name);
    r.append(" = ");
    r.append(value);
    r.append("\n");
    r
}

/// The result of an assignment, from the interpreter's reply to the binding
/// directive: a successful binding prints nothing, so an empty reply gives
/// back the name, and anything else is handed back as it came.
pub fn assign(name: &str, response: &str) -> (r: String)
    ensures
        response@.len() == 0 ==> r@ == name@,
        response@.len() > 0 ==> r@ == response@,
{
    if response.is_empty() {
        String::from_str(name)
    } else {
        String::from_str(response)
    }
}

pub(crate) fn stage_command(expr: &str) -> (r: String)
    ensures
        r@ == bind_directive(temp_name(), expr@),
{
    assign_command("hk_temp", expr)
}

pub(crate) fn type_command() -> (r: String)
    ensures
        r@ == type_directive(),
{
    let r = String::from_str(":t hk_temp\n");
    proof {
        reveal_strlit(":t hk_temp\n");
        reveal_strlit(":t ");
        reveal_strlit("hk_temp");
        reveal_strlit("\n");
        assert(r@ =~= type_directive());
    }
    r
}

pub(crate) fn value_command() -> (r: String)
    ensures
        r@ == value_directive(),
{
    let r = String::from_str("hk_temp\n");
    proof {
        reveal_strlit("hk_temp\n");
        reveal_strlit("hk_temp");
        reveal_strlit("\n");
        assert(r@ =~= value_directive());
    }
    r
}

pub(crate) fn take_command(n: usize) -> (r: String)
    ensures
        r@ == take_directive(n as nat),
{
    let mut r = String::from_str("take ");
    let count = decimal_text(n);
    r.append(count.as_str());
    r.append(" hk_temp\n");
    proof {
        reveal_strlit(" hk_temp\n");
        reveal_strlit(" ");
        reveal_strlit("hk_temp");
        reveal_strlit("\n");
        assert(r@ =~= take_directive(n as nat));
    }
    r
}

pub(crate) fn nested_take_command(inner: usize, outer: usize) -> (r: String)
    ensures
        r@ == nested_take_directive(inner as nat, outer as nat),
{
    let mut r = String::from_str("take ");
    let o = decimal_text(outer);
    r.append(o.as_str());
    r.append(" (map (take ");
    let i = decimal_text(inner);
    r.append(i.as_str());
    r.append(") hk_temp)\n");
    proof {
        reveal_strlit(") hk_temp)\n");
        reveal_strlit(") ");
        reveal_strlit("hk_temp");
        reveal_strlit(")\n");
        assert(r@ =~= nested_take_directive(inner as nat, outer as nat));
    }
    r
}

} // verus!
