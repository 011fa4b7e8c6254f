//! The commands that give an interface a new address.
//!
//! The address is changed with the `ip` tool, run through `sudo`, in three
//! commands: take the interface down, set the address, bring the interface
//! up again. This module says what to run; running it is the caller's part.

use vstd::prelude::*;
use vstd::string::StringExecFns;
use crate::mac::{mac_text, MacAddr};
use crate::model::{assignment, ResolvedActionView};
use crate::policy::ResolvedAction;

verus! {

/// One command: a program and its arguments.
#[derive(Clone, Debug, PartialEq, Eq)]
pub struct Invocation {
    pub program: String,
    pub args: Vec<String>,
}

/// A list of strings, each as its characters.
pub open spec fn texts(words: Seq<String>) -> Seq<Seq<char>> {
    Seq::new(words.len(), |i: int| words[i]@)
}

/// The arguments `ip link set <inter> <request...>`.
pub open spec fn link_args(inter: Seq<char>, request: Seq<Seq<char>>) -> Seq<Seq<char>> {
    seq!["ip"@, "link"@, "set"@, inter] + request
}

/// The argument lists of the three commands that assign `address` to
/// `inter`, in the order in which they are run. The address is written in
/// its canonical text.
pub open spec fn set_addr_args(inter: Seq<char>, address: Seq<u8>) -> Seq<Seq<Seq<char>>> {
    seq![
        link_args(inter, seq!["down"@]),
        link_args(inter, seq!["address"@, mac_text(address)]),
        link_args(inter, seq!["up"@]),
    ]
}

/// `plan` runs `sudo` once for each argument list of `lists`, in order.
pub open spec fn runs_sudo(plan: Seq<Invocation>, lists: Seq<Seq<Seq<char>>>) -> bool {
    &&& plan.len() == lists.len()
    &&& forall|k: int|
        0 <= k < plan.len() ==> (#[trigger] plan[k]).program@ == "sudo"@ && texts(plan[k].args@)
            == lists[k]
}

/// The argument lists of the commands that an action asks for: those of
/// [`set_addr_args`], once, for the two actions that apply an address, none
/// for every other action.
pub open spec fn action_args(action: ResolvedActionView) -> Seq<Seq<Seq<char>>> {
    match assignment(action) {
        Some((interface, address)) => set_addr_args(interface, address),
        None => Seq::empty(),
    }
}

/// The command `sudo ip link set <inter> <request...>`.
fn ip_link_set(inter: &str, request: Vec<String>) -> (command: Invocation)
    ensures
        command.program@ == "sudo"@,
        texts(command.args@) == link_args(inter@, texts(request@)),
{
    let mut args: Vec<String> = Vec::new();
    args.push(String::from_str("ip"));
    args.push(String::from_str("link"));
    args.push(String::from_str("set"));
    args.push(String::from_str(inter));
    let mut request = request;
    let ghost asked = request@;
    args.append(&mut request);
    proof {
        assert(texts(args@) =~= link_args(inter@, texts(asked)));
    }
    Invocation { program: String::from_str("sudo"), args }
}

/// The three commands that assign `addr` to the interface `inter`: down,
/// set the address, up. A caller runs them in order and stops at the first
/// that cannot be started.
pub fn set_addr_commands(inter: &str, addr: &MacAddr) -> (plan: Vec<Invocation>)
    ensures
        runs_sudo(plan@, set_addr_args(inter@, addr@)),
{
    let mut down: Vec<String> = Vec::new();
    down.push(String::from_str("down"));
    let mut assign: Vec<String> = Vec::new();
    assign.push(String::from_str("address"));
    assign.push(addr.to_string());
    let mut up: Vec<String> = Vec::new();
    up.push(String::from_str("up"));
    proof {
        assert(texts(down@) =~= seq!["down"@]);
        assert(texts(assign@) =~= seq!["address"@, mac_text(addr@)]);
        assert(texts(up@) =~= seq!["up"@]);
    }
    let mut plan: Vec<Invocation> = Vec::new();
    plan.push(ip_link_set(inter, down));
    plan.push(ip_link_set(inter, assign));
    plan.push(ip_link_set(inter, up));
    plan
}

/// The commands to run for a resolved action: the three of
/// [`set_addr_commands`], once, for an action that applies an address, and
/// none for any other.
pub fn commands_for(action: &ResolvedAction) -> (plan: Vec<Invocation>)
    ensures
        runs_sudo(plan@, action_args(action@)),
{
    match action {
        ResolvedAction::ApplyExplicit { interface, address } => set_addr_commands(
            interface.as_str(),
            address,
        ),
        ResolvedAction::ApplyRandom { interface, address } => set_addr_commands(
            interface.as_str(),
            address,
        ),
        _ => Vec::new(),
    }
}

} // verus!
