use vstd::prelude::*;
use crate::effects::{Effect, EffectView, HostCall, HostCallView};

verus! {

/// The fixed line that `init` hands to the host's log.
pub open spec fn greeting() -> Seq<char> {
    "[fcmap-speedy] Library initialized"@
}

/// Process-wide state of the module: whether the fault hook is in place.
pub struct Runtime {
    pub fault_hook_installed: bool,
}

/// The effects of `init` on a module whose hook is, or is not yet, in place.
/// The hook is installed only where it is missing, so repeated calls never add a second one.
pub open spec fn init_plan(hook_installed: bool) -> Seq<EffectView> {
    let greet = EffectView::Host(HostCallView::Log(greeting()));
    if hook_installed {
        seq![greet]
    } else {
        seq![EffectView::InstallFaultHook, greet]
    }
}

/// What the host hears of a fault described by `description`: a log line of it once the
/// hook is in place, nothing before.
pub open spec fn fault_plan(hook_installed: bool, description: Seq<char>) -> Seq<HostCallView> {
    if hook_installed {
        seq![HostCallView::Log(description)]
    } else {
        Seq::empty()
    }
}

/// The greeting line as an owned string.
pub fn greeting_text() -> (r: String)
    ensures
        r@ == greeting(),
{
    String::from_str("[fcmap-speedy] Library initialized")
}

impl Runtime {
    /// The state at module load, before `init` has run.
    pub fn new() -> (r: Runtime)
        ensures
            !r.fault_hook_installed,
    {
        Runtime { fault_hook_installed: false }
    }
}

/// Brings the module up: the fault hook goes in place if it is not already, and the greeting
/// goes to the host's log. Returns the effects for the embedding runtime to perform, in order.
pub fn init(rt: &mut Runtime) -> (effects: Vec<Effect>)
    ensures
        final(rt).fault_hook_installed,
        effects@.map_values(|e: Effect| e@) == init_plan(old(rt).fault_hook_installed),
{
    let mut effects: Vec<Effect> = Vec::new();
    if !rt.fault_hook_installed {
        effects.push(Effect::InstallFaultHook);
        rt.fault_hook_installed = true;
    }
    effects.push(Effect::Host(HostCall::Log(greeting_text())));
    assert(effects@.map_values(|e: Effect| e@) =~= init_plan(old(rt).fault_hook_installed));
    effects
}

/// The notifications that the fault hook hands to the host for a fault described by
/// `description`.
pub fn fault_report(rt: &Runtime, description: String) -> (calls: Vec<HostCall>)
    ensures
        calls@.map_values(|c: HostCall| c@) == fault_plan(rt.fault_hook_installed, description@),
{
    let mut calls: Vec<HostCall> = Vec::new();
    if rt.fault_hook_installed {
        calls.push(HostCall::Log(description));
    }
    assert(calls@.map_values(|c: HostCall| c@) =~= fault_plan(rt.fault_hook_installed, description@));
    calls
}

} // verus!
