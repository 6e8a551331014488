use vstd::prelude::*;
use crate::effects::{alert_count, host_calls, install_count, log_texts, EffectView, HostCallView};
use crate::runtime::{fault_plan, greeting, init_plan};

verus! {

/// The hook state and the effects, in order, after `n` calls of `init` on a module whose hook
/// was, or was not, in place.
pub open spec fn run_inits(hook_installed: bool, n: nat) -> (bool, Seq<EffectView>)
    decreases n,
{
    if n == 0 {
        (hook_installed, Seq::empty())
    } else {
        let (state, effects) = run_inits(hook_installed, (n - 1) as nat);
        (true, effects + init_plan(state))
    }
}

proof fn lemma_install_count_append(a: Seq<EffectView>, b: Seq<EffectView>)
    ensures
        install_count(a + b) == install_count(a) + install_count(b),
    decreases b.len(),
{
    if b.len() == 0 {
        assert(a + b =~= a);
    } else {
        lemma_install_count_append(a, b.drop_last());
        assert((a + b).drop_last() =~= a + b.drop_last());
    }
}

proof fn lemma_host_calls_append(a: Seq<EffectView>, b: Seq<EffectView>)
    ensures
        host_calls(a + b) == host_calls(a) + host_calls(b),
    decreases b.len(),
{
    if b.len() == 0 {
        assert(a + b =~= a);
        assert(host_calls(a) + host_calls(b) =~= host_calls(a));
    } else {
        lemma_host_calls_append(a, b.drop_last());
        assert((a + b).drop_last() =~= a + b.drop_last());
        match b.last() {
            EffectView::InstallFaultHook => {},
            EffectView::Host(c) => {
                assert(host_calls(a) + host_calls(b.drop_last()).push(c)
                    =~= (host_calls(a) + host_calls(b.drop_last())).push(c));
            },
        }
    }
}

proof fn lemma_alert_count_append(a: Seq<HostCallView>, b: Seq<HostCallView>)
    ensures
        alert_count(a + b) == alert_count(a) + alert_count(b),
    decreases b.len(),
{
    if b.len() == 0 {
        assert(a + b =~= a);
    } else {
        lemma_alert_count_append(a, b.drop_last());
        assert((a + b).drop_last() =~= a + b.drop_last());
    }
}

proof fn lemma_init_plan_calls(hook_installed: bool)
    ensures
        host_calls(init_plan(hook_installed)) =~= seq![HostCallView::Log(greeting())],
        install_count(init_plan(hook_installed)) == if hook_installed { 0nat } else { 1nat },
{
    reveal_with_fuel(host_calls, 3);
    reveal_with_fuel(install_count, 3);
    let p = init_plan(hook_installed);
    if hook_installed {
        assert(p.drop_last() =~= Seq::<EffectView>::empty());
    } else {
        assert(p.drop_last() =~= seq![EffectView::InstallFaultHook]);
        assert(p.drop_last().drop_last() =~= Seq::<EffectView>::empty());
    }
}

/// A call of `init` hands the host's log exactly one line, the greeting.
pub proof fn lemma_init_logs_greeting_once(hook_installed: bool)
    ensures
        log_texts(host_calls(init_plan(hook_installed))) =~= seq![greeting()],
{
    lemma_init_plan_calls(hook_installed);
    reveal_with_fuel(log_texts, 2);
    let calls = seq![HostCallView::Log(greeting())];
    assert(calls.drop_last() =~= Seq::<HostCallView>::empty());
}

/// A call of `init` never raises an alert.
pub proof fn lemma_init_never_alerts(hook_installed: bool)
    ensures
        alert_count(host_calls(init_plan(hook_installed))) == 0,
{
    lemma_init_plan_calls(hook_installed);
    reveal_with_fuel(alert_count, 2);
    let calls = seq![HostCallView::Log(greeting())];
    assert(calls.drop_last() =~= Seq::<HostCallView>::empty());
}

/// However many times `init` runs, at least once, the hook ends up in place, it is installed
/// at most once over all those calls (never where it already was), and no call raises an alert.
pub proof fn lemma_repeated_init(hook_installed: bool, n: nat)
    requires
        n >= 1,
    ensures
        run_inits(hook_installed, n).0,
        install_count(run_inits(hook_installed, n).1) == if hook_installed { 0nat } else { 1nat },
        alert_count(host_calls(run_inits(hook_installed, n).1)) == 0,
    decreases n,
{
    let (state, effects) = run_inits(hook_installed, (n - 1) as nat);
    lemma_install_count_append(effects, init_plan(state));
    lemma_host_calls_append(effects, init_plan(state));
    lemma_alert_count_append(host_calls(effects), host_calls(init_plan(state)));
    lemma_init_plan_calls(state);
    lemma_init_never_alerts(state);
    if n == 1 {
        assert(effects =~= Seq::<EffectView>::empty());
        assert(host_calls(effects) =~= Seq::<HostCallView>::empty());
    } else {
        lemma_repeated_init(hook_installed, (n - 1) as nat);
    }
}

/// Before the hook is in place, a fault reaches the host's log not at all.
pub proof fn lemma_fault_silent_before_hook(description: Seq<char>)
    ensures
        fault_plan(false, description) =~= Seq::<HostCallView>::empty(),
        log_texts(fault_plan(false, description)) =~= Seq::<Seq<char>>::empty(),
{
}

/// After `init` has run, once or more, a fault reaches the host's log as one line that
/// carries its description.
pub proof fn lemma_fault_logged_after_init(hook_installed: bool, n: nat, description: Seq<char>)
    requires
        n >= 1,
    ensures
        log_texts(fault_plan(run_inits(hook_installed, n).0, description)) =~= seq![description],
{
    lemma_repeated_init(hook_installed, n);
    reveal_with_fuel(log_texts, 2);
    let calls = seq![HostCallView::Log(description)];
    assert(calls.drop_last() =~= Seq::<HostCallView>::empty());
}

} // verus!
