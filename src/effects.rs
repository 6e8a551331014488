use vstd::prelude::*;

verus! {

/// A one-way notification handed to the embedding host.
#[derive(Debug, Clone, PartialEq, Eq)]
pub enum HostCall {
    /// Text for the host's log.
    Log(String),
    /// Text for the host's alert box.
    Alert(String),
}

/// What a `HostCall` carries, as mathematical text.
pub enum HostCallView {
    Log(Seq<char>),
    Alert(Seq<char>),
}

impl View for HostCall {
    type V = HostCallView;

    open spec fn view(&self) -> HostCallView {
        match self {
            HostCall::Log(s) => HostCallView::Log(s@),
            HostCall::Alert(s) => HostCallView::Alert(s@),
        }
    }
}

/// Work that the embedding runtime performs on the module's behalf, in order.
#[derive(Debug, Clone, PartialEq, Eq)]
pub enum Effect {
    /// Put the hook in place that reports faults of this module to the host's log.
    InstallFaultHook,
    /// Hand a notification to the host.
    Host(HostCall),
}

/// What an `Effect` does, as mathematical values.
pub enum EffectView {
    InstallFaultHook,
    Host(HostCallView),
}

impl View for Effect {
    type V = EffectView;

    open spec fn view(&self) -> EffectView {
        match self {
            Effect::InstallFaultHook => EffectView::InstallFaultHook,
            Effect::Host(c) => EffectView::Host(c@),
        }
    }
}

/// The texts of the log notifications among `calls`, in order.
pub open spec fn log_texts(calls: Seq<HostCallView>) -> Seq<Seq<char>>
    decreases calls.len(),
{
    if calls.len() == 0 {
        Seq::empty()
    } else {
        let rest = log_texts(calls.drop_last());
        match calls.last() {
            HostCallView::Log(t) => rest.push(t),
            HostCallView::Alert(_) => rest,
        }
    }
}

/// The number of alert notifications among `calls`.
pub open spec fn alert_count(calls: Seq<HostCallView>) -> nat
    decreases calls.len(),
{
    if calls.len() == 0 {
        0
    } else {
        let rest = alert_count(calls.drop_last());
        match calls.last() {
            HostCallView::Log(_) => rest,
            HostCallView::Alert(_) => rest + 1,
        }
    }
}

/// The host notifications among `effects`, in order.
pub open spec fn host_calls(effects: Seq<EffectView>) -> Seq<HostCallView>
    decreases effects.len(),
{
    if effects.len() == 0 {
        Seq::empty()
    } else {
        let rest = host_calls(effects.drop_last());
        match effects.last() {
            EffectView::InstallFaultHook => rest,
            EffectView::Host(c) => rest.push(c),
        }
    }
}

/// The number of hook installations among `effects`.
pub open spec fn install_count(effects: Seq<EffectView>) -> nat
    decreases effects.len(),
{
    if effects.len() == 0 {
        0
    } else {
        let rest = install_count(effects.drop_last());
        match effects.last() {
            EffectView::InstallFaultHook => rest + 1,
            EffectView::Host(_) => rest,
        }
    }
}

} // verus!
