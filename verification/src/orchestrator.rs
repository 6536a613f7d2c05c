//! The connection orchestrator: a state machine that drives the ordered
//! side-effect sequences for connect and disconnect. Each step consumes
//! one event (a snapshot, an acknowledgement, or a failure) and decides
//! the next external request; an unverified driver performs the request
//! and hands the outcome back. All ordering, guarding and failure
//! containment is decided here.

use vstd::prelude::*;
use vstd::string::StringExecFns;
use crate::bearer::{BearerInfo, YesNo};
use crate::errors::OrchError;
use crate::iface::{DeviceList, spec_find_by_name};
use crate::modem::{ModemInfo, ModemState};
use crate::ports::{classify_ports, lemma_parsed_net_name, spec_net_name_of_raw, spec_ports_valid};
use crate::cli::Lte;

verus! {

/// One interface-mutating command of the kernel tool.
#[derive(Debug, Clone, PartialEq, Eq)]
pub enum IfaceAction {
    Flush { ifname: String },
    AddAddress { ifname: String, cidr: String },
    SetUp { ifname: String },
    SetDown { ifname: String },
    AddDefaultRoute { ifname: String, metric: u32 },
    AddDefaultRouteVia { ifname: String, gateway: String, metric: u32 },
    DelDefaultRoute { ifname: String, metric: u32 },
}

/// A mutation together with whether its failure is tolerated
/// (idempotent teardown steps tolerate "already absent").
#[derive(Debug, Clone, PartialEq, Eq)]
pub struct PlannedAction {
    pub action: IfaceAction,
    pub tolerate_failure: bool,
}

/// An external request the orchestrator asks its driver to perform.
#[derive(Debug, Clone, PartialEq, Eq)]
pub enum Action {
    FetchModem { selector: String },
    FetchBearer { bearer: String },
    FetchDevices,
    DaemonConnect { modem: String, apn: String },
    DaemonDisconnect { modem: String },
    Mutate { action: IfaceAction },
}

/// The outcome of the previously requested action, handed back by the
/// driver (plus `Start` to begin).
#[derive(Debug, Clone, PartialEq, Eq)]
pub enum Event {
    Start,
    ModemFetched { modem: ModemInfo },
    BearerFetched { bearer: BearerInfo },
    DevicesFetched { devices: DeviceList },
    DaemonOk,
    MutationOk,
    StepFailed { message: String },
}

/// Where the orchestration stands, and what it is waiting for.
#[derive(Debug, Clone, PartialEq, Eq)]
pub enum Phase {
    /// Nothing validated or requested yet.
    Start,
    /// Awaiting the target modem's snapshot.
    FetchingModem,
    /// Awaiting the daemon's acknowledgement of the connect request.
    Connecting,
    /// Awaiting the re-fetched modem snapshot after connect.
    Refreshing,
    /// Awaiting the first bearer's snapshot.
    FetchingBearer,
    /// Awaiting the interface snapshot for bringing the link up.
    FetchingNetDevices { ifname: String, address: String },
    /// Awaiting the daemon's acknowledgement of the disconnect request;
    /// the original modem snapshot is kept for port extraction.
    Disconnecting { modem: ModemInfo },
    /// Awaiting the interface snapshot for tearing the link down.
    FetchingDownDevices { net_name: String },
    /// Applying the planned mutations one by one; `idx` is the index of
    /// the mutation whose acknowledgement is pending.
    Mutating { queue: Vec<PlannedAction>, idx: usize },
    /// The requested sequence completed.
    Done,
    /// The sequence aborted; no rollback of already-applied steps.
    Failed { error: OrchError },
}

/// The orchestrator: the validated request plus the current phase.
#[derive(Debug, Clone, PartialEq, Eq)]
pub struct Orchestrator {
    pub connect: bool,
    pub disconnect: bool,
    pub privileged: bool,
    pub modem_selector: String,
    pub apn: String,
    pub phase: Phase,
}

/// The ordered mutations that bring the link up: flush, add the /32
/// host address, set the link up, then install the de-prioritized
/// default route (metric 200). None tolerates failure.
pub open spec fn connect_queue(q: Seq<PlannedAction>, ifname: Seq<char>, address: Seq<char>) -> bool {
    &&& q.len() == 4
    &&& (q[0].action matches IfaceAction::Flush { ifname: f } && f@ == ifname)
    &&& !q[0].tolerate_failure
    &&& (q[1].action matches IfaceAction::AddAddress { ifname: f, cidr } && f@ == ifname && cidr@
        == address + "/32"@)
    &&& !q[1].tolerate_failure
    &&& (q[2].action matches IfaceAction::SetUp { ifname: f } && f@ == ifname)
    &&& !q[2].tolerate_failure
    &&& (q[3].action matches IfaceAction::AddDefaultRoute { ifname: f, metric } && f@ == ifname
        && metric == 200u32)
    &&& !q[3].tolerate_failure
}

/// The ordered mutations that tear the link down: delete the
/// de-prioritized default route (tolerating "already absent"), flush
/// the addresses, then set the link down.
pub open spec fn disconnect_queue(q: Seq<PlannedAction>, ifname: Seq<char>) -> bool {
    &&& q.len() == 3
    &&& (q[0].action matches IfaceAction::DelDefaultRoute { ifname: f, metric } && f@ == ifname
        && metric == 200u32)
    &&& q[0].tolerate_failure
    &&& (q[1].action matches IfaceAction::Flush { ifname: f } && f@ == ifname)
    &&& !q[1].tolerate_failure
    &&& (q[2].action matches IfaceAction::SetDown { ifname: f } && f@ == ifname)
    &&& !q[2].tolerate_failure
}

/// The orchestrator's configuration is never changed by a step.
pub open spec fn config_unchanged(pre: Orchestrator, post: Orchestrator) -> bool {
    &&& post.connect == pre.connect
    &&& post.disconnect == pre.disconnect
    &&& post.privileged == pre.privileged
    &&& post.modem_selector == pre.modem_selector
    &&& post.apn == pre.apn
}

/// Acknowledging (or tolerating) mutation `idx` either finishes the
/// sequence or requests the next mutation of the queue.
pub open spec fn advance_post(
    queue: Seq<PlannedAction>,
    idx: int,
    post: Orchestrator,
    r: Option<Action>,
) -> bool {
    if idx + 1 < queue.len() {
        &&& post.phase matches Phase::Mutating { queue: q2, idx: i2 } && q2@ == queue && i2 == idx
            + 1
        &&& r matches Some(a) && a matches Action::Mutate { action } && action == queue[idx + 1].action
    } else {
        &&& post.phase == Phase::Done
        &&& r is None
    }
}

/// The complete transition relation of the orchestrator: for the prior
/// state `pre` and the event `ev`, exactly which state follows and
/// which request (if any) is issued.
pub open spec fn step_post(pre: Orchestrator, ev: Event, post: Orchestrator, r: Option<Action>) -> bool {
    &&& config_unchanged(pre, post)
    &&& match (pre.phase, ev) {
        (Phase::Start, Event::Start) => {
            if pre.connect && pre.disconnect {
                // Mutually exclusive requests are rejected before any
                // side effect.
                post.phase == Phase::Failed { error: OrchError::InvalidInput } && r is None
            } else if (pre.connect || pre.disconnect) && !pre.privileged {
                post.phase == Phase::Failed { error: OrchError::PermissionDenied } && r is None
            } else if !pre.connect && !pre.disconnect {
                post.phase == Phase::Done && r is None
            } else {
                post.phase == Phase::FetchingModem && r == Some(
                    Action::FetchModem { selector: pre.modem_selector },
                )
            }
        },
        (Phase::FetchingModem, Event::ModemFetched { modem }) => {
            if pre.connect {
                if modem.modem.generic.state == ModemState::Connected {
                    // The Connect transition is refused when the modem
                    // is already connected: nothing is issued and
                    // nothing is reconfigured.
                    post.phase == Phase::Done && r is None
                } else {
                    post.phase == Phase::Connecting && r == Some(
                        Action::DaemonConnect { modem: modem.modem.dbus_path, apn: pre.apn },
                    )
                }
            } else {
                // Disconnect is allowed even if already disconnected,
                // as a cleanup idempotency measure; the original
                // snapshot is kept for port extraction.
                post.phase == Phase::Disconnecting { modem } && r == Some(
                    Action::DaemonDisconnect { modem: modem.modem.dbus_path },
                )
            }
        },
        (Phase::Connecting, Event::DaemonOk) => {
            post.phase == Phase::Refreshing && r == Some(
                Action::FetchModem { selector: pre.modem_selector },
            )
        },
        (Phase::Refreshing, Event::ModemFetched { modem }) => {
            if modem.modem.generic.bearers@.len() == 0 {
                // The daemon reported success but produced no bearer:
                // abort before any interface mutation.
                post.phase == Phase::Failed { error: OrchError::NoBearerAfterConnect } && r is None
            } else {
                post.phase == Phase::FetchingBearer && r == Some(
                    Action::FetchBearer { bearer: modem.modem.generic.bearers@[0] },
                )
            }
        },
        (Phase::FetchingBearer, Event::BearerFetched { bearer }) => {
            if bearer.bearer.status.connected != YesNo::Yes {
                post.phase == Phase::Failed { error: OrchError::NoBearerAfterConnect } && r is None
            } else if bearer.bearer.status.interface@.len() == 0 {
                post.phase == Phase::Failed { error: OrchError::InterfaceNotFound } && r is None
            } else if bearer.bearer.ipv4_config.address@.len() == 0 {
                post.phase == Phase::Failed { error: OrchError::NoBearerAfterConnect } && r is None
            } else {
                post.phase == Phase::FetchingNetDevices {
                    ifname: bearer.bearer.status.interface,
                    address: bearer.bearer.ipv4_config.address,
                } && r == Some(Action::FetchDevices)
            }
        },
        (Phase::FetchingNetDevices { ifname, address }, Event::DevicesFetched { devices }) => {
            match spec_find_by_name(devices.0@, ifname@) {
                None => post.phase == Phase::Failed { error: OrchError::InterfaceNotFound }
                    && r is None,
                Some(_d) => {
                    &&& post.phase matches Phase::Mutating { queue, idx } && connect_queue(
                        queue@,
                        ifname@,
                        address@,
                    ) && idx == 0 && (r matches Some(a) && a matches Action::Mutate { action }
                        && action == queue@[0].action)
                },
            }
        },
        (Phase::Disconnecting { modem }, Event::DaemonOk) => {
            let raw = modem.modem.generic.ports@;
            if !spec_ports_valid(raw) {
                post.phase matches Phase::Failed { error } && (error matches
                    OrchError::ExternalTool { message } && message@
                    == "malformed port descriptor"@) && r is None
            } else if spec_net_name_of_raw(raw).len() == 0 {
                post.phase == Phase::Failed { error: OrchError::NoNetworkPort } && r is None
            } else {
                (post.phase matches Phase::FetchingDownDevices { net_name } && net_name@
                    == spec_net_name_of_raw(raw)) && r == Some(Action::FetchDevices)
            }
        },
        (Phase::FetchingDownDevices { net_name }, Event::DevicesFetched { devices }) => {
            match spec_find_by_name(devices.0@, net_name@) {
                None => post.phase == Phase::Failed { error: OrchError::InterfaceNotFound }
                    && r is None,
                Some(_d) => {
                    &&& post.phase matches Phase::Mutating { queue, idx } && disconnect_queue(
                        queue@,
                        net_name@,
                    ) && idx == 0 && (r matches Some(a) && a matches Action::Mutate { action }
                        && action == queue@[0].action)
                },
            }
        },
        (Phase::Mutating { queue, idx }, Event::MutationOk) => {
            advance_post(queue@, idx as int, post, r)
        },
        (Phase::Mutating { queue, idx }, Event::StepFailed { message }) => {
            if idx < queue.len() && queue[idx as int].tolerate_failure {
                // Idempotent teardown: "already absent" counts as done.
                advance_post(queue@, idx as int, post, r)
            } else {
                post.phase == Phase::Failed {
                    error: OrchError::ExternalTool { message },
                } && r is None
            }
        },
        (Phase::FetchingModem, Event::StepFailed { message })
        | (Phase::Connecting, Event::StepFailed { message })
        | (Phase::Refreshing, Event::StepFailed { message })
        | (Phase::FetchingBearer, Event::StepFailed { message })
        | (Phase::FetchingNetDevices { .. }, Event::StepFailed { message })
        | (Phase::Disconnecting { .. }, Event::StepFailed { message })
        | (Phase::FetchingDownDevices { .. }, Event::StepFailed { message }) => {
            post.phase == Phase::Failed { error: OrchError::ExternalTool { message } } && r is None
        },
        _ => post == pre && r is None,
    }
}

/// Rebuilds an interface action with the same contents.
fn clone_iface_action(a: &IfaceAction) -> (r: IfaceAction)
    ensures
        r == *a,
{
    match a {
        IfaceAction::Flush { ifname } => IfaceAction::Flush { ifname: ifname.clone() },
        IfaceAction::AddAddress { ifname, cidr } => IfaceAction::AddAddress {
            ifname: ifname.clone(),
            cidr: cidr.clone(),
        },
        IfaceAction::SetUp { ifname } => IfaceAction::SetUp { ifname: ifname.clone() },
        IfaceAction::SetDown { ifname } => IfaceAction::SetDown { ifname: ifname.clone() },
        IfaceAction::AddDefaultRoute { ifname, metric } => IfaceAction::AddDefaultRoute {
            ifname: ifname.clone(),
            metric: *metric,
        },
        IfaceAction::AddDefaultRouteVia { ifname, gateway, metric } => (
            IfaceAction::AddDefaultRouteVia {
                ifname: ifname.clone(),
                gateway: gateway.clone(),
                metric: *metric,
            }
        ),
        IfaceAction::DelDefaultRoute { ifname, metric } => IfaceAction::DelDefaultRoute {
            ifname: ifname.clone(),
            metric: *metric,
        },
    }
}

impl Orchestrator {
    /// A fresh orchestrator for the validated request carried by `lte`,
    /// aimed at `modem_selector`, with the caller's privilege already
    /// determined.
    pub fn new(lte: &Lte, modem_selector: String, privileged: bool) -> (r: Orchestrator)
        ensures
            r.connect == lte.connect,
            r.disconnect == lte.disconnect,
            r.privileged == privileged,
            r.modem_selector == modem_selector,
            r.apn == lte.apn,
            r.phase == Phase::Start,
    {
        Orchestrator {
            connect: lte.connect,
            disconnect: lte.disconnect,
            privileged,
            modem_selector,
            apn: lte.apn.clone(),
            phase: Phase::Start,
        }
    }

    /// Consumes one event and decides the next request, per the
    /// transition relation `step_post`.
    pub fn step(self, ev: Event) -> (r: (Orchestrator, Option<Action>))
        ensures
            step_post(self, ev, r.0, r.1),
    {
        let Orchestrator { connect, disconnect, privileged, modem_selector, apn, phase } = self;
        let (new_phase, action): (Phase, Option<Action>) = match (phase, ev) {
            (Phase::Start, Event::Start) => {
                if connect && disconnect {
                    (Phase::Failed { error: OrchError::InvalidInput }, None)
                } else if (connect || disconnect) && !privileged {
                    (Phase::Failed { error: OrchError::PermissionDenied }, None)
                } else if !connect && !disconnect {
                    (Phase::Done, None)
                } else {
                    (
                        Phase::FetchingModem,
                        Some(Action::FetchModem { selector: modem_selector.clone() }),
                    )
                }
            },
            (Phase::FetchingModem, Event::ModemFetched { modem }) => {
                if connect {
                    if modem.modem.generic.state.is_connected() {
                        (Phase::Done, None)
                    } else {
                        let path = modem.modem.dbus_path.clone();
                        (
                            Phase::Connecting,
                            Some(Action::DaemonConnect { modem: path, apn: apn.clone() }),
                        )
                    }
                } else {
                    let path = modem.modem.dbus_path.clone();
                    (
                        Phase::Disconnecting { modem },
                        Some(Action::DaemonDisconnect { modem: path }),
                    )
                }
            },
            (Phase::Connecting, Event::DaemonOk) => {
                (Phase::Refreshing, Some(Action::FetchModem { selector: modem_selector.clone() }))
            },
            (Phase::Refreshing, Event::ModemFetched { modem }) => {
                if modem.modem.generic.bearers.len() == 0 {
                    (Phase::Failed { error: OrchError::NoBearerAfterConnect }, None)
                } else {
                    let bearer = modem.modem.generic.bearers[0].clone();
                    (Phase::FetchingBearer, Some(Action::FetchBearer { bearer }))
                }
            },
            (Phase::FetchingBearer, Event::BearerFetched { bearer }) => {
                if !bearer.bearer.status.connected.is_yes() {
                    (Phase::Failed { error: OrchError::NoBearerAfterConnect }, None)
                } else if bearer.bearer.status.interface.as_str().is_empty() {
                    (Phase::Failed { error: OrchError::InterfaceNotFound }, None)
                } else if bearer.bearer.ipv4_config.address.as_str().is_empty() {
                    (Phase::Failed { error: OrchError::NoBearerAfterConnect }, None)
                } else {
                    (
                        Phase::FetchingNetDevices {
                            ifname: bearer.bearer.status.interface,
                            address: bearer.bearer.ipv4_config.address,
                        },
                        Some(Action::FetchDevices),
                    )
                }
            },
            (Phase::FetchingNetDevices { ifname, address }, Event::DevicesFetched { devices }) => {
                match devices.find_by_name(ifname.as_str()) {
                    None => (Phase::Failed { error: OrchError::InterfaceNotFound }, None),
                    Some(_d) => {
                        let mut cidr = address.clone();
                        cidr.append("/32");
                        let mut queue: Vec<PlannedAction> = Vec::new();
                        queue.push(
                            PlannedAction {
                                action: IfaceAction::Flush { ifname: ifname.clone() },
                                tolerate_failure: false,
                            },
                        );
                        queue.push(
                            PlannedAction {
                                action: IfaceAction::AddAddress { ifname: ifname.clone(), cidr },
                                tolerate_failure: false,
                            },
                        );
                        queue.push(
                            PlannedAction {
                                action: IfaceAction::SetUp { ifname: ifname.clone() },
                                tolerate_failure: false,
                            },
                        );
                        queue.push(
                            PlannedAction {
                                action: IfaceAction::AddDefaultRoute {
                                    ifname: ifname.clone(),
                                    metric: 200,
                                },
                                tolerate_failure: false,
                            },
                        );
                        let first = Action::Mutate { action: clone_iface_action(&queue[0].action) };
                        (Phase::Mutating { queue, idx: 0 }, Some(first))
                    },
                }
            },
            (Phase::Disconnecting { modem }, Event::DaemonOk) => {
                match classify_ports(&modem.modem.generic.ports) {
                    None => (
                        Phase::Failed {
                            error: OrchError::ExternalTool {
                                message: "malformed port descriptor".to_owned(),
                            },
                        },
                        None,
                    ),
                    Some(pl) => {
                        proof {
                            lemma_parsed_net_name(modem.modem.generic.ports@, pl.ports@);
                        }
                        let net_name = pl.get_net_name();
                        if net_name.as_str().is_empty() {
                            (Phase::Failed { error: OrchError::NoNetworkPort }, None)
                        } else {
                            (
                                Phase::FetchingDownDevices { net_name },
                                Some(Action::FetchDevices),
                            )
                        }
                    },
                }
            },
            (Phase::FetchingDownDevices { net_name }, Event::DevicesFetched { devices }) => {
                match devices.find_by_name(net_name.as_str()) {
                    None => (Phase::Failed { error: OrchError::InterfaceNotFound }, None),
                    Some(_d) => {
                        let mut queue: Vec<PlannedAction> = Vec::new();
                        queue.push(
                            PlannedAction {
                                action: IfaceAction::DelDefaultRoute {
                                    ifname: net_name.clone(),
                                    metric: 200,
                                },
                                tolerate_failure: true,
                            },
                        );
                        queue.push(
                            PlannedAction {
                                action: IfaceAction::Flush { ifname: net_name.clone() },
                                tolerate_failure: false,
                            },
                        );
                        queue.push(
                            PlannedAction {
                                action: IfaceAction::SetDown { ifname: net_name.clone() },
                                tolerate_failure: false,
                            },
                        );
                        let first = Action::Mutate { action: clone_iface_action(&queue[0].action) };
                        (Phase::Mutating { queue, idx: 0 }, Some(first))
                    },
                }
            },
            (Phase::Mutating { queue, idx }, Event::MutationOk) => {
                if idx < queue.len() && queue.len() - idx > 1 {
                    let next = Action::Mutate { action: clone_iface_action(&queue[idx + 1].action) };
                    (Phase::Mutating { queue, idx: idx + 1 }, Some(next))
                } else {
                    (Phase::Done, None)
                }
            },
            (Phase::Mutating { queue, idx }, Event::StepFailed { message }) => {
                if idx < queue.len() && queue[idx].tolerate_failure {
                    if idx + 1 < queue.len() {
                        let next = Action::Mutate {
                            action: clone_iface_action(&queue[idx + 1].action),
                        };
                        (Phase::Mutating { queue, idx: idx + 1 }, Some(next))
                    } else {
                        (Phase::Done, None)
                    }
                } else {
                    (Phase::Failed { error: OrchError::ExternalTool { message } }, None)
                }
            },
            (Phase::FetchingModem, Event::StepFailed { message }) => {
                (Phase::Failed { error: OrchError::ExternalTool { message } }, None)
            },
            (Phase::Connecting, Event::StepFailed { message }) => {
                (Phase::Failed { error: OrchError::ExternalTool { message } }, None)
            },
            (Phase::Refreshing, Event::StepFailed { message }) => {
                (Phase::Failed { error: OrchError::ExternalTool { message } }, None)
            },
            (Phase::FetchingBearer, Event::StepFailed { message }) => {
                (Phase::Failed { error: OrchError::ExternalTool { message } }, None)
            },
            (Phase::FetchingNetDevices { .. }, Event::StepFailed { message }) => {
                (Phase::Failed { error: OrchError::ExternalTool { message } }, None)
            },
            (Phase::Disconnecting { .. }, Event::StepFailed { message }) => {
                (Phase::Failed { error: OrchError::ExternalTool { message } }, None)
            },
            (Phase::FetchingDownDevices { .. }, Event::StepFailed { message }) => {
                (Phase::Failed { error: OrchError::ExternalTool { message } }, None)
            },
            (ph, _) => (ph, None),
        };
        (
            Orchestrator {
                connect,
                disconnect,
                privileged,
                modem_selector,
                apn,
                phase: new_phase,
            },
            action,
        )
    }
}

/// Law: connect and disconnect requested together fail with
/// `InvalidInput` at the very first step, before any external request
/// (hence before any mutation) is issued.
pub proof fn lemma_invalid_input_before_any_action(
    pre: Orchestrator,
    post: Orchestrator,
    r: Option<Action>,
)
    requires
        pre.phase == Phase::Start,
        pre.connect,
        pre.disconnect,
        step_post(pre, Event::Start, post, r),
    ensures
        post.phase == (Phase::Failed { error: OrchError::InvalidInput }),
        r is None,
{
}

/// Law: the unprivileged caller is rejected at the very first step,
/// before any external request is issued.
pub proof fn lemma_permission_before_any_action(
    pre: Orchestrator,
    post: Orchestrator,
    r: Option<Action>,
)
    requires
        pre.phase == Phase::Start,
        pre.connect != pre.disconnect,
        !pre.privileged,
        step_post(pre, Event::Start, post, r),
    ensures
        post.phase == (Phase::Failed { error: OrchError::PermissionDenied }),
        r is None,
{
}

/// Law: a re-fetched modem snapshot with an empty bearer list aborts
/// the connect flow with `NoBearerAfterConnect` and issues no
/// interface mutation.
pub proof fn lemma_no_bearer_aborts(
    pre: Orchestrator,
    modem: ModemInfo,
    post: Orchestrator,
    r: Option<Action>,
)
    requires
        pre.phase == Phase::Refreshing,
        modem.modem.generic.bearers@.len() == 0,
        step_post(pre, (Event::ModemFetched { modem }), post, r),
    ensures
        post.phase == (Phase::Failed { error: OrchError::NoBearerAfterConnect }),
        r is None,
{
}

/// Law: a finished or failed orchestrator is inert — no event changes
/// it and no further request is ever issued. Together with the two
/// rejection laws above, a rejected request provably never reaches any
/// external action.
pub proof fn lemma_terminal_is_inert(
    pre: Orchestrator,
    ev: Event,
    post: Orchestrator,
    r: Option<Action>,
)
    requires
        pre.phase is Done || pre.phase is Failed,
        step_post(pre, ev, post, r),
    ensures
        post == pre,
        r is None,
{
}

/// Two phases that agree on everything observable (mutation queues
/// compared by their contents).
pub open spec fn phase_like(a: Phase, b: Phase) -> bool {
    match (a, b) {
        (Phase::Mutating { queue: q1, idx: i1 }, Phase::Mutating { queue: q2, idx: i2 }) => q1@
            == q2@ && i1 == i2,
        _ => a == b,
    }
}

/// Law: disconnect teardown is idempotent — when the pending mutation
/// tolerates failure (the default-route deletion), a failure event
/// advances the sequence exactly as success does.
pub proof fn lemma_tolerated_failure_is_success(
    pre: Orchestrator,
    message: String,
    post_ok: Orchestrator,
    r_ok: Option<Action>,
    post_fail: Orchestrator,
    r_fail: Option<Action>,
)
    requires
        (pre.phase matches Phase::Mutating { queue, idx } && idx < queue@.len()
            && queue@[idx as int].tolerate_failure),
        step_post(pre, Event::MutationOk, post_ok, r_ok),
        step_post(pre, (Event::StepFailed { message }), post_fail, r_fail),
    ensures
        phase_like(post_ok.phase, post_fail.phase),
        r_ok == r_fail,
{
}

} // verus!
