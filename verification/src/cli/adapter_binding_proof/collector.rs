//! The collector that Continue sends its development data to.
use super::flow::{or_else, step, text_or, DEFAULT_EVENT_JSONL};
use super::types::{
    ClientBindingOperatorFlowStep, ClientBindingOperatorFlowStepView, ContinueDevdataCollectorProbe,
    ContinueDevdataCollectorProbeView, Host, HostView,
};
use crate::cli::binary_identity::{operator_bin, resolved_soma_bin_for_operator_command};
use crate::number::{decimal, decimal_text, parse_u16, parsed_integer};
use crate::outcome::{trim_nonblank, trimmed_nonblank};
use crate::text::{contains, lower, lowered, mentions, nil, same, trim, trimmed, Words};
use vstd::prelude::*;

verus! {

pub const COLLECTOR_HOST: &'static str = "127.0.0.1";

pub const COLLECTOR_PORT: u16 = 8766;

pub const COLLECTOR_PATH: &'static str = "/continue-devdata";

pub const COLLECTOR_ENDPOINT: &'static str = "127.0.0.1:8766";

pub const COLLECTOR_PROBE_BOUNDARY: &'static str =
    "continue_devdata_collector_probe_is_read_only: reports local config visibility and TCP collector probe only; records no proof row, creates no verification event, executes no client action, and promotes no cloud draft";

/// A client configuration that sends its data to the collector.
pub open spec fn names_collector(text: Seq<char>) -> bool {
    contains(text, COLLECTOR_PATH@) || contains(text, COLLECTOR_ENDPOINT@)
}

pub fn config_names_collector(text: &str) -> (r: bool)
    ensures
        r == names_collector(text@),
{
    mentions(text, COLLECTOR_PATH) || mentions(text, COLLECTOR_ENDPOINT)
}

/// Where the collector listens: as the two variables say, else where it usually does.
pub open spec fn endpoint(host: Option<Seq<char>>, port: Option<Seq<char>>) -> (Seq<char>, u16) {
    (
        or_else(trimmed_nonblank(host), COLLECTOR_HOST@),
        match port {
            Some(p) => match parsed_integer(trimmed(p), 0, u16::MAX as int) {
                Some(n) => n as u16,
                None => COLLECTOR_PORT,
            },
            None => COLLECTOR_PORT,
        },
    )
}

pub fn continue_devdata_collector_endpoint(host: Option<&str>, port: Option<&str>) -> (r: (
    String,
    u16,
))
    ensures
        (r.0@, r.1) == endpoint(host.deep_view(), port.deep_view()),
{
    let h = text_or(trim_nonblank(host), COLLECTOR_HOST);
    let p: u16 = match port {
        Some(p) => match parse_u16(trim(p)) {
            Some(n) => n,
            None => COLLECTOR_PORT,
        },
        None => COLLECTOR_PORT,
    };
    (h, p)
}

/// What came of trying to reach the collector.
#[derive(Debug)]
pub enum TcpProbe {
    /// Its address did not resolve.
    Unresolved,
    /// Its name resolved to no address.
    NoAddress,
    Connected,
    /// The system did not permit the attempt.
    Denied(String),
    Failed(String),
}

/// What is known of the collector: its status, and a message where there is one.
pub struct CollectorState {
    pub status: Seq<char>,
    pub error: Option<Seq<char>>,
}

/// What a variable says of the collector, where it says something known.
pub open spec fn declared_state(value: Option<Seq<char>>) -> Option<CollectorState> {
    match value {
        None => None,
        Some(v) => {
            let s = lowered(trimmed(v));
            if s == "listening"@ {
                Some(CollectorState { status: "listening"@, error: None })
            } else if s == "not_listening"@ || s == "not-listening"@ || s == "missing"@ || s
                == "stopped"@ {
                Some(CollectorState { status: "not_listening"@, error: None })
            } else if s == "probe_blocked"@ || s == "probe-blocked"@ {
                Some(
                    CollectorState {
                        status: "probe_blocked"@,
                        error: Some("collector TCP probe blocked by execution context"@),
                    },
                )
            } else if s == "probe_unavailable"@ || s == "probe-unavailable"@ {
                Some(
                    CollectorState {
                        status: "probe_unavailable"@,
                        error: Some("collector TCP probe unavailable in execution context"@),
                    },
                )
            } else {
                None
            }
        },
    }
}

/// What an attempt to reach the collector says of it.
pub open spec fn probed_state(probe: TcpProbe) -> CollectorState {
    match probe {
        TcpProbe::Unresolved => CollectorState {
            status: "probe_unavailable"@,
            error: Some("collector address did not resolve"@),
        },
        TcpProbe::NoAddress => CollectorState {
            status: "probe_unavailable"@,
            error: Some("no collector socket address resolved"@),
        },
        TcpProbe::Connected => CollectorState { status: "listening"@, error: None },
        TcpProbe::Denied(e) => CollectorState { status: "probe_blocked"@, error: Some(e@) },
        TcpProbe::Failed(e) => CollectorState { status: "not_listening"@, error: Some(e@) },
    }
}

pub open spec fn collector_state(declared: Option<Seq<char>>, probe: TcpProbe) -> CollectorState {
    match declared_state(declared) {
        Some(s) => s,
        None => probed_state(probe),
    }
}

/// A variable settles the state of the collector: no attempt to reach it is needed.
pub fn collector_state_is_declared(value: Option<&str>) -> (r: bool)
    ensures
        r == (declared_state(value.deep_view()) is Some),
{
    match value {
        None => false,
        Some(v) => {
            let l = lower(trim(v));
            let s = l.as_str();
            same(s, "listening") || same(s, "not_listening") || same(s, "not-listening") || same(
                s,
                "missing",
            ) || same(s, "stopped") || same(s, "probe_blocked") || same(s, "probe-blocked") || same(
                s,
                "probe_unavailable",
            ) || same(s, "probe-unavailable")
        },
    }
}

/// The state of the collector, and the message that goes with it.
pub fn continue_devdata_collector_observation(
    declared: Option<&str>,
    probe: TcpProbe,
) -> (r: (String, bool, Option<String>))
    ensures
        r.0@ == collector_state(declared.deep_view(), probe).status,
        r.1 == (collector_state(declared.deep_view(), probe).status == "listening"@),
        r.2.deep_view() == collector_state(declared.deep_view(), probe).error,
{
    proof {
        reveal_strlit("listening");
        reveal_strlit("not_listening");
        reveal_strlit("probe_blocked");
        reveal_strlit("probe_unavailable");
        assert("listening"@.len() == 9);
        assert("not_listening"@.len() == 13);
        assert("probe_blocked"@.len() == 13);
        assert("probe_unavailable"@.len() == 17);
    }
    match declared {
        None => {},
        Some(v) => {
            let l = lower(trim(v));
            let s = l.as_str();
            if same(s, "listening") {
                return ("listening".to_string(), true, None);
            } else if same(s, "not_listening") || same(s, "not-listening") || same(s, "missing")
                || same(s, "stopped") {
                return ("not_listening".to_string(), false, None);
            } else if same(s, "probe_blocked") || same(s, "probe-blocked") {
                return (
                    "probe_blocked".to_string(),
                    false,
                    Some("collector TCP probe blocked by execution context".to_string()),
                );
            } else if same(s, "probe_unavailable") || same(s, "probe-unavailable") {
                return (
                    "probe_unavailable".to_string(),
                    false,
                    Some("collector TCP probe unavailable in execution context".to_string()),
                );
            }
        },
    }
    match probe {
        TcpProbe::Unresolved => (
            "probe_unavailable".to_string(),
            false,
            Some("collector address did not resolve".to_string()),
        ),
        TcpProbe::NoAddress => (
            "probe_unavailable".to_string(),
            false,
            Some("no collector socket address resolved".to_string()),
        ),
        TcpProbe::Connected => ("listening".to_string(), true, None),
        TcpProbe::Denied(e) => ("probe_blocked".to_string(), false, Some(e)),
        TcpProbe::Failed(e) => ("not_listening".to_string(), false, Some(e)),
    }
}

/// The flags that the collector is run with.
pub open spec fn collector_flags(
    start: Seq<Seq<char>>,
    event_jsonl: Seq<char>,
    config: Seq<char>,
    host: HostView,
) -> Seq<Seq<char>> {
    start.push("--host"@).push(host.collector_host).push("--port"@).push(
        decimal(host.collector_port as nat),
    ).push("--soma-bin"@).push(operator_bin(host.identity)).push("--jsonl"@).push(event_jsonl).push(
        "--binding-config"@,
    ).push(config)
}

fn add_collector_flags(start: Words, event_jsonl: &str, config: &str, host: &Host) -> (r: Vec<
    String,
>)
    ensures
        r.deep_view() == collector_flags(start@, event_jsonl@, config@, host.deep_view()),
{
    start.w("--host").w(host.collector_host.as_str()).w("--port").w(
        decimal_text(host.collector_port as u64).as_str(),
    ).w("--soma-bin").w(resolved_soma_bin_for_operator_command(&host.identity).as_str()).w(
        "--jsonl",
    ).w(event_jsonl).w("--binding-config").w(config).done()
}

/// The command that runs the collector.
pub fn continue_devdata_collector_command(
    event_jsonl: &str,
    binding_config: &str,
    host: &Host,
) -> (r: Vec<String>)
    ensures
        r.deep_view() == collector_flags(
            nil().push("tools/soma-continue-devdata-collector.py"@),
            event_jsonl@,
            binding_config@,
            host.deep_view(),
        ),
{
    add_collector_flags(
        Words::new().w("tools/soma-continue-devdata-collector.py"),
        event_jsonl,
        binding_config,
        host,
    )
}

/// The command that manages the collector.
pub open spec fn managed(
    verb: Seq<char>,
    event_jsonl: Seq<char>,
    config: Seq<char>,
    host: HostView,
) -> Seq<Seq<char>> {
    collector_flags(
        nil().push("tools/soma-continue-devdata-start.sh"@).push(verb),
        event_jsonl,
        config,
        host,
    )
}

pub fn continue_devdata_collector_managed_start_command(
    event_jsonl: &str,
    binding_config: &str,
    host: &Host,
) -> (r: Vec<String>)
    ensures
        r.deep_view() == managed("start"@, event_jsonl@, binding_config@, host.deep_view()),
{
    add_collector_flags(
        Words::new().w("tools/soma-continue-devdata-start.sh").w("start"),
        event_jsonl,
        binding_config,
        host,
    )
}

pub fn continue_devdata_collector_managed_status_command(
    event_jsonl: &str,
    binding_config: &str,
    host: &Host,
) -> (r: Vec<String>)
    ensures
        r.deep_view() == managed("status"@, event_jsonl@, binding_config@, host.deep_view()),
{
    add_collector_flags(
        Words::new().w("tools/soma-continue-devdata-start.sh").w("status"),
        event_jsonl,
        binding_config,
        host,
    )
}

pub const UNKNOWN_CONTINUE_CONFIG: &'static str = "<continue-hook-config>";

/// What is known of the collector, for a client that uses it.
pub open spec fn probe_of(
    client: Seq<char>,
    visible: bool,
    state: CollectorState,
    installed_config: Option<Seq<char>>,
    event_jsonl: Option<Seq<char>>,
    host: HostView,
) -> Option<ContinueDevdataCollectorProbeView> {
    let events = or_else(event_jsonl, DEFAULT_EVENT_JSONL@);
    let config = or_else(installed_config, UNKNOWN_CONTINUE_CONFIG@);
    if client != "continue"@ {
        None
    } else {
        Some(
            ContinueDevdataCollectorProbeView {
                devdata_destination_visible: visible,
                collector_status: state.status,
                collector_listening: state.status == "listening"@,
                collector_host: host.collector_host,
                collector_port: host.collector_port,
                collector_error: state.error,
                status_command: if visible {
                    Some(managed("status"@, events, config, host))
                } else {
                    None
                },
                start_command: if visible && state.status == "not_listening"@ {
                    Some(managed("start"@, events, config, host))
                } else {
                    None
                },
                trust_boundary: COLLECTOR_PROBE_BOUNDARY@,
            },
        )
    }
}

pub fn continue_devdata_collector_probe(
    client: &str,
    devdata_destination_visible: bool,
    declared: Option<&str>,
    probe: TcpProbe,
    installed_config_path: Option<&str>,
    event_jsonl_path: Option<&str>,
    host: &Host,
) -> (r: Option<ContinueDevdataCollectorProbe>)
    ensures
        r.deep_view() == probe_of(
            client@,
            devdata_destination_visible,
            collector_state(declared.deep_view(), probe),
            installed_config_path.deep_view(),
            event_jsonl_path.deep_view(),
            host.deep_view(),
        ),
{
    if !same(client, "continue") {
        return None;
    }
    let (status, listening, error) = continue_devdata_collector_observation(declared, probe);
    let events = text_or(event_jsonl_path, DEFAULT_EVENT_JSONL);
    let config = text_or(installed_config_path, UNKNOWN_CONTINUE_CONFIG);
    let status_command = if devdata_destination_visible {
        Some(
            continue_devdata_collector_managed_status_command(
                events.as_str(), config.as_str(), host),
        )
    } else {
        None
    };
    let start_command = if devdata_destination_visible && same(status.as_str(), "not_listening") {
        Some(
            continue_devdata_collector_managed_start_command(
                events.as_str(), config.as_str(), host),
        )
    } else {
        None
    };
    Some(
        ContinueDevdataCollectorProbe {
            devdata_destination_visible,
            collector_status: status,
            collector_listening: listening,
            collector_host: host.collector_host.clone(),
            collector_port: host.collector_port,
            collector_error: error,
            status_command,
            start_command,
            trust_boundary: COLLECTOR_PROBE_BOUNDARY,
        },
    )
}

pub const CHECK_COLLECTOR_INTENT: &'static str =
    "SOMA could not prove whether the local Continue dev-data collector is listening from this execution context; run the managed status command from the operator shell, avoid starting duplicate collectors, then trigger a real Continue extension chat/edit/review action only after the collector is proven listening.";

pub const CHECK_COLLECTOR_BOUNDARY: &'static str =
    "continue_devdata_collector_status_step_is_operator_guidance_only: checking collector status records no client-binding proof row, creates no verification event, promotes no cloud draft, and cannot satisfy observed_app_hook without a later real Continue event";

pub const START_COLLECTOR_INTENT: &'static str =
    "Start the local Continue dev-data collector before triggering a real Continue extension chat/edit/review action (not Cursor Agent/Composer); the collector only appends private lifecycle events and records no proof by itself.";

pub const START_COLLECTOR_BOUNDARY: &'static str =
    "continue_devdata_collector_step_is_operator_guidance_only: starting the collector records no client-binding proof row, creates no verification event, promotes no cloud draft, and cannot satisfy observed_app_hook without a later real Continue event";

/// The collector could not be asked.
pub open spec fn is_unproven(status: Seq<char>) -> bool {
    status == "probe_blocked"@ || status == "probe_unavailable"@
}

/// The step that the collector calls for: to check on it where it could not be asked, to
/// start it where it does not listen.
pub open spec fn collector_step(
    client: Seq<char>,
    installed_config: Option<Seq<char>>,
    event_jsonl: Option<Seq<char>>,
    probe: Option<ContinueDevdataCollectorProbeView>,
    host: HostView,
) -> Option<ClientBindingOperatorFlowStepView> {
    let events = or_else(event_jsonl, DEFAULT_EVENT_JSONL@);
    let config = or_else(installed_config, UNKNOWN_CONTINUE_CONFIG@);
    match probe {
        Some(p) => if client != "continue"@ || !p.devdata_destination_visible {
            None
        } else if is_unproven(p.collector_status) {
            Some(
                ClientBindingOperatorFlowStepView {
                    id: "check_continue_devdata_collector_status"@,
                    title: "Check Continue dev-data collector status"@,
                    intent: CHECK_COLLECTOR_INTENT@,
                    command: Some(managed("status"@, events, config, host)),
                    mcp_call: None,
                    requires_operator_action: true,
                    records_proof: false,
                    trust_boundary: CHECK_COLLECTOR_BOUNDARY@,
                },
            )
        } else if !p.collector_listening {
            Some(
                ClientBindingOperatorFlowStepView {
                    id: "start_continue_devdata_collector_before_real_hook"@,
                    title: "Start Continue dev-data collector"@,
                    intent: START_COLLECTOR_INTENT@,
                    command: Some(managed("start"@, events, config, host)),
                    mcp_call: None,
                    requires_operator_action: true,
                    records_proof: false,
                    trust_boundary: START_COLLECTOR_BOUNDARY@,
                },
            )
        } else {
            None
        },
        None => None,
    }
}

/// Where the step with this id stands: at the end where there is none.
pub open spec fn position(flow: Seq<ClientBindingOperatorFlowStepView>, id: Seq<char>) -> nat
    decreases flow.len(),
{
    if flow.len() == 0 || flow[0].id == id {
        0
    } else {
        1 + position(flow.skip(1), id)
    }
}

/// The flow with the collector's step before the step that runs the hook.
pub open spec fn with_collector_step(
    flow: Seq<ClientBindingOperatorFlowStepView>,
    s: Option<ClientBindingOperatorFlowStepView>,
) -> Seq<ClientBindingOperatorFlowStepView> {
    match s {
        Some(s) => flow.insert(position(flow, "trigger_private_client_hook"@) as int, s),
        None => flow,
    }
}

fn make_collector_step(
    client: &str,
    installed_config_path: Option<&str>,
    event_jsonl_path: Option<&str>,
    probe: &Option<ContinueDevdataCollectorProbe>,
    host: &Host,
) -> (r: Option<ClientBindingOperatorFlowStep>)
    ensures
        r.deep_view() == collector_step(
            client@,
            installed_config_path.deep_view(),
            event_jsonl_path.deep_view(),
            probe.deep_view(),
            host.deep_view(),
        ),
{
    let p = match probe {
        Some(p) => p,
        None => return None,
    };
    if !same(client, "continue") || !p.devdata_destination_visible {
        return None;
    }
    let events = text_or(event_jsonl_path, DEFAULT_EVENT_JSONL);
    let config = text_or(installed_config_path, UNKNOWN_CONTINUE_CONFIG);
    if same(p.collector_status.as_str(), "probe_blocked") || same(
        p.collector_status.as_str(),
        "probe_unavailable",
    ) {
        Some(
            step(
                "check_continue_devdata_collector_status",
                "Check Continue dev-data collector status",
                CHECK_COLLECTOR_INTENT,
                Some(
                    continue_devdata_collector_managed_status_command(
                        events.as_str(),
                        config.as_str(),
                        host,
                    ),
                ),
                None,
                true,
                false,
                CHECK_COLLECTOR_BOUNDARY,
            ),
        )
    } else if !p.collector_listening {
        Some(
            step(
                "start_continue_devdata_collector_before_real_hook",
                "Start Continue dev-data collector",
                START_COLLECTOR_INTENT,
                Some(
                    continue_devdata_collector_managed_start_command(
                        events.as_str(),
                        config.as_str(),
                        host,
                    ),
                ),
                None,
                true,
                false,
                START_COLLECTOR_BOUNDARY,
            ),
        )
    } else {
        None
    }
}

/// Where the step with this id stands: at the end where there is none.
pub fn step_position(flow: &Vec<ClientBindingOperatorFlowStep>, id: &str) -> (r: usize)
    ensures
        r == position(flow.deep_view(), id@),
        r <= flow.len(),
{
    let ghost all = flow.deep_view();
    let mut i: usize = 0;
    assert(all.skip(0) =~= all);
    while i < flow.len()
        invariant
            i <= flow.len(),
            all == flow.deep_view(),
            position(all, id@) == i + position(all.skip(i as int), id@),
        decreases flow.len() - i,
    {
        assert(all.skip(i as int)[0] == flow[i as int].deep_view());
        if same(flow[i].id.as_str(), id) {
            return i;
        }
        assert(all.skip(i as int).skip(1) =~= all.skip(i + 1));
        i = i + 1;
    }
    i
}

/// Puts the collector's step, where it calls for one, before the step that runs the
/// hook.
pub fn insert_continue_collector_step(
    operator_flow: &mut Vec<ClientBindingOperatorFlowStep>,
    client: &str,
    installed_config_path: Option<&str>,
    event_jsonl_path: Option<&str>,
    probe: &Option<ContinueDevdataCollectorProbe>,
    host: &Host,
)
    ensures
        final(operator_flow).deep_view() == with_collector_step(
            old(operator_flow).deep_view(),
            collector_step(
                client@,
                installed_config_path.deep_view(),
                event_jsonl_path.deep_view(),
                probe.deep_view(),
                host.deep_view(),
            ),
        ),
{
    let ghost was = operator_flow.deep_view();
    match make_collector_step(client, installed_config_path, event_jsonl_path, probe, host) {
        Some(s) => {
            let at = step_position(operator_flow, "trigger_private_client_hook");
            operator_flow.insert(at, s);
            assert(operator_flow.deep_view() =~= was.insert(at as int, s.deep_view()));
        },
        None => {},
    }
}

}
