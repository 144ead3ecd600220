//! Sessions with the daemon, activations, and chain rebuilds.

use nvnmos_gst::activation::{
    deferred_sender_applies, install_advance, install_start, Activation, ElementKind,
    InstallAction, InstallEvent, InstallStage, StageAction, StageEvent,
};
use nvnmos_gst::channel_mapping_session::{
    ChannelMappingActivationOutcome, ChannelMappingActivationRequest, ChannelMappingSession,
    MappingOpenAction, MappingOpenEvent, MappingOpening, MappingTask, MappingTaskAction,
    MappingTaskEvent, OpenedChannelMappingSession,
};
use nvnmos_gst::daemon::{
    parse_unix_uri, ActivationEvent, ActivationOutcome, ActivationTask, DaemonError, OpenAction,
    OpenEvent, OpenParameters, OpenedSession, Opening, RegisteredResource, Session, TaskAction,
    TaskEvent,
};
use nvnmos_gst::nmosaudiochannelmap::settings::Settings;
use nvnmos_gst::rebuild::{
    is_anchor, link_pad_name, outer_pad_name, parent_target_state, Direction, RebuildEvent,
    RebuildStep, State, StateChange,
};
use nvnmos_gst::session::{
    ActivationAck, ActivationPlan, FakeKind, InnerConfig, NodeSettings, Side, TransportConfig,
};
use nvnmos_gst::state_change::{
    change_steps, failure_report, undo_steps, ChangeStep, NmosElement, Transition,
};
use nvnmos_gst::types::{FlowFormat, Transport};

fn parameters(transport_file: Option<&str>) -> OpenParameters {
    OpenParameters {
        node: NodeSettings {
            node_seed: "seed".into(),
            http_port: 8080,
            host_name: "studio-a".into(),
            domain: "local".into(),
            registration_url: "http://reg:3210/x-nmos/registration/v1.3".into(),
            system_url: String::new(),
        },
        side: Side::Sender,
        name: "cam".into(),
        transport: Transport::Udp,
        transport_file: transport_file.map(|t| t.to_owned()),
    }
}

fn opened() -> OpenedSession {
    OpenedSession { session_handle: "s".into(), node_id: "n".into(), created_node: true }
}

// ---- opening ----------------------------------------------------------------

#[test]
fn daemon_uris_are_unix_sockets() {
    assert_eq!(parse_unix_uri("unix:/tmp/x.sock").unwrap(), "/tmp/x.sock");
    assert!(matches!(parse_unix_uri("tcp:1"), Err(DaemonError::UnsupportedScheme(u)) if u == "tcp"));
}

#[test]
fn opening_with_a_file_registers_the_resource() {
    let p = parameters(Some("sdp"));
    let (next, action) = Opening::Connecting.advance(OpenEvent::Connected, &p);
    match action {
        OpenAction::OpenSession(config) => {
            assert_eq!(config.seed, "seed");
            assert_eq!(config.http_port, 8080);
            assert_eq!(config.host_name, "studio-a");
            let services = config.network_services.expect("the node has network services");
            assert_eq!(services.domain, "local");
            assert_eq!(services.registration_address, "reg");
            assert_eq!(services.registration_port, 3210);
            assert_eq!(services.registration_version, "v1.3");
            assert_eq!(services.system_address, "");
        }
        other => panic!("{other:?}"),
    }
    let (next, action) = next.unwrap().advance(OpenEvent::Opened(opened()), &p);
    match action {
        OpenAction::StartAndRegister(request) => {
            assert_eq!(request.name, "cam");
            assert_eq!(request.session_handle, "s");
            assert_eq!(request.transport_file, "sdp");
        }
        other => panic!("{other:?}"),
    }
    let resource = RegisteredResource { handle: "h".into(), id: "id".into() };
    let (next, action) = next.unwrap().advance(OpenEvent::Registered(resource), &p);
    assert!(next.is_none());
    match action {
        OpenAction::Finish(session) => assert_eq!(session.resource_id(), Some(("h", "id"))),
        other => panic!("{other:?}"),
    }
}

#[test]
fn opening_without_a_file_defers_the_resource() {
    let p = parameters(None);
    let (next, action) = Opening::Opening.advance(OpenEvent::Opened(opened()), &p);
    assert!(next.is_none());
    assert!(matches!(action, OpenAction::StartAndFinish(s) if s.resource.is_none()));
}

#[test]
fn failed_registration_closes_the_session() {
    let p = parameters(Some("sdp"));
    let (next, action) = Opening::Registering(opened())
        .advance(OpenEvent::Failed(DaemonError::Rpc("refused".into())), &p);
    assert!(matches!(action, OpenAction::StopAndClose(h) if h == "s"));
    let (next, action) =
        next.unwrap().advance(OpenEvent::Failed(DaemonError::Transport("gone".into())), &p);
    assert!(next.is_none());
    assert!(matches!(action, OpenAction::GiveUp(DaemonError::Rpc(e)) if e == "refused"));
}

#[test]
fn a_session_holds_one_resource() {
    let mut session =
        Session { session_handle: "s".into(), node_id: "n".into(), created_node: false, resource: None };
    assert!(matches!(session.sync_resource_state(None), Err(DaemonError::NoResource)));
    let request = session.add_resource(Side::Receiver, "mic", Transport::Mxl, "file").unwrap();
    assert_eq!(request.name, "mic");
    assert_eq!(request.session_handle, "s");
    let refused = session.resource_added(Err(DaemonError::Rpc("no".into())));
    assert!(refused.is_err());
    assert!(session.resource_id().is_none());
    session
        .resource_added(Ok(RegisteredResource { handle: "h".into(), id: "id".into() }))
        .unwrap();
    assert!(matches!(
        session.add_resource(Side::Receiver, "mic", Transport::Mxl, "file"),
        Err(DaemonError::AlreadyRegistered)
    ));
    let sync = session.sync_resource_state(Some("t")).unwrap();
    assert_eq!(sync.resource_handle, "h");
    assert_eq!(sync.transport_file.as_deref(), Some("t"));
}

// ---- activation task --------------------------------------------------------

fn message(side: Result<Side, i32>) -> TaskEvent {
    TaskEvent::Message(ActivationEvent {
        activation_handle: "a1".into(),
        resource_handle: "r".into(),
        side,
        transport_file: None,
    })
}

#[test]
fn every_activation_is_answered_under_its_handle() {
    for (event, success, reason) in [
        (TaskEvent::Outcome(ActivationOutcome::Applied), true, ""),
        (TaskEvent::Outcome(ActivationOutcome::Failed { reason: "bad".into() }), false, "bad"),
        (
            TaskEvent::NoOutcome,
            false,
            "element dropped its activation oneshot before completing the apply",
        ),
    ] {
        let mut task = ActivationTask::Subscribing;
        assert!(matches!(task.step(TaskEvent::Subscribed, "s"), TaskAction::Read));
        match task.step(message(Ok(Side::Sender)), "s") {
            TaskAction::Dispatch(request) => assert_eq!(request.activation_handle, "a1"),
            other => panic!("{other:?}"),
        }
        match task.step(event, "s") {
            TaskAction::Ack(ack) => {
                assert_eq!(ack.session_handle, "s");
                assert_eq!(ack.activation_handle, "a1");
                assert_eq!(ack.success, success);
                assert_eq!(ack.failure_reason, reason);
            }
            other => panic!("{other:?}"),
        }
        assert!(matches!(task.step(TaskEvent::Acked, "s"), TaskAction::Read));
        assert!(matches!(task.step(TaskEvent::StreamEnded, "s"), TaskAction::Stop));
    }
}

#[test]
fn unknown_side_is_answered_with_a_failure() {
    let mut task = ActivationTask::Reading;
    match task.step(message(Err(-7)), "s") {
        TaskAction::Ack(ack) => {
            assert!(!ack.success);
            assert_eq!(
                ack.failure_reason,
                "daemon delivered ActivationEvent with unrecognised `side` enum value -7"
            );
        }
        other => panic!("{other:?}"),
    }
}

#[test]
fn refused_subscription_stops_the_task() {
    let mut task = ActivationTask::Subscribing;
    assert!(matches!(task.step(TaskEvent::SubscribeFailed, "s"), TaskAction::Stop));
    assert!(matches!(task, ActivationTask::Stopped));
}

// ---- channel mapping sessions -----------------------------------------------

fn mapping_opened(http_port: u32) -> OpenedChannelMappingSession {
    OpenedChannelMappingSession {
        session_handle: "s".into(),
        node_id: "n".into(),
        created_node: true,
        http_port,
    }
}

#[test]
fn mapping_session_opens_and_subscribes() {
    let settings = Settings { node_seed: "seed".into(), ..Settings::default() }.to_session();
    let (next, action) = MappingOpening::Connecting.advance(MappingOpenEvent::Connected, &settings);
    assert!(matches!(action, MappingOpenAction::OpenSession(c) if c.seed == "seed"));
    let (next, action) =
        next.unwrap().advance(MappingOpenEvent::Opened(mapping_opened(80)), &settings);
    assert!(matches!(action, MappingOpenAction::Subscribe(h) if h == "s"));
    let (next, action) = next.unwrap().advance(MappingOpenEvent::Subscribed, &settings);
    assert!(next.is_none());
    assert!(matches!(action, MappingOpenAction::Finish(s) if s.http_port == 80));

    let (next, action) = MappingOpening::Subscribing(mapping_opened(80))
        .advance(MappingOpenEvent::Failed(DaemonError::Rpc("no".into())), &settings);
    assert!(matches!(action, MappingOpenAction::CloseSession(h) if h == "s"));
    let (_, action) = next.unwrap().advance(MappingOpenEvent::Closed, &settings);
    assert!(matches!(action, MappingOpenAction::GiveUp(DaemonError::Rpc(e)) if e == "no"));
}

#[test]
fn mapping_session_holds_one_mapping() {
    let mut session = ChannelMappingSession::opened(mapping_opened(70_000));
    assert_eq!(session.http_port, 0);
    assert!(session.add_channel_mapping().is_ok());
    assert!(session.remove_channel_mapping().is_none());
    assert!(matches!(
        session.sync_channel_mapping_state("o", vec![]),
        Err(DaemonError::NoResource)
    ));
    session.channel_mapping_added("m".into());
    assert_eq!(session.channelmapping_handle(), Some("m"));
    assert!(matches!(session.add_channel_mapping(), Err(DaemonError::AlreadyAdded)));
    let sync = session.sync_channel_mapping_state("o", vec![]).unwrap();
    assert_eq!(sync.channelmapping_handle, "m");
    let removed = session.remove_channel_mapping().unwrap();
    assert_eq!(removed.channelmapping_handle, "m");
    assert_eq!(session.channelmapping_handle(), None);
    let (removal, handle) = session.close();
    assert!(removal.is_none());
    assert_eq!(handle, "s");
}

#[test]
fn mapping_activations_are_answered() {
    let mut task = MappingTask::Reading;
    let request = ChannelMappingActivationRequest {
        channelmapping_handle: "m".into(),
        activation_handle: "a".into(),
        output_id: "o".into(),
        active_map: vec![],
    };
    assert!(matches!(
        task.step(MappingTaskEvent::Message(request), "s"),
        MappingTaskAction::Dispatch(r) if r.output_id == "o"
    ));
    let outcome = ChannelMappingActivationOutcome::Failed { reason: "bad".into() };
    match task.step(MappingTaskEvent::Outcome(outcome), "s") {
        MappingTaskAction::Ack(ack) => {
            assert_eq!(ack.activation_handle, "a");
            assert!(!ack.success);
            assert_eq!(ack.failure_reason, "bad");
        }
        other => panic!("{other:?}"),
    }
    assert!(matches!(task.step(MappingTaskEvent::Acked, "s"), MappingTaskAction::Read));
    assert!(matches!(task.step(MappingTaskEvent::StreamEnded, "s"), MappingTaskAction::Stop));
}

// ---- activations ------------------------------------------------------------

fn real_plan(ack: ActivationAck) -> ActivationPlan {
    ActivationPlan {
        inner: InnerConfig::Real(TransportConfig::Mxl {
            domain_path: "/d".into(),
            flow_id: "id".into(),
            format: FlowFormat::Video,
            transport_file: None,
        }),
        ack,
    }
}

fn fake_plan() -> ActivationPlan {
    ActivationPlan {
        inner: InnerConfig::Fake { kind: FakeKind::NotActive, detail: "off".into() },
        ack: ActivationAck::Success,
    }
}

/// Every action of an activation in which nothing fails.
fn run(kind: ElementKind, plan: &ActivationPlan, from_real: bool, playing: bool) -> Vec<StageAction> {
    let (mut activation, action) = Activation::begin(kind, plan, from_real, playing);
    let mut actions = vec![action];
    loop {
        let (next, action) = activation.advance(StageEvent::Done, &plan.ack);
        actions.push(action);
        match next {
            Some(n) => activation = n,
            None => return actions,
        }
    }
}

#[test]
fn real_to_real_goes_through_a_fake_chain() {
    let plan = real_plan(ActivationAck::Success);
    let actions = run(ElementKind::Src, &plan, true, true);
    assert_eq!(actions.len(), 5);
    assert!(matches!(actions[0], StageAction::Build));
    assert!(matches!(actions[1], StageAction::Swap { drain_downstream: true }));
    assert!(matches!(actions[2], StageAction::Build));
    assert!(matches!(actions[3], StageAction::Swap { drain_downstream: true }));
    assert!(matches!(actions[4], StageAction::Finish(ActivationOutcome::Applied)));
    assert_eq!(run(ElementKind::Sink, &plan, false, true).len(), 3);
    assert_eq!(run(ElementKind::Src, &fake_plan(), true, true).len(), 3);
}

#[test]
fn sinks_and_idle_sources_do_not_drain() {
    let plan = real_plan(ActivationAck::Success);
    for actions in [run(ElementKind::Sink, &plan, true, true), run(ElementKind::Src, &plan, true, false)]
    {
        assert!(actions.iter().all(|a| !matches!(a, StageAction::Swap { drain_downstream: true })));
    }
}

#[test]
fn a_refused_plan_is_answered_so_after_its_swap() {
    let plan = real_plan(ActivationAck::Failure { reason: "refused".into() });
    let actions = run(ElementKind::Sink, &plan, false, true);
    match actions.last().unwrap() {
        StageAction::Finish(ActivationOutcome::Failed { reason }) => assert_eq!(reason, "refused"),
        other => panic!("{other:?}"),
    }
}

#[test]
fn failed_swap_restores_a_fake_chain() {
    let plan = real_plan(ActivationAck::Success);
    let (a, _) = Activation::begin(ElementKind::Sink, &plan, false, true);
    let (a, _) = a.advance(StageEvent::Done, &plan.ack);
    let (a, action) = a.unwrap().advance(StageEvent::Failed("pad".into()), &plan.ack);
    assert!(matches!(action, StageAction::Build));
    let (a, action) = a.unwrap().advance(StageEvent::Done, &plan.ack);
    assert!(matches!(action, StageAction::Swap { drain_downstream: false }));
    let (a, action) = a.unwrap().advance(StageEvent::Done, &plan.ack);
    assert!(a.is_none());
    match action {
        StageAction::Finish(ActivationOutcome::Failed { reason }) => {
            assert_eq!(reason, "nmossink: swapping inner element: pad");
        }
        other => panic!("{other:?}"),
    }
}

#[test]
fn failed_builds_say_what_was_built() {
    let plan = real_plan(ActivationAck::Success);
    let reason = |kind, from_real, event| {
        let (a, _) = Activation::begin(kind, &plan, from_real, false);
        match a.advance(event, &plan.ack).1 {
            StageAction::Finish(ActivationOutcome::Failed { reason }) => reason,
            other => panic!("{other:?}"),
        }
    };
    assert_eq!(
        reason(ElementKind::Src, true, StageEvent::Failed("x".into())),
        "nmossrc: building intermediate fake chain: x"
    );
    assert_eq!(
        reason(ElementKind::Src, false, StageEvent::CapsFailed("x".into())),
        "nmossrc: deriving caps from activation transport file: x"
    );
    assert_eq!(
        reason(ElementKind::Sink, false, StageEvent::Failed("x".into())),
        "nmossink: building inner transport chain: x"
    );
}

#[test]
fn installing_a_real_chain_syncs_after_the_swap() {
    let plan = real_plan(ActivationAck::Success);
    assert_eq!(install_start(&plan.inner), InstallStage::BuildReal);
    assert!(matches!(
        install_advance(InstallStage::BuildReal, InstallEvent::Done),
        InstallAction::Go(InstallStage::SwapReal)
    ));
    assert!(matches!(
        install_advance(InstallStage::SwapReal, InstallEvent::Done),
        InstallAction::Go(InstallStage::SyncActive)
    ));
    assert!(matches!(
        install_advance(InstallStage::SyncActive, InstallEvent::Failed("x".into())),
        InstallAction::Finish(Ok(()))
    ));
    assert!(matches!(
        install_advance(InstallStage::SwapReal, InstallEvent::Failed("x".into())),
        InstallAction::Finish(Err(e)) if e == "x"
    ));
    assert_eq!(install_start(&fake_plan().inner), InstallStage::ResolveFakeCaps);
    assert!(matches!(
        install_advance(InstallStage::ResolveFakeCaps, InstallEvent::CapsUnknown),
        InstallAction::Finish(Ok(()))
    ));
}

#[test]
fn a_sender_without_any_description_waits_for_caps() {
    assert!(deferred_sender_applies(true, false, "", "", false));
    assert!(!deferred_sender_applies(false, false, "", "", false));
    assert!(!deferred_sender_applies(true, true, "", "", false));
    assert!(!deferred_sender_applies(true, false, "x", "", false));
    assert!(!deferred_sender_applies(true, false, "", "x", false));
    assert!(!deferred_sender_applies(true, false, "", "", true));
}

// ---- rebuilding -------------------------------------------------------------

/// The steps of a rebuild in which `failing` fails.
fn rebuild(failing: Option<RebuildStep>) -> Vec<RebuildStep> {
    let mut step = RebuildStep::Locate;
    let mut steps = vec![step];
    while !matches!(step, RebuildStep::Finished { .. }) {
        let event = if Some(step) == failing { RebuildEvent::Failed } else { RebuildEvent::Done };
        step = step.advance(event);
        steps.push(step);
    }
    steps
}

#[test]
fn a_blocked_pad_is_always_unblocked() {
    let all = rebuild(None);
    assert_eq!(all.last(), Some(&RebuildStep::Finished { failed: false }));
    for step in &all[2..all.len() - 2] {
        let steps = rebuild(Some(*step));
        assert_eq!(steps.last(), Some(&RebuildStep::Finished { failed: true }), "{step:?}");
        assert!(steps.contains(&RebuildStep::Unblock { failed: true }), "{step:?}");
    }
    let early = rebuild(Some(RebuildStep::Locate));
    assert_eq!(early.last(), Some(&RebuildStep::Finished { failed: true }));
    assert!(!early.contains(&RebuildStep::Unblock { failed: true }));
}

#[test]
fn nothing_is_removed_where_nothing_was_linked() {
    assert_eq!(RebuildStep::Unlink.advance(RebuildEvent::NothingLinked), RebuildStep::Add);
}

#[test]
fn a_chain_must_settle() {
    let after = |change| RebuildStep::Await.advance(RebuildEvent::Settled(change));
    assert_eq!(after(StateChange::Success), RebuildStep::Unblock { failed: false });
    assert_eq!(after(StateChange::NoPreroll), RebuildStep::Unblock { failed: false });
    assert_eq!(after(StateChange::Async), RebuildStep::Unblock { failed: true });
    assert_eq!(after(StateChange::Failed), RebuildStep::Unblock { failed: true });
    assert_eq!(parent_target_state(State::Ready, State::VoidPending), State::Ready);
    assert_eq!(parent_target_state(State::Ready, State::Playing), State::Playing);
}

#[test]
fn anchors_have_a_pad_on_each_side() {
    assert_ne!(link_pad_name(Direction::Sink), outer_pad_name(Direction::Sink));
    assert_eq!(link_pad_name(Direction::Sink), outer_pad_name(Direction::Src));
    assert!(!is_anchor(None));
    assert!(!is_anchor(Some("nmossink-udp")));
}

// ---- state changes ----------------------------------------------------------

#[test]
fn every_transition_changes_the_parent_once() {
    for element in [NmosElement::Sink, NmosElement::Src, NmosElement::ChannelMap] {
        for transition in [
            Transition::NullToReady,
            Transition::ReadyToPaused,
            Transition::ReadyToNull,
            Transition::Other,
        ] {
            for fixated in [false, true] {
                let steps = change_steps(element, transition, fixated);
                let parents = steps.iter().filter(|s| **s == ChangeStep::ChangeParent).count();
                assert_eq!(parents, 1, "{element:?} {transition:?}");
            }
        }
    }
}

#[test]
fn steps_of_each_element() {
    assert_eq!(
        change_steps(NmosElement::Sink, Transition::ReadyToPaused, false),
        vec![ChangeStep::PinFakeChain, ChangeStep::ChangeParent, ChangeStep::AddDeferredSender]
    );
    assert_eq!(
        change_steps(NmosElement::Src, Transition::NullToReady, false),
        vec![ChangeStep::OpenSession, ChangeStep::InstallChain, ChangeStep::ChangeParent]
    );
    assert_eq!(
        change_steps(NmosElement::ChannelMap, Transition::NullToReady, false),
        vec![ChangeStep::OpenSession, ChangeStep::ChangeParent, ChangeStep::FreezePads]
    );
    assert_eq!(
        change_steps(NmosElement::ChannelMap, Transition::ReadyToPaused, false),
        vec![ChangeStep::ChangeParent, ChangeStep::Fixate, ChangeStep::SyncGraph]
    );
    assert_eq!(
        change_steps(NmosElement::ChannelMap, Transition::ReadyToNull, true),
        vec![
            ChangeStep::TearDownGraph,
            ChangeStep::CloseSession,
            ChangeStep::ThawPads,
            ChangeStep::ChangeParent,
        ]
    );
}

#[test]
fn a_chain_that_cannot_be_installed_closes_the_session() {
    assert_eq!(
        undo_steps(ChangeStep::InstallChain),
        vec![ChangeStep::CloseSession, ChangeStep::RestoreFakeChain]
    );
    assert!(undo_steps(ChangeStep::OpenSession).is_empty());
}

#[test]
fn failed_steps_are_reported() {
    let report = |element, step| failure_report(element, step, "why");
    assert_eq!(
        report(NmosElement::Sink, ChangeStep::OpenSession).unwrap(),
        "nmossink NULL\u{2192}READY failed: why"
    );
    assert_eq!(
        report(NmosElement::Sink, ChangeStep::AddDeferredSender).unwrap(),
        "nmossink READY\u{2192}PAUSED deferred AddSender failed: why"
    );
    assert_eq!(
        report(NmosElement::ChannelMap, ChangeStep::Fixate).unwrap(),
        "channel mapping fixation failed: why"
    );
    assert!(report(NmosElement::Src, ChangeStep::ChangeParent).is_none());
}
