//! A channel-mapping session with the NMOS daemon: what is asked of it, in which order,
//! and how its activations are answered.

use crate::channel_mapping::active_map::ActiveMapEntry;
use crate::daemon::DaemonError;
use crate::network_services::{node_config_of, NodeConfig};
use crate::session::NodeSettings;
use vstd::prelude::*;

verus! {

/// Per-output activation delivered on the IS-08 subscription.
#[derive(Debug)]
pub struct ChannelMappingActivationRequest {
    pub channelmapping_handle: String,
    pub activation_handle: String,
    pub output_id: String,
    /// Dense active map: index `i` is output channel `i`; empty `input_id` = unrouted.
    pub active_map: Vec<ActiveMapEntry>,
}

/// What came of a channel-mapping activation.
#[derive(Debug)]
pub enum ChannelMappingActivationOutcome {
    Applied,
    Failed { reason: String },
}

/// The answer to a channel-mapping activation.
#[derive(Debug)]
pub struct AckChannelMappingActivationRequest {
    pub session_handle: String,
    pub activation_handle: String,
    pub success: bool,
    pub failure_reason: String,
}

/// Settings of a channel-mapping session.
#[derive(Debug)]
pub struct ChannelMappingSettings {
    pub daemon_uri: String,
    pub node: NodeSettings,
    pub channelmapping_name: String,
}

/// Take a channel mapping out of the daemon.
#[derive(Debug)]
pub struct RemoveChannelMappingRequest {
    pub session_handle: String,
    pub channelmapping_handle: String,
}

/// Bring the daemon's view of one output in line.
#[derive(Debug)]
pub struct SyncChannelMappingStateRequest {
    pub session_handle: String,
    pub channelmapping_handle: String,
    pub output_id: String,
    pub active_map: Vec<ActiveMapEntry>,
}

/// What the daemon answered when a session was opened.
#[derive(Debug)]
pub struct OpenedChannelMappingSession {
    pub session_handle: String,
    pub node_id: String,
    pub created_node: bool,
    pub http_port: u32,
}

/// A live channel-mapping session.
#[derive(Debug)]
pub struct ChannelMappingSession {
    pub session_handle: String,
    pub node_id: String,
    pub created_node: bool,
    pub http_port: u16,
    /// The handle of the mapping that was added.
    pub channelmapping: Option<String>,
}

impl ChannelMappingSession {
    /// The session with the mapping under `handle`.
    pub open spec fn with_mapping(self, handle: String) -> ChannelMappingSession {
        ChannelMappingSession { channelmapping: Some(handle), ..self }
    }

    /// The session without its mapping.
    pub open spec fn without_mapping(self) -> ChannelMappingSession {
        ChannelMappingSession { channelmapping: None, ..self }
    }

    /// What takes the session's mapping out again.
    pub open spec fn removal(self) -> Option<RemoveChannelMappingRequest> {
        match self.channelmapping {
            None => None,
            Some(handle) => Some(
                RemoveChannelMappingRequest {
                    session_handle: self.session_handle,
                    channelmapping_handle: handle,
                },
            ),
        }
    }

    /// The answer to a request to bring the daemon's view of one output in line.
    pub open spec fn syncs(
        self,
        output_id: Seq<char>,
        active_map: Vec<ActiveMapEntry>,
        r: Result<SyncChannelMappingStateRequest, DaemonError>,
    ) -> bool {
        match r {
            Ok(req) => self.channelmapping == Some(req.channelmapping_handle)
                && req.session_handle == self.session_handle && req.output_id@ == output_id
                && req.active_map == active_map,
            Err(e) => self.channelmapping is None && e is NoResource,
        }
    }

    /// The session as it was opened. A port that does not fit stands as 0.
    pub fn opened(reply: OpenedChannelMappingSession) -> (r: Self)
        ensures
            r == (ChannelMappingSession {
                session_handle: reply.session_handle,
                node_id: reply.node_id,
                created_node: reply.created_node,
                http_port: if reply.http_port <= u16::MAX {
                    reply.http_port as u16
                } else {
                    0
                },
                channelmapping: None,
            }),
    {
        ChannelMappingSession {
            session_handle: reply.session_handle,
            node_id: reply.node_id,
            created_node: reply.created_node,
            http_port: if reply.http_port <= u16::MAX as u32 {
                reply.http_port as u16
            } else {
                0
            },
            channelmapping: None,
        }
    }

    pub fn channelmapping_handle(&self) -> (r: Option<&str>)
        ensures
            r.deep_view() == self.channelmapping.deep_view(),
    {
        match &self.channelmapping {
            Some(handle) => Some(handle.as_str()),
            None => None,
        }
    }

    /// Whether a mapping may be added: only one to a session.
    pub fn add_channel_mapping(&self) -> (r: Result<(), DaemonError>)
        ensures
            match r {
                Ok(()) => self.channelmapping is None,
                Err(e) => self.channelmapping is Some && e is AlreadyAdded,
            },
    {
        if self.channelmapping.is_some() {
            Err(DaemonError::AlreadyAdded)
        } else {
            Ok(())
        }
    }

    /// Take note of the handle of the mapping that was added.
    pub fn channel_mapping_added(&mut self, handle: String)
        requires
            old(self).channelmapping is None,
        ensures
            *final(self) == (ChannelMappingSession {
                channelmapping: Some(handle),
                ..*old(self)
            }),
            *final(self) == old(self).with_mapping(handle),
    {
        self.channelmapping = Some(handle);
    }

    /// The request that takes the mapping out again, where there is one. The session
    /// counts it as gone whatever the daemon answers.
    pub fn remove_channel_mapping(&mut self) -> (r: Option<RemoveChannelMappingRequest>)
        ensures
            *final(self) == (ChannelMappingSession { channelmapping: None, ..*old(self) }),
            *final(self) == old(self).without_mapping(),
            r == old(self).removal(),
            match old(self).channelmapping {
                None => r is None,
                Some(handle) => r == Some(
                    RemoveChannelMappingRequest {
                        session_handle: old(self).session_handle,
                        channelmapping_handle: handle,
                    },
                ),
            },
    {
        match self.channelmapping.take() {
            None => None,
            Some(handle) => Some(
                RemoveChannelMappingRequest {
                    session_handle: self.session_handle.clone(),
                    channelmapping_handle: handle,
                },
            ),
        }
    }

    /// The request that brings the daemon's view of one output in line.
    pub fn sync_channel_mapping_state(&self, output_id: &str, active_map: Vec<ActiveMapEntry>) -> (r:
        Result<SyncChannelMappingStateRequest, DaemonError>)
        ensures
            match r {
                Ok(req) => self.channelmapping == Some(req.channelmapping_handle)
                    && req.session_handle == self.session_handle && req.output_id@ == output_id@
                    && req.active_map == active_map,
                Err(e) => self.channelmapping is None && e is NoResource,
            },
            self.syncs(output_id@, active_map, r),
    {
        match &self.channelmapping {
            None => Err(DaemonError::NoResource),
            Some(handle) => Ok(
                SyncChannelMappingStateRequest {
                    session_handle: self.session_handle.clone(),
                    channelmapping_handle: handle.clone(),
                    output_id: output_id.to_owned(),
                    active_map,
                },
            ),
        }
    }

    /// What closing the session takes: the mapping is removed first, where there is one.
    pub fn close(self) -> (r: (Option<RemoveChannelMappingRequest>, String))
        ensures
            r.1 == self.session_handle,
            r.0 == self.removal(),
            match self.channelmapping {
                None => r.0 is None,
                Some(handle) => r.0 == Some(
                    RemoveChannelMappingRequest {
                        session_handle: self.session_handle,
                        channelmapping_handle: handle,
                    },
                ),
            },
    {
        let mut session = self;
        let removal = session.remove_channel_mapping();
        (removal, session.session_handle)
    }
}

// ---- opening ----------------------------------------------------------------

/// How far the opening of a channel-mapping session has come.
#[derive(Debug)]
pub enum MappingOpening {
    Connecting,
    Opening,
    Subscribing(OpenedChannelMappingSession),
    /// The subscription failed, and the session is being closed again.
    RollingBack(DaemonError),
}

/// What happened last while a channel-mapping session is opened.
#[derive(Debug)]
pub enum MappingOpenEvent {
    Connected,
    Opened(OpenedChannelMappingSession),
    Subscribed,
    Closed,
    Failed(DaemonError),
}

/// What to do next while a channel-mapping session is opened.
#[derive(Debug)]
pub enum MappingOpenAction {
    OpenSession(NodeConfig),
    /// Subscribe to the activations of the session with this handle.
    Subscribe(String),
    CloseSession(String),
    /// Start the activation task: the session is open.
    Finish(ChannelMappingSession),
    GiveUp(DaemonError),
}

/// A step in the opening of a channel-mapping session: the phase before, what happened, the phase
/// after, if the opening goes on, and what is done.
pub open spec fn mapping_opening_step(
    before: MappingOpening,
    event: MappingOpenEvent,
    settings: ChannelMappingSettings,
    next: Option<MappingOpening>,
    action: MappingOpenAction,
) -> bool {
    match (before, event) {
        (MappingOpening::Connecting, MappingOpenEvent::Failed(e)) => (next, action) == (
            None::<MappingOpening>,
            MappingOpenAction::GiveUp(e),
        ),
        (MappingOpening::Connecting, _) => next == Some(MappingOpening::Opening) && (
        action matches MappingOpenAction::OpenSession(config) && node_config_of(
            settings.node,
            config,
        )),
        (MappingOpening::Opening, MappingOpenEvent::Failed(e)) => (next, action) == (
            None::<MappingOpening>,
            MappingOpenAction::GiveUp(e),
        ),
        (MappingOpening::Opening, MappingOpenEvent::Opened(s)) => (next, action) == (
            Some(MappingOpening::Subscribing(s)),
            MappingOpenAction::Subscribe(s.session_handle),
        ),
        (MappingOpening::Subscribing(s), MappingOpenEvent::Subscribed) => next is None && action
            == MappingOpenAction::Finish(
            ChannelMappingSession {
                session_handle: s.session_handle,
                node_id: s.node_id,
                created_node: s.created_node,
                http_port: if s.http_port <= u16::MAX {
                    s.http_port as u16
                } else {
                    0
                },
                channelmapping: None,
            },
        ),
        (MappingOpening::Subscribing(s), MappingOpenEvent::Failed(e)) => (next, action) == (
            Some(MappingOpening::RollingBack(e)),
            MappingOpenAction::CloseSession(s.session_handle),
        ),
        (MappingOpening::RollingBack(e), _) => (next, action) == (
            None::<MappingOpening>,
            MappingOpenAction::GiveUp(e),
        ),
        _ => false,
    }
}

impl MappingOpening {
    pub open spec fn expects(&self, event: MappingOpenEvent) -> bool {
        match self {
            MappingOpening::Connecting => event is Connected || event is Failed,
            MappingOpening::Opening => event is Opened || event is Failed,
            MappingOpening::Subscribing(_) => event is Subscribed || event is Failed,
            MappingOpening::RollingBack(_) => event is Closed || event is Failed,
        }
    }

    /// The next phase and action. A subscription that fails closes the session again, and
    /// its error is what is reported.
    pub fn advance(self, event: MappingOpenEvent, settings: &ChannelMappingSettings) -> (r: (
        Option<MappingOpening>,
        MappingOpenAction,
    ))
        requires
            self.expects(event),
        ensures
            mapping_opening_step(self, event, *settings, r.0, r.1),
            match (self, event) {
                (MappingOpening::Connecting, MappingOpenEvent::Failed(e)) => r == (
                    None::<MappingOpening>,
                    MappingOpenAction::GiveUp(e),
                ),
                (MappingOpening::Connecting, _) => r.0 == Some(MappingOpening::Opening) && (
                r.1 matches MappingOpenAction::OpenSession(config) && node_config_of(
                    settings.node,
                    config,
                )),
                (MappingOpening::Opening, MappingOpenEvent::Failed(e)) => r == (
                    None::<MappingOpening>,
                    MappingOpenAction::GiveUp(e),
                ),
                (MappingOpening::Opening, MappingOpenEvent::Opened(s)) => r == (
                    Some(MappingOpening::Subscribing(s)),
                    MappingOpenAction::Subscribe(s.session_handle),
                ),
                (MappingOpening::Subscribing(s), MappingOpenEvent::Subscribed) => r.0 is None && r.1
                    == MappingOpenAction::Finish(
                    ChannelMappingSession {
                        session_handle: s.session_handle,
                        node_id: s.node_id,
                        created_node: s.created_node,
                        http_port: if s.http_port <= u16::MAX {
                            s.http_port as u16
                        } else {
                            0
                        },
                        channelmapping: None,
                    },
                ),
                (MappingOpening::Subscribing(s), MappingOpenEvent::Failed(e)) => r == (
                    Some(MappingOpening::RollingBack(e)),
                    MappingOpenAction::CloseSession(s.session_handle),
                ),
                (MappingOpening::RollingBack(e), _) => r == (
                    None::<MappingOpening>,
                    MappingOpenAction::GiveUp(e),
                ),
                _ => false,
            },
    {
        match self {
            MappingOpening::Connecting => match event {
                MappingOpenEvent::Failed(e) => (None, MappingOpenAction::GiveUp(e)),
                _ => (
                    Some(MappingOpening::Opening),
                    MappingOpenAction::OpenSession(settings.node.to_node_config()),
                ),
            },
            MappingOpening::Opening => match event {
                MappingOpenEvent::Opened(s) => {
                    let handle = s.session_handle.clone();
                    (Some(MappingOpening::Subscribing(s)), MappingOpenAction::Subscribe(handle))
                },
                MappingOpenEvent::Failed(e) => (None, MappingOpenAction::GiveUp(e)),
                _ => (None, MappingOpenAction::GiveUp(DaemonError::NoResource)),
            },
            MappingOpening::Subscribing(s) => match event {
                MappingOpenEvent::Failed(e) => (
                    Some(MappingOpening::RollingBack(e)),
                    MappingOpenAction::CloseSession(s.session_handle),
                ),
                _ => (None, MappingOpenAction::Finish(ChannelMappingSession::opened(s))),
            },
            MappingOpening::RollingBack(e) => (None, MappingOpenAction::GiveUp(e)),
        }
    }
}

// ---- activations ------------------------------------------------------------

/// What the channel-mapping activation task is doing.
#[derive(Debug)]
pub enum MappingTask {
    Reading,
    /// The element is carrying out the activation with this handle.
    Applying(String),
    Acking,
    Stopped,
}

/// What happened last in the channel-mapping activation task.
#[derive(Debug)]
pub enum MappingTaskEvent {
    Message(ChannelMappingActivationRequest),
    /// The stream ended, was cancelled or broke.
    StreamEnded,
    Outcome(ChannelMappingActivationOutcome),
    /// The element was dropped before it had answered.
    NoOutcome,
    Acked,
}

/// What the channel-mapping activation task does next.
#[derive(Debug)]
pub enum MappingTaskAction {
    Read,
    Dispatch(ChannelMappingActivationRequest),
    Ack(AckChannelMappingActivationRequest),
    Stop,
}

/// The reason given where the element was dropped before it had answered.
pub open spec fn mapping_dropped_reason() -> Seq<char> {
    "element dropped activation oneshot before completing apply"@
}

/// The answer for an outcome: success, or the reason for the failure.
pub open spec fn acknowledges_mapping(
    ack: AckChannelMappingActivationRequest,
    session_handle: Seq<char>,
    activation_handle: Seq<char>,
    failure: Option<Seq<char>>,
) -> bool {
    &&& ack.session_handle@ == session_handle
    &&& ack.activation_handle@ == activation_handle
    &&& match failure {
        None => ack.success && ack.failure_reason@.len() == 0,
        Some(reason) => !ack.success && ack.failure_reason@ == reason,
    }
}

pub open spec fn mapping_failure_of(outcome: ChannelMappingActivationOutcome) -> Option<Seq<char>> {
    match outcome {
        ChannelMappingActivationOutcome::Applied => None,
        ChannelMappingActivationOutcome::Failed { reason } => Some(reason@),
    }
}

/// A step of the channel-mapping activation task.
pub open spec fn mapping_task_step(
    before: MappingTask,
    event: MappingTaskEvent,
    session_handle: Seq<char>,
    after: MappingTask,
    action: MappingTaskAction,
) -> bool {
    match (before, event) {
        (_, MappingTaskEvent::StreamEnded) => after is Stopped && action is Stop,
        (_, MappingTaskEvent::Message(req)) => after == MappingTask::Applying(
            req.activation_handle,
        ) && action == MappingTaskAction::Dispatch(req),
        (MappingTask::Applying(handle), MappingTaskEvent::Outcome(outcome)) => after is Acking && (action matches MappingTaskAction::Ack(ack) && acknowledges_mapping(
            ack,
            session_handle,
            handle@,
            mapping_failure_of(outcome),
        )),
        (MappingTask::Applying(handle), MappingTaskEvent::NoOutcome) => after is Acking && (action matches MappingTaskAction::Ack(ack) && acknowledges_mapping(
            ack,
            session_handle,
            handle@,
            Some(mapping_dropped_reason()),
        )),
        (_, MappingTaskEvent::Acked) => after is Reading && action is Read,
        _ => false,
    }
}

impl MappingTask {
    pub open spec fn expects(&self, event: MappingTaskEvent) -> bool {
        match self {
            MappingTask::Reading => event is Message || event is StreamEnded,
            MappingTask::Applying(_) => event is Outcome || event is NoOutcome,
            MappingTask::Acking => event is Acked,
            MappingTask::Stopped => false,
        }
    }

    /// One step of the task. Every activation is handed to the element as it came, and
    /// answered under its own handle before the next message is read.
    pub fn step(&mut self, event: MappingTaskEvent, session_handle: &str) -> (action:
        MappingTaskAction)
        requires
            old(self).expects(event),
        ensures
            mapping_task_step(*old(self), event, session_handle@, *final(self), action),
    {
        match event {
            MappingTaskEvent::StreamEnded => {
                *self = MappingTask::Stopped;
                MappingTaskAction::Stop
            },
            MappingTaskEvent::Message(req) => {
                *self = MappingTask::Applying(req.activation_handle.clone());
                MappingTaskAction::Dispatch(req)
            },
            MappingTaskEvent::Outcome(outcome) => {
                let handle = self.handle();
                *self = MappingTask::Acking;
                match outcome {
                    ChannelMappingActivationOutcome::Applied => MappingTaskAction::Ack(
                        AckChannelMappingActivationRequest {
                            session_handle: session_handle.to_owned(),
                            activation_handle: handle,
                            success: true,
                            failure_reason: String::new(),
                        },
                    ),
                    ChannelMappingActivationOutcome::Failed { reason } => mapping_ack_failure(
                        session_handle,
                        handle,
                        reason,
                    ),
                }
            },
            MappingTaskEvent::NoOutcome => {
                let handle = self.handle();
                *self = MappingTask::Acking;
                mapping_ack_failure(
                    session_handle,
                    handle,
                    "element dropped activation oneshot before completing apply".to_owned(),
                )
            },
            MappingTaskEvent::Acked => {
                *self = MappingTask::Reading;
                MappingTaskAction::Read
            },
        }
    }

    fn handle(&self) -> (r: String)
        requires
            self is Applying,
        ensures
            r == self->0,
    {
        match self {
            MappingTask::Applying(handle) => handle.clone(),
            _ => String::new(),
        }
    }
}

fn mapping_ack_failure(session_handle: &str, activation_handle: String, reason: String) -> (action:
    MappingTaskAction)
    ensures
        action matches MappingTaskAction::Ack(ack) && acknowledges_mapping(
            ack,
            session_handle@,
            activation_handle@,
            Some(reason@),
        ),
{
    MappingTaskAction::Ack(
        AckChannelMappingActivationRequest {
            session_handle: session_handle.to_owned(),
            activation_handle,
            success: false,
            failure_reason: reason,
        },
    )
}

/// Activations are handled in lock-step: a message is handed to the element, what follows
/// is its answer under its own handle, and then the next read.
pub proof fn mapping_activations_are_answered_in_turn(
    req: ChannelMappingActivationRequest,
    session_handle: Seq<char>,
    applying: MappingTask,
    first: MappingTaskAction,
    report: MappingTaskEvent,
    acking: MappingTask,
    second: MappingTaskAction,
    reading: MappingTask,
    third: MappingTaskAction,
)
    requires
        mapping_task_step(
            MappingTask::Reading,
            MappingTaskEvent::Message(req),
            session_handle,
            applying,
            first,
        ),
        applying.expects(report),
        mapping_task_step(applying, report, session_handle, acking, second),
        mapping_task_step(acking, MappingTaskEvent::Acked, session_handle, reading, third),
    ensures
        first == MappingTaskAction::Dispatch(req),
        second matches MappingTaskAction::Ack(ack) && ack.activation_handle@
            == req.activation_handle@,
        !acking.expects(MappingTaskEvent::Message(req)),
        reading is Reading,
        third is Read,
{
}

/// What came of an activation is what the daemon is told, under the session's handle and the
/// activation's own: success where it was applied, else the element's own reason; an element
/// that was dropped has not applied it.
pub proof fn mapping_outcome_is_acknowledged(
    handle: String,
    event: MappingTaskEvent,
    session_handle: Seq<char>,
    after: MappingTask,
    action: MappingTaskAction,
)
    requires
        event is Outcome || event is NoOutcome,
        mapping_task_step(
            MappingTask::Applying(handle),
            event,
            session_handle,
            after,
            action,
        ),
    ensures
        action matches MappingTaskAction::Ack(ack) && ack.session_handle@ == session_handle
            && ack.activation_handle@ == handle@ && (ack.success <==> (
        event matches MappingTaskEvent::Outcome(o) && o is Applied)) && (
        event matches MappingTaskEvent::Outcome(ChannelMappingActivationOutcome::Failed { reason })
            ==> ack.failure_reason@ == reason@) && (ack.success ==> ack.failure_reason@.len() == 0),
{
}

/// A channel-mapping session is what the daemon opened: it subscribes to the activations of that
/// session, has no mapping yet, and is closed again where the subscription fails, whose error is
/// what is reported.
pub proof fn mapping_session_is_what_was_opened(
    opened: OpenedChannelMappingSession,
    settings: ChannelMappingSettings,
    next: Option<MappingOpening>,
    action: MappingOpenAction,
    event: MappingOpenEvent,
    after: Option<MappingOpening>,
    second: MappingOpenAction,
    closing: MappingOpenEvent,
    last: Option<MappingOpening>,
    third: MappingOpenAction,
)
    requires
        mapping_opening_step(
            MappingOpening::Opening,
            MappingOpenEvent::Opened(opened),
            settings,
            next,
            action,
        ),
        next matches Some(phase) ==> mapping_opening_step(phase, event, settings, after, second),
        after matches Some(phase) ==> mapping_opening_step(phase, closing, settings, last, third),
    ensures
        action == MappingOpenAction::Subscribe(opened.session_handle),
        event is Subscribed ==> after is None && (second matches MappingOpenAction::Finish(s)
            && s.session_handle@ == opened.session_handle@ && s.node_id@ == opened.node_id@
            && s.channelmapping is None && (opened.http_port <= 65_535 ==> s.http_port
            == opened.http_port) && (opened.http_port > 65_535 ==> s.http_port == 0)),
        event matches MappingOpenEvent::Failed(e) ==> second == MappingOpenAction::CloseSession(
            opened.session_handle,
        ) && last is None && third == MappingOpenAction::GiveUp(e),
{
}

/// Every phase of an opening can fail, the closing of what was opened too, and none takes an event
/// that belongs to another.
pub proof fn every_mapping_phase_may_fail(
    phase: MappingOpening,
    failed: MappingOpenEvent,
    event: MappingOpenEvent,
)
    requires
        failed is Failed,
    ensures
        phase.expects(failed),
        phase.expects(event) && !(event is Failed) ==> {
            &&& event is Connected <==> phase is Connecting
            &&& event is Opened <==> phase is Opening
            &&& event is Subscribed <==> phase is Subscribing
            &&& event is Closed <==> phase is RollingBack
        },
        event is Closed && phase is RollingBack ==> phase.expects(event),
        event is Opened && phase is Opening ==> phase.expects(event),
        event is Subscribed && phase is Subscribing ==> phase.expects(event),
        event is Connected && phase is Connecting ==> phase.expects(event),
{
}

/// What is added to a session is what is synced on it and what is taken out again; once it is out
/// there is nothing to sync or to take out. All goes over the session's own handle.
pub proof fn added_mapping_is_removed(
    session: ChannelMappingSession,
    handle: String,
    output_id: Seq<char>,
    active_map: Vec<ActiveMapEntry>,
    synced: Result<SyncChannelMappingStateRequest, DaemonError>,
    late: Result<SyncChannelMappingStateRequest, DaemonError>,
)
    requires
        session.with_mapping(handle).syncs(output_id, active_map, synced),
        session.with_mapping(handle).without_mapping().syncs(output_id, active_map, late),
    ensures
        synced matches Ok(req) && req.channelmapping_handle == handle && req.session_handle
            == session.session_handle && req.output_id@ == output_id && req.active_map
            == active_map,
        session.with_mapping(handle).removal() matches Some(req) && req.channelmapping_handle
            == handle && req.session_handle == session.session_handle,
        late matches Err(e) && e is NoResource,
        session.with_mapping(handle).without_mapping().removal() is None,
        session.channelmapping is None ==> session.with_mapping(handle).without_mapping()
            == session,
{
}

} // verus!
