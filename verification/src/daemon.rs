//! A session with the NMOS daemon: what is asked of it, in which order, and how its
//! activations are answered.
//!
//! The requests themselves go over the wire elsewhere. Here stand the decisions: each
//! function takes what has just happened and says what is to be done next.

use crate::network_services::{node_config_of, NodeConfig};
use crate::session::{NodeSettings, Side};
use crate::text::{
    first_index, first_index_is_least, has_prefix, joined, signed_decimal, signed_decimal_text, split_once,
    strip_prefix,
};
use crate::types::Transport;
use vstd::prelude::*;

verus! {

/// Why the daemon could not be used.
#[derive(Debug)]
pub enum DaemonError {
    /// Only `unix:` URIs are supported.
    UnsupportedScheme(String),
    /// The daemon could not be reached.
    Transport(String),
    /// The daemon refused a request.
    Rpc(String),
    /// The session already has a resource; deferred registration is a one-shot operation.
    AlreadyRegistered,
    /// The session already has a channel mapping.
    AlreadyAdded,
    /// The session has no resource yet.
    NoResource,
}

// ---- daemon URIs ------------------------------------------------------------

/// What stands before the first colon, or the whole text where there is none.
pub open spec fn scheme_of(uri: Seq<char>) -> Seq<char> {
    uri.take(first_index(uri, ':'))
}

/// The socket path of a `unix:` URI.
pub fn parse_unix_uri(daemon_uri: &str) -> (r: Result<String, DaemonError>)
    ensures
        match r {
            Ok(path) => daemon_uri@ == "unix:"@ + path@,
            Err(e) => !has_prefix(daemon_uri@, "unix:"@) && (
            e matches DaemonError::UnsupportedScheme(scheme) && scheme@ == scheme_of(daemon_uri@)),
        },
        r is Ok == has_prefix(daemon_uri@, "unix:"@),
{
    match strip_prefix(daemon_uri, "unix:") {
        Some(path) => {
            assert(daemon_uri@ =~= "unix:"@ + path@);
            Ok(path.to_owned())
        },
        None => {
            let scheme: String = match split_once(daemon_uri, ':') {
                Some((scheme, _)) => scheme.to_owned(),
                None => {
                    proof {
                        crate::text::first_index_is_least(daemon_uri@, ':');
                        assert(daemon_uri@.take(daemon_uri@.len() as int) =~= daemon_uri@);
                    }
                    daemon_uri.to_owned()
                },
            };
            Err(DaemonError::UnsupportedScheme(scheme))
        },
    }
}

// ---- requests ---------------------------------------------------------------

/// Register a sender or a receiver.
#[derive(Debug)]
pub struct AddResourceRequest {
    pub side: Side,
    pub session_handle: String,
    pub name: String,
    pub transport: Transport,
    pub transport_file: String,
}

/// Bring the daemon's view of a resource in line: active with the transport file, or not
/// active.
#[derive(Debug)]
pub struct SyncResourceStateRequest {
    pub session_handle: String,
    pub resource_handle: String,
    pub transport_file: Option<String>,
}

/// A resource that the daemon has registered.
#[derive(Debug)]
pub struct RegisteredResource {
    pub handle: String,
    pub id: String,
}

/// What the daemon answered when a session was opened.
#[derive(Debug)]
pub struct OpenedSession {
    pub session_handle: String,
    pub node_id: String,
    pub created_node: bool,
}

/// A live session.
#[derive(Debug)]
pub struct Session {
    pub session_handle: String,
    pub node_id: String,
    pub created_node: bool,
    pub resource: Option<RegisteredResource>,
}

impl Session {
    /// The answer to a request to register a resource.
    pub open spec fn adds(
        self,
        side: Side,
        name: Seq<char>,
        transport: Transport,
        transport_file: Seq<char>,
        r: Result<AddResourceRequest, DaemonError>,
    ) -> bool {
        match r {
            Ok(req) => self.resource is None && req.side == side && req.session_handle
                == self.session_handle && req.name@ == name && req.transport == transport
                && req.transport_file@ == transport_file,
            Err(e) => self.resource is Some && e is AlreadyRegistered,
        }
    }

    /// The session after the daemon's answer to a registration.
    pub open spec fn noted(self, reply: Result<RegisteredResource, DaemonError>) -> Session {
        Session {
            resource: match reply {
                Ok(res) => Some(res),
                Err(_) => None,
            },
            ..self
        }
    }

    /// The answer to a request to bring the daemon's view of the resource in line.
    pub open spec fn syncs(
        self,
        transport_file: Option<Seq<char>>,
        r: Result<SyncResourceStateRequest, DaemonError>,
    ) -> bool {
        match r {
            Ok(req) => (self.resource matches Some(res) && req.resource_handle == res.handle)
                && req.session_handle == self.session_handle && req.transport_file.deep_view()
                == transport_file,
            Err(e) => self.resource is None && e is NoResource,
        }
    }

    /// The handle and id of the registered resource.
    pub fn resource_id(&self) -> (r: Option<(&str, &str)>)
        ensures
            match (self.resource, r) {
                (Some(res), Some((handle, id))) => handle@ == res.handle@ && id@ == res.id@,
                (None, None) => true,
                _ => false,
            },
    {
        match &self.resource {
            Some(res) => Some((res.handle.as_str(), res.id.as_str())),
            None => None,
        }
    }

    /// The request that registers a resource on this session, which must have none yet.
    pub fn add_resource(
        &self,
        side: Side,
        name: &str,
        transport: Transport,
        transport_file: &str,
    ) -> (r: Result<AddResourceRequest, DaemonError>)
        ensures
            match r {
                Ok(req) => self.resource is None && req.side == side && req.session_handle
                    == self.session_handle && req.name@ == name@ && req.transport == transport
                    && req.transport_file@ == transport_file@,
                Err(e) => self.resource is Some && e is AlreadyRegistered,
            },
            self.adds(side, name@, transport, transport_file@, r),
    {
        if self.resource.is_some() {
            return Err(DaemonError::AlreadyRegistered);
        }
        Ok(
            AddResourceRequest {
                side,
                session_handle: self.session_handle.clone(),
                name: name.to_owned(),
                transport,
                transport_file: transport_file.to_owned(),
            },
        )
    }

    /// Take note of what the daemon answered to a registration.
    pub fn resource_added(&mut self, reply: Result<RegisteredResource, DaemonError>) -> (r: Result<
        (),
        DaemonError,
    >)
        requires
            old(self).resource is None,
        ensures
            *final(self) == (Session {
                resource: match reply {
                    Ok(res) => Some(res),
                    Err(_) => None,
                },
                ..*old(self)
            }),
            *final(self) == old(self).noted(reply),
            match reply {
                Ok(_) => r is Ok,
                Err(e) => r == Err::<(), _>(e),
            },
    {
        match reply {
            Ok(res) => {
                self.resource = Some(res);
                Ok(())
            },
            Err(e) => Err(e),
        }
    }

    /// The request that brings the daemon's view of the resource in line, without going
    /// through the activation stream. `None` deactivates.
    pub fn sync_resource_state(&self, transport_file: Option<&str>) -> (r: Result<
        SyncResourceStateRequest,
        DaemonError,
    >)
        ensures
            match r {
                Ok(req) => (self.resource matches Some(res) && req.resource_handle == res.handle)
                    && req.session_handle == self.session_handle && req.transport_file.deep_view()
                    == transport_file.deep_view(),
                Err(e) => self.resource is None && e is NoResource,
            },
            self.syncs(transport_file.deep_view(), r),
    {
        match &self.resource {
            None => Err(DaemonError::NoResource),
            Some(res) => Ok(
                SyncResourceStateRequest {
                    session_handle: self.session_handle.clone(),
                    resource_handle: res.handle.clone(),
                    transport_file: match transport_file {
                        Some(t) => Some(t.to_owned()),
                        None => None,
                    },
                },
            ),
        }
    }
}

// ---- opening ----------------------------------------------------------------

/// What has been asked for when a session is opened.
#[derive(Debug)]
pub struct OpenParameters {
    /// The node that the session joins, or that the daemon makes for it.
    pub node: NodeSettings,
    pub side: Side,
    pub name: String,
    pub transport: Transport,
    /// Without a transport file the session is opened without a resource.
    pub transport_file: Option<String>,
}

/// How far the opening of a session has come.
#[derive(Debug)]
pub enum Opening {
    /// The daemon is being connected to.
    Connecting,
    /// A session has been asked for.
    Opening,
    /// The resource is being registered on the session.
    Registering(OpenedSession),
    /// The registration failed, and the session is being closed again.
    RollingBack(DaemonError),
}

/// What happened last while a session is opened.
#[derive(Debug)]
pub enum OpenEvent {
    Connected,
    Opened(OpenedSession),
    Registered(RegisteredResource),
    Closed,
    /// What was under way failed.
    Failed(DaemonError),
}

/// What to do next while a session is opened.
#[derive(Debug)]
pub enum OpenAction {
    /// Ask for a session for the node.
    OpenSession(NodeConfig),
    /// Start the activation task and register the resource.
    StartAndRegister(AddResourceRequest),
    /// Stop the activation task and close the session with this handle.
    StopAndClose(String),
    /// Start the activation task: the session is open.
    StartAndFinish(Session),
    /// The session is open, its activation task runs.
    Finish(Session),
    GiveUp(DaemonError),
}

/// A step in the opening of a session: the phase before, what happened, the phase after, if the
/// opening goes on, and what is done.
pub open spec fn opening_step(
    before: Opening,
    event: OpenEvent,
    p: OpenParameters,
    next: Option<Opening>,
    action: OpenAction,
) -> bool {
    match (before, event) {
        (Opening::Connecting, OpenEvent::Failed(e)) => (next, action) == (
            None::<Opening>,
            OpenAction::GiveUp(e),
        ),
        (Opening::Connecting, _) => next == Some(Opening::Opening) && (
        action matches OpenAction::OpenSession(config) && node_config_of(p.node, config)),
        (Opening::Opening, OpenEvent::Failed(e)) => (next, action) == (
            None::<Opening>,
            OpenAction::GiveUp(e),
        ),
        (Opening::Opening, OpenEvent::Opened(s)) => match p.transport_file {
            None => (next, action) == (
                None::<Opening>,
                OpenAction::StartAndFinish(
                    Session {
                        session_handle: s.session_handle,
                        node_id: s.node_id,
                        created_node: s.created_node,
                        resource: None,
                    },
                ),
            ),
            Some(file) => (next, action) == (
                Some(Opening::Registering(s)),
                OpenAction::StartAndRegister(
                    AddResourceRequest {
                        side: p.side,
                        session_handle: s.session_handle,
                        name: p.name,
                        transport: p.transport,
                        transport_file: file,
                    },
                ),
            ),
        },
        (Opening::Registering(s), OpenEvent::Registered(res)) => (next, action) == (
            None::<Opening>,
            OpenAction::Finish(
                Session {
                    session_handle: s.session_handle,
                    node_id: s.node_id,
                    created_node: s.created_node,
                    resource: Some(res),
                },
            ),
        ),
        (Opening::Registering(s), OpenEvent::Failed(e)) => (next, action) == (
            Some(Opening::RollingBack(e)),
            OpenAction::StopAndClose(s.session_handle),
        ),
        (Opening::RollingBack(e), _) => (next, action) == (None::<Opening>, OpenAction::GiveUp(e)),
        _ => false,
    }
}

impl Opening {
    /// Something that can happen in this phase.
    pub open spec fn expects(&self, event: OpenEvent) -> bool {
        match self {
            Opening::Connecting => event is Connected || event is Failed,
            Opening::Opening => event is Opened || event is Failed,
            Opening::Registering(_) => event is Registered || event is Failed,
            Opening::RollingBack(_) => event is Closed || event is Failed,
        }
    }

    /// The next phase and action. A registration that fails closes the session again, so
    /// that the daemon keeps nothing of it, and its error is what is reported even if the
    /// closing fails too. The node's whole identity goes with the session: its seed and port,
    /// its host name, and the network services of its settings.
    pub fn advance(self, event: OpenEvent, p: &OpenParameters) -> (r: (Option<Opening>, OpenAction))
        requires
            self.expects(event),
        ensures
            opening_step(self, event, *p, r.0, r.1),
            match (self, event) {
                (Opening::Connecting, OpenEvent::Failed(e)) => r == (
                    None::<Opening>,
                    OpenAction::GiveUp(e),
                ),
                (Opening::Connecting, _) => r.0 == Some(Opening::Opening) && (
                r.1 matches OpenAction::OpenSession(config) && node_config_of(p.node, config)),
                (Opening::Opening, OpenEvent::Failed(e)) => r == (
                    None::<Opening>,
                    OpenAction::GiveUp(e),
                ),
                (Opening::Opening, OpenEvent::Opened(s)) => match p.transport_file {
                    None => r == (
                        None::<Opening>,
                        OpenAction::StartAndFinish(
                            Session {
                                session_handle: s.session_handle,
                                node_id: s.node_id,
                                created_node: s.created_node,
                                resource: None,
                            },
                        ),
                    ),
                    Some(file) => r == (
                        Some(Opening::Registering(s)),
                        OpenAction::StartAndRegister(
                            AddResourceRequest {
                                side: p.side,
                                session_handle: s.session_handle,
                                name: p.name,
                                transport: p.transport,
                                transport_file: file,
                            },
                        ),
                    ),
                },
                (Opening::Registering(s), OpenEvent::Registered(res)) => r == (
                    None::<Opening>,
                    OpenAction::Finish(
                        Session {
                            session_handle: s.session_handle,
                            node_id: s.node_id,
                            created_node: s.created_node,
                            resource: Some(res),
                        },
                    ),
                ),
                (Opening::Registering(s), OpenEvent::Failed(e)) => r == (
                    Some(Opening::RollingBack(e)),
                    OpenAction::StopAndClose(s.session_handle),
                ),
                (Opening::RollingBack(e), _) => r == (None::<Opening>, OpenAction::GiveUp(e)),
                _ => false,
            },
    {
        match self {
            Opening::Connecting => match event {
                OpenEvent::Failed(e) => (None, OpenAction::GiveUp(e)),
                _ => (
                    Some(Opening::Opening),
                    OpenAction::OpenSession(p.node.to_node_config()),
                ),
            },
            Opening::Opening => match event {
                OpenEvent::Opened(s) => match &p.transport_file {
                    None => (
                        None,
                        OpenAction::StartAndFinish(
                            Session {
                                session_handle: s.session_handle,
                                node_id: s.node_id,
                                created_node: s.created_node,
                                resource: None,
                            },
                        ),
                    ),
                    Some(file) => {
                        let request = AddResourceRequest {
                            side: p.side,
                            session_handle: s.session_handle.clone(),
                            name: p.name.clone(),
                            transport: p.transport,
                            transport_file: file.clone(),
                        };
                        (Some(Opening::Registering(s)), OpenAction::StartAndRegister(request))
                    },
                },
                OpenEvent::Failed(e) => (None, OpenAction::GiveUp(e)),
                _ => (None, OpenAction::GiveUp(DaemonError::NoResource)),
            },
            Opening::Registering(s) => match event {
                OpenEvent::Registered(res) => (
                    None,
                    OpenAction::Finish(
                        Session {
                            session_handle: s.session_handle,
                            node_id: s.node_id,
                            created_node: s.created_node,
                            resource: Some(res),
                        },
                    ),
                ),
                OpenEvent::Failed(e) => (
                    Some(Opening::RollingBack(e)),
                    OpenAction::StopAndClose(s.session_handle),
                ),
                _ => (None, OpenAction::GiveUp(DaemonError::NoResource)),
            },
            Opening::RollingBack(e) => (None, OpenAction::GiveUp(e)),
        }
    }
}

// ---- activations ------------------------------------------------------------

/// An activation, as the daemon delivers it. A side that the daemon's enumeration does
/// not name comes with its number.
#[derive(Debug)]
pub struct ActivationEvent {
    pub activation_handle: String,
    pub resource_handle: String,
    pub side: Result<Side, i32>,
    pub transport_file: Option<String>,
}

/// An activation, as an element carries it out.
#[derive(Debug)]
pub struct ActivationRequest {
    pub activation_handle: String,
    pub resource_handle: String,
    pub side: Side,
    /// `Some(text)` for an activation, `None` for a deactivation.
    pub transport_file: Option<String>,
}

/// What came of an activation.
#[derive(Debug)]
pub enum ActivationOutcome {
    Applied,
    Failed { reason: String },
}

/// The answer to an activation.
#[derive(Debug)]
pub struct AckActivationRequest {
    pub session_handle: String,
    pub activation_handle: String,
    pub success: bool,
    pub failure_reason: String,
}

/// What the activation task is doing.
#[derive(Debug)]
pub enum ActivationTask {
    Subscribing,
    Reading,
    /// An element is carrying out the activation with this handle.
    Applying(String),
    Acking,
    Stopped,
}

/// What happened last in the activation task.
#[derive(Debug)]
pub enum TaskEvent {
    Subscribed,
    SubscribeFailed,
    Message(ActivationEvent),
    /// The stream ended, was cancelled or broke.
    StreamEnded,
    Outcome(ActivationOutcome),
    /// The element was dropped before it had answered.
    NoOutcome,
    /// The answer was delivered, or its delivery failed.
    Acked,
}

/// What the activation task does next.
#[derive(Debug)]
pub enum TaskAction {
    Read,
    Dispatch(ActivationRequest),
    Ack(AckActivationRequest),
    Stop,
}

/// The reason given for a side that the daemon's enumeration does not name.
pub open spec fn unknown_side_reason(n: int) -> Seq<char> {
    "daemon delivered ActivationEvent with unrecognised `side` enum value "@ + signed_decimal(n)
}

/// The reason given where an element was dropped before it had answered.
pub open spec fn dropped_reason() -> Seq<char> {
    "element dropped its activation oneshot before completing the apply"@
}

/// The answer for an outcome: success, or the reason for the failure.
pub open spec fn acknowledges(
    ack: AckActivationRequest,
    session_handle: Seq<char>,
    activation_handle: Seq<char>,
    failure: Option<Seq<char>>,
) -> bool {
    &&& ack.session_handle@ == session_handle
    &&& ack.activation_handle@ == activation_handle
    &&& match failure {
        None => ack.success && ack.failure_reason@.len() == 0,
        Some(reason) => !ack.success && ack.failure_reason@ == reason,
    }
}

/// Why an outcome is a failure, if it is one.
pub open spec fn failure_of(outcome: ActivationOutcome) -> Option<Seq<char>> {
    match outcome {
        ActivationOutcome::Applied => None,
        ActivationOutcome::Failed { reason } => Some(reason@),
    }
}

/// A step of the activation task: the state before, what happened, the state after and
/// what is done.
pub open spec fn task_step(
    before: ActivationTask,
    event: TaskEvent,
    session_handle: Seq<char>,
    after: ActivationTask,
    action: TaskAction,
) -> bool {
    match (before, event) {
        (_, TaskEvent::Subscribed) => after is Reading && action is Read,
        (_, TaskEvent::SubscribeFailed) => after is Stopped && action is Stop,
        (_, TaskEvent::StreamEnded) => after is Stopped && action is Stop,
        (_, TaskEvent::Message(ev)) => match ev.side {
            Ok(side) => after == ActivationTask::Applying(ev.activation_handle)
                && action == TaskAction::Dispatch(
                ActivationRequest {
                    activation_handle: ev.activation_handle,
                    resource_handle: ev.resource_handle,
                    side,
                    transport_file: ev.transport_file,
                },
            ),
            Err(n) => after is Acking && (action matches TaskAction::Ack(ack)
                && acknowledges(
                ack,
                session_handle,
                ev.activation_handle@,
                Some(unknown_side_reason(n as int)),
            )),
        },
        (ActivationTask::Applying(handle), TaskEvent::Outcome(outcome)) => after is Acking && (action matches TaskAction::Ack(ack) && acknowledges(
            ack,
            session_handle,
            handle@,
            failure_of(outcome),
        )),
        (ActivationTask::Applying(handle), TaskEvent::NoOutcome) => after is Acking && (action matches TaskAction::Ack(ack) && acknowledges(
            ack,
            session_handle,
            handle@,
            Some(dropped_reason()),
        )),
        (_, TaskEvent::Acked) => after is Reading && action is Read,
        _ => false,
    }
}

impl ActivationTask {
    /// Something that can happen in this state.
    pub open spec fn expects(&self, event: TaskEvent) -> bool {
        match self {
            ActivationTask::Subscribing => event is Subscribed || event is SubscribeFailed,
            ActivationTask::Reading => event is Message || event is StreamEnded,
            ActivationTask::Applying(_) => event is Outcome || event is NoOutcome,
            ActivationTask::Acking => event is Acked,
            ActivationTask::Stopped => false,
        }
    }

    /// One step of the task. Every activation is answered under its own handle before the
    /// next message is read: one from an unknown side with a failure at once, any other
    /// with what the element made of it.
    pub fn step(&mut self, event: TaskEvent, session_handle: &str) -> (action: TaskAction)
        requires
            old(self).expects(event),
        ensures
            task_step(*old(self), event, session_handle@, *final(self), action),
    {
        match event {
            TaskEvent::Subscribed => {
                *self = ActivationTask::Reading;
                TaskAction::Read
            },
            TaskEvent::SubscribeFailed => {
                *self = ActivationTask::Stopped;
                TaskAction::Stop
            },
            TaskEvent::StreamEnded => {
                *self = ActivationTask::Stopped;
                TaskAction::Stop
            },
            TaskEvent::Message(ev) => match ev.side {
                Ok(side) => {
                    *self = ActivationTask::Applying(ev.activation_handle.clone());
                    TaskAction::Dispatch(
                        ActivationRequest {
                            activation_handle: ev.activation_handle,
                            resource_handle: ev.resource_handle,
                            side,
                            transport_file: ev.transport_file,
                        },
                    )
                },
                Err(n) => {
                    *self = ActivationTask::Acking;
                    let reason = joined(
                        "daemon delivered ActivationEvent with unrecognised `side` enum value ",
                        signed_decimal_text(n).as_str(),
                    );
                    ack_failure(session_handle, ev.activation_handle, reason)
                },
            },
            TaskEvent::Outcome(outcome) => {
                let handle = self.handle();
                *self = ActivationTask::Acking;
                match outcome {
                    ActivationOutcome::Applied => TaskAction::Ack(
                        AckActivationRequest {
                            session_handle: session_handle.to_owned(),
                            activation_handle: handle,
                            success: true,
                            failure_reason: String::new(),
                        },
                    ),
                    ActivationOutcome::Failed { reason } => ack_failure(
                        session_handle,
                        handle,
                        reason,
                    ),
                }
            },
            TaskEvent::NoOutcome => {
                let handle = self.handle();
                *self = ActivationTask::Acking;
                ack_failure(
                    session_handle,
                    handle,
                    "element dropped its activation oneshot before completing the apply".to_owned(),
                )
            },
            TaskEvent::Acked => {
                *self = ActivationTask::Reading;
                TaskAction::Read
            },
        }
    }

    fn handle(&self) -> (r: String)
        requires
            self is Applying,
        ensures
            r == self->0,
    {
        match self {
            ActivationTask::Applying(handle) => handle.clone(),
            _ => String::new(),
        }
    }
}

fn ack_failure(session_handle: &str, activation_handle: String, reason: String) -> (action:
    TaskAction)
    ensures
        action matches TaskAction::Ack(ack) && acknowledges(
            ack,
            session_handle@,
            activation_handle@,
            Some(reason@),
        ),
{
    TaskAction::Ack(
        AckActivationRequest {
            session_handle: session_handle.to_owned(),
            activation_handle,
            success: false,
            failure_reason: reason,
        },
    )
}

/// Activations are handled in lock-step: what follows a message is its answer, under its
/// own handle, at once or after whatever the element reports; and what follows an answer is
/// the next read.
pub proof fn activations_are_answered_in_turn(
    ev: ActivationEvent,
    session_handle: Seq<char>,
    applying: ActivationTask,
    first: TaskAction,
    report: TaskEvent,
    acking: ActivationTask,
    second: TaskAction,
    reading: ActivationTask,
    third: TaskAction,
)
    requires
        task_step(
            ActivationTask::Reading,
            TaskEvent::Message(ev),
            session_handle,
            applying,
            first,
        ),
        first is Dispatch ==> applying.expects(report) && task_step(
            applying,
            report,
            session_handle,
            acking,
            second,
        ),
        first is Ack ==> acking == applying && second == first,
        task_step(acking, TaskEvent::Acked, session_handle, reading, third),
    ensures
        first is Dispatch || first is Ack,
        second matches TaskAction::Ack(ack) && ack.activation_handle@ == ev.activation_handle@,
        acking is Acking,
        !acking.expects(TaskEvent::Message(ev)),
        reading is Reading,
        third is Read,
{
}

/// What came of an activation is what the daemon is told, under the session's handle and the
/// activation's own: success where it was applied, and else the element's own reason.
pub proof fn outcome_is_acknowledged(
    handle: String,
    outcome: ActivationOutcome,
    session_handle: Seq<char>,
    after: ActivationTask,
    action: TaskAction,
)
    requires
        task_step(
            ActivationTask::Applying(handle),
            TaskEvent::Outcome(outcome),
            session_handle,
            after,
            action,
        ),
    ensures
        action matches TaskAction::Ack(ack) && ack.session_handle@ == session_handle
            && ack.activation_handle@ == handle@ && (ack.success <==> outcome is Applied) && (
        outcome matches ActivationOutcome::Failed { reason } ==> ack.failure_reason@ == reason@) && (
        outcome is Applied ==> ack.failure_reason@.len() == 0),
{
}

/// An activation that cannot be carried out is refused: one from a side that is not known, and
/// one whose element was dropped.
pub proof fn lost_activations_are_refused(
    ev: ActivationEvent,
    handle: String,
    session_handle: Seq<char>,
    after: ActivationTask,
    action: TaskAction,
)
    requires
        (ev.side is Err && task_step(
            ActivationTask::Reading,
            TaskEvent::Message(ev),
            session_handle,
            after,
            action,
        )) || task_step(
            ActivationTask::Applying(handle),
            TaskEvent::NoOutcome,
            session_handle,
            after,
            action,
        ),
    ensures
        action matches TaskAction::Ack(ack) && !ack.success && ack.failure_reason@.len() > 0
            && ack.session_handle@ == session_handle,
{
    reveal_strlit("daemon delivered ActivationEvent with unrecognised `side` enum value ");
    reveal_strlit("element dropped its activation oneshot before completing the apply");
}

/// An element carries out what the daemon delivered: the same resource, side and transport file.
pub proof fn activation_is_handed_on(
    ev: ActivationEvent,
    session_handle: Seq<char>,
    after: ActivationTask,
    action: TaskAction,
)
    requires
        ev.side is Ok,
        task_step(
            ActivationTask::Reading,
            TaskEvent::Message(ev),
            session_handle,
            after,
            action,
        ),
    ensures
        action matches TaskAction::Dispatch(req) && req.activation_handle@
            == ev.activation_handle@ && req.resource_handle@ == ev.resource_handle@ && Ok::<
            Side,
            i32,
        >(req.side) == ev.side && req.transport_file == ev.transport_file,
        after.expects(TaskEvent::NoOutcome),
{
}

/// A session is what the daemon opened: with a transport file its resource is registered on it
/// under the element's own name, side and transport; without one it is finished as it is.
pub proof fn opened_session_is_used(
    opened: OpenedSession,
    p: OpenParameters,
    next: Option<Opening>,
    action: OpenAction,
)
    requires
        opening_step(Opening::Opening, OpenEvent::Opened(opened), p, next, action),
    ensures
        p.transport_file is None ==> next is None && (action matches OpenAction::StartAndFinish(s)
            && s.session_handle@ == opened.session_handle@ && s.node_id@ == opened.node_id@
            && s.created_node == opened.created_node && s.resource is None),
        p.transport_file matches Some(file) ==> next == Some(Opening::Registering(opened)) && (
        action matches OpenAction::StartAndRegister(req) && req.session_handle@
            == opened.session_handle@ && req.side == p.side && req.name@ == p.name@
            && req.transport == p.transport && req.transport_file@ == file@),
{
}

/// A registered resource is the session's; a registration that fails closes the session again,
/// and its error is what is reported, whatever comes of the closing.
pub proof fn failed_registration_leaves_nothing(
    opened: OpenedSession,
    event: OpenEvent,
    p: OpenParameters,
    next: Option<Opening>,
    action: OpenAction,
    closing: OpenEvent,
    last: Option<Opening>,
    reported: OpenAction,
)
    requires
        opening_step(Opening::Registering(opened), event, p, next, action),
        next matches Some(phase) ==> opening_step(phase, closing, p, last, reported),
    ensures
        event matches OpenEvent::Registered(res) ==> next is None && (
        action matches OpenAction::Finish(s) && s.session_handle@ == opened.session_handle@
            && s.node_id@ == opened.node_id@ && s.resource == Some(res)),
        event matches OpenEvent::Failed(e) ==> action == OpenAction::StopAndClose(
            opened.session_handle,
        ) && last is None && reported == OpenAction::GiveUp(e),
{
}

/// A connection or a session that fails is given up, with its own error.
pub proof fn failed_opening_is_given_up(
    before: Opening,
    why: DaemonError,
    p: OpenParameters,
    next: Option<Opening>,
    action: OpenAction,
)
    requires
        before is Connecting || before is Opening,
        opening_step(before, OpenEvent::Failed(why), p, next, action),
    ensures
        next is None,
        action == OpenAction::GiveUp(why),
{
}

/// The daemon is asked for a session for the element's own node.
pub proof fn session_is_for_the_node(
    p: OpenParameters,
    next: Option<Opening>,
    action: OpenAction,
)
    requires
        opening_step(Opening::Connecting, OpenEvent::Connected, p, next, action),
    ensures
        next == Some(Opening::Opening),
        action matches OpenAction::OpenSession(config) && config.seed@ == p.node.node_seed@
            && config.host_name@ == p.node.host_name@ && config.http_port == p.node.http_port,
{
}

/// The scheme of a URI is its beginning up to the first colon: no colon is in it, and a colon
/// follows it unless there is none at all.
pub proof fn scheme_ends_at_the_colon(uri: Seq<char>)
    ensures
        has_prefix(uri, scheme_of(uri)),
        !scheme_of(uri).contains(':'),
        uri.contains(':') ==> uri[scheme_of(uri).len() as int] == ':',
        !uri.contains(':') ==> scheme_of(uri) == uri,
{
    first_index_is_least(uri, ':');
    assert(uri.take(scheme_of(uri).len() as int) =~= scheme_of(uri));
    if !uri.contains(':') {
        assert(scheme_of(uri) =~= uri);
    }
}

/// Every phase of an opening can fail, the closing of what was opened too, and none takes an event
/// that belongs to another.
pub proof fn every_phase_may_fail(phase: Opening, e: DaemonError, event: OpenEvent)
    ensures
        phase.expects(OpenEvent::Failed(e)),
        phase.expects(event) && !(event is Failed) ==> {
            &&& event is Connected <==> phase is Connecting
            &&& event is Opened <==> phase is Opening
            &&& event is Registered <==> phase is Registering
            &&& event is Closed <==> phase is RollingBack
        },
        event is Closed && phase is RollingBack ==> phase.expects(event),
        event is Opened && phase is Opening ==> phase.expects(event),
        event is Registered && phase is Registering ==> phase.expects(event),
        event is Connected && phase is Connecting ==> phase.expects(event),
{
}

/// A session serves one resource: what is registered on it is what is synced on it from then on,
/// and nothing else is registered. Where the registration failed there is nothing to sync, and
/// another may be tried. All goes over the session's own handle.
pub proof fn session_serves_one_resource(
    session: Session,
    reply: Result<RegisteredResource, DaemonError>,
    side: Side,
    name: Seq<char>,
    transport: Transport,
    transport_file: Seq<char>,
    state: Option<Seq<char>>,
    first: Result<AddResourceRequest, DaemonError>,
    again: Result<AddResourceRequest, DaemonError>,
    synced: Result<SyncResourceStateRequest, DaemonError>,
)
    requires
        session.adds(side, name, transport, transport_file, first),
        session.noted(reply).adds(side, name, transport, transport_file, again),
        session.noted(reply).syncs(state, synced),
    ensures
        first matches Ok(req) ==> req.session_handle == session.session_handle && req.name@ == name
            && req.transport_file@ == transport_file && req.side == side && req.transport
            == transport,
        session.resource is None ==> first is Ok,
        reply is Ok <==> (again matches Err(e) && e is AlreadyRegistered),
        reply matches Ok(res) ==> (synced matches Ok(req) && req.resource_handle == res.handle
            && req.session_handle == session.session_handle && req.transport_file.deep_view()
            == state),
        reply is Err ==> again is Ok && (synced matches Err(e) && e is NoResource),
        session.noted(reply).session_handle == session.session_handle,
        session.noted(reply).node_id == session.node_id,
        session.noted(reply).created_node == session.created_node,
{
}

} // verus!
