//! Carrying out activations: which chains a sender or receiver element builds and swaps in,
//! in which order, and what it reports.

use crate::caps::{Caps, CapsModel};
use crate::daemon::ActivationOutcome;
use crate::essence_caps::{caps_from, essence_caps};
use crate::flow_def::{
    caps_record, document_caps, document_rate_ok, indicates_wide_receiver_caps,
    try_caps_from_flow_def, wide_tag, FlowDefCapsError, FlowDefCapsErrorModel, RawFlowDefForCaps,
};
use crate::json::json_value;
use crate::nvdsudp::ts_refclk::lines_of;
use crate::sdp::has_wide_marker;
use crate::session::{ActivationAck, ActivationPlan, InnerConfig, TransportConfig, UdpMedia};
use crate::text::{joined, says, says_at};
use vstd::prelude::*;

verus! {

// ---- caps of inner chains ---------------------------------------------------

/// Where the caps of an element's fake chain come from.
#[derive(Debug)]
pub enum FakeCapsSource {
    /// The `caps` property.
    Property(Caps),
    /// The text of a transport file.
    Text(String),
    /// The transport file at a path.
    Path(String),
    Unknown,
}

/// The fake chain's caps come from `r`.
pub open spec fn fake_caps_from(
    caps: Option<CapsModel>,
    transport_file: Seq<char>,
    transport_file_path: Seq<char>,
    r: FakeCapsSource,
) -> bool {
    match r {
        FakeCapsSource::Property(p) => caps == Some(p.deep_view()),
        FakeCapsSource::Text(t) => caps is None && transport_file.len() > 0 && t@
            == transport_file,
        FakeCapsSource::Path(t) => caps is None && transport_file.len() == 0
            && transport_file_path.len() > 0 && t@ == transport_file_path,
        FakeCapsSource::Unknown => caps is None && transport_file.len() == 0
            && transport_file_path.len() == 0,
    }
}

/// Best-available caps for an element's fake chain: the `caps` property, then the literal
/// `transport-file`, then the file at `transport-file-path`.
pub fn fake_caps_source(caps: Option<&Caps>, transport_file: &str, transport_file_path: &str) -> (r:
    FakeCapsSource)
    ensures
        match caps {
            Some(c) => r matches FakeCapsSource::Property(p) && p.deep_view() == c.deep_view(),
            None => if transport_file@.len() > 0 {
                r matches FakeCapsSource::Text(t) && t@ == transport_file@
            } else if transport_file_path@.len() > 0 {
                r matches FakeCapsSource::Path(t) && t@ == transport_file_path@
            } else {
                r is Unknown
            },
        },
        fake_caps_from(
            match caps {
                Some(c) => Some(c.deep_view()),
                None => None,
            },
            transport_file@,
            transport_file_path@,
            r,
        ),
{
    match caps {
        Some(c) => FakeCapsSource::Property(c.copy()),
        None => if !transport_file.is_empty() {
            FakeCapsSource::Text(transport_file.to_owned())
        } else if !transport_file_path.is_empty() {
            FakeCapsSource::Path(transport_file_path.to_owned())
        } else {
            FakeCapsSource::Unknown
        },
    }
}

/// Why no caps follow from a transport file.
#[derive(Debug)]
pub enum CapssetterError {
    Caps(FlowDefCapsError),
    /// The frame rate is no fraction.
    NoFraction,
}

impl CapssetterError {
    /// The wording of the error.
    pub open spec fn text(self) -> Seq<char> {
        match self {
            CapssetterError::Caps(e) => e.deep_view().text(),
            CapssetterError::NoFraction => "transport file `grain_rate` is not a fraction"@,
        }
    }

    /// What is said of the error.
    pub fn message(&self) -> (r: String)
        ensures
            r@ == self.text(),
    {
        match self {
            CapssetterError::Caps(e) => e.message(),
            CapssetterError::NoFraction =>
                "transport file `grain_rate` is not a fraction".to_owned(),
        }
    }
}

/// Whether an MXL transport file marks a wide receiver. A file that cannot be read does
/// not.
pub open spec fn mxl_wide(text: Seq<char>) -> bool {
    json_value(text) matches Ok(v) && wide_tag(v)
}

/// Whether an MXL `flow_def` transport file carries the wide receiver caps tag.
pub fn mxl_indicates_wide_receiver_caps(text: &str) -> (r: bool)
    ensures
        r == mxl_wide(text@),
{
    match indicates_wide_receiver_caps(text) {
        Ok(wide) => wide,
        Err(_) => false,
    }
}

/// What the `capssetter` of an MXL receiver comes to, with `read` for what was read of its
/// transport file.
pub open spec fn mxl_capssetter(
    transport_file: Option<Seq<char>>,
    read: Result<RawFlowDefForCaps, String>,
    r: Result<Option<Caps>, CapssetterError>,
) -> bool {
    match transport_file {
        Some(text) if text.len() > 0 && !mxl_wide(text) => if !document_rate_ok(
            caps_record(read),
        ) {
            r matches Err(e) && e is NoFraction
        } else {
            match r {
                Ok(Some(caps)) => document_caps(caps_record(read)) == Ok::<
                    _,
                    FlowDefCapsErrorModel,
                >(caps.deep_view()),
                Ok(None) => false,
                Err(CapssetterError::Caps(e)) => document_caps(caps_record(read)) == Err::<
                    CapsModel,
                    _,
                >(e.deep_view()),
                Err(CapssetterError::NoFraction) => false,
            }
        },
        _ => r matches Ok(None),
    }
}

/// Caps for the optional `capssetter` of an MXL receiver. A wide receiver has none: its
/// caps come from the flow at runtime. Any other has the essence caps of the same file, of
/// which `read` was read.
pub fn mxl_capssetter_caps(
    transport_file: Option<&str>,
    read: Result<RawFlowDefForCaps, String>,
) -> (r: Result<Option<Caps>, CapssetterError>)
    ensures
        mxl_capssetter(transport_file.deep_view(), read, r),
{
    let text = match transport_file {
        None => {
            return Ok(None);
        },
        Some(t) => t,
    };
    if text.is_empty() || mxl_indicates_wide_receiver_caps(text) {
        return Ok(None);
    }
    match try_caps_from_flow_def(read) {
        None => Err(CapssetterError::NoFraction),
        Some(Ok(caps)) => Ok(Some(caps)),
        Some(Err(e)) => Err(CapssetterError::Caps(e)),
    }
}

/// The caps for the `capssetter` of an RTP receiver.
pub open spec fn udp_capssetter(transport_file: Option<Seq<char>>, media: UdpMedia) -> Option<
    CapsModel,
> {
    match transport_file {
        Some(text) => if text.len() > 0 && has_wide_marker(lines_of(text)) {
            None
        } else {
            Some(media.raw_caps.deep_view())
        },
        None => Some(media.raw_caps.deep_view()),
    }
}

/// Caps for the optional `capssetter` of an RTP receiver. A wide receiver has none: its
/// caps come from the stream at runtime. Any other has the essence caps of the same file.
pub fn udp_capssetter_caps(transport_file: Option<&str>, media: &UdpMedia) -> (r: Option<Caps>)
    ensures
        r.deep_view() == udp_capssetter(transport_file.deep_view(), *media),
{
    let wide: bool = match transport_file {
        Some(text) => !text.is_empty() && crate::sdp::indicates_wide_receiver_caps(text),
        None => false,
    };
    if wide {
        None
    } else {
        Some(media.raw_caps.copy())
    }
}

/// The caps of the fake chain between two real ones.
#[derive(Debug)]
pub enum HopCaps {
    /// What the activation gives: caps, or none to pin.
    Activation(Option<Caps>),
    /// What the element's own settings give.
    Settings,
}

/// Caps for a sender's fake hop: those of the activation's media on an RTP transport, so
/// that the hop matches the chain that follows. An MXL sender goes by its settings.
pub fn intermediate_fake_sink_caps(plan: &ActivationPlan) -> (r: HopCaps)
    ensures
        match plan.inner {
            InnerConfig::Real(TransportConfig::Udp { media, .. }) => (
            r matches HopCaps::Activation(Some(caps)) && caps.deep_view() == essence_caps(
                media.raw_caps.deep_view(),
                Some(media.rtp_caps.deep_view()),
            )),
            InnerConfig::Real(TransportConfig::NvDsUdp { media, .. }) => (
            r matches HopCaps::Activation(Some(caps)) && caps.deep_view() == essence_caps(
                media.raw_caps.deep_view(),
                Some(media.rtp_caps.deep_view()),
            )),
            _ => r is Settings,
        },
{
    match &plan.inner {
        InnerConfig::Real(TransportConfig::Udp { media, .. }) => HopCaps::Activation(
            Some(caps_from(&media.raw_caps, Some(&media.rtp_caps))),
        ),
        InnerConfig::Real(TransportConfig::NvDsUdp { media, .. }) => HopCaps::Activation(
            Some(caps_from(&media.raw_caps, Some(&media.rtp_caps))),
        ),
        _ => HopCaps::Settings,
    }
}

/// Caps for a receiver's fake hop: those that the chain that follows will advertise, with
/// `read` for what was read of the transport file of an MXL activation. A deactivation goes by
/// the element's settings.
pub fn intermediate_fake_src_caps(
    plan: &ActivationPlan,
    read: Result<RawFlowDefForCaps, String>,
) -> (r: Result<HopCaps, CapssetterError>)
    ensures
        match plan.inner {
            InnerConfig::Real(TransportConfig::Mxl { transport_file, .. }) => match r {
                Ok(HopCaps::Activation(caps)) => mxl_capssetter(
                    transport_file.deep_view(),
                    read,
                    Ok(caps),
                ),
                Ok(HopCaps::Settings) => false,
                Err(e) => mxl_capssetter(transport_file.deep_view(), read, Err(e)),
            },
            InnerConfig::Real(TransportConfig::Udp { transport_file, media, .. }) => (
            r matches Ok(HopCaps::Activation(caps)) && caps.deep_view() == udp_capssetter(
                transport_file.deep_view(),
                media,
            )),
            InnerConfig::Real(TransportConfig::NvDsUdp { media, .. }) => (
            r matches Ok(HopCaps::Activation(Some(caps))) && caps.deep_view()
                == media.raw_caps.deep_view()),
            InnerConfig::Fake { .. } => r matches Ok(HopCaps::Settings),
        },
{
    match &plan.inner {
        InnerConfig::Real(TransportConfig::Mxl { transport_file, .. }) => {
            let text: Option<&str> = match transport_file {
                Some(t) => Some(t.as_str()),
                None => None,
            };
            match mxl_capssetter_caps(text, read) {
                Ok(caps) => Ok(HopCaps::Activation(caps)),
                Err(e) => Err(e),
            }
        },
        InnerConfig::Real(TransportConfig::Udp { transport_file, media, .. }) => {
            let text: Option<&str> = match transport_file {
                Some(t) => Some(t.as_str()),
                None => None,
            };
            Ok(HopCaps::Activation(udp_capssetter_caps(text, media)))
        },
        InnerConfig::Real(TransportConfig::NvDsUdp { media, .. }) => Ok(
            HopCaps::Activation(Some(media.raw_caps.copy())),
        ),
        InnerConfig::Fake { .. } => Ok(HopCaps::Settings),
    }
}

// ---- activations ------------------------------------------------------------

/// Which element carries out an activation.
#[derive(Debug, Clone, Copy, PartialEq, Eq, Structural)]
pub enum ElementKind {
    Sink,
    Src,
}

/// The kind of chain that an activation leads to.
#[derive(Debug, Clone, Copy, PartialEq, Eq, Structural)]
pub enum TargetChain {
    Mxl,
    Udp,
    NvDsUdp,
    Fake,
}

pub open spec fn target_of(inner: InnerConfig) -> TargetChain {
    match inner {
        InnerConfig::Real(TransportConfig::Mxl { .. }) => TargetChain::Mxl,
        InnerConfig::Real(TransportConfig::Udp { .. }) => TargetChain::Udp,
        InnerConfig::Real(TransportConfig::NvDsUdp { .. }) => TargetChain::NvDsUdp,
        InnerConfig::Fake { .. } => TargetChain::Fake,
    }
}

/// The kind of chain that a configuration asks for.
pub fn target_chain(inner: &InnerConfig) -> (r: TargetChain)
    ensures
        r == target_of(*inner),
{
    match inner {
        InnerConfig::Real(TransportConfig::Mxl { .. }) => TargetChain::Mxl,
        InnerConfig::Real(TransportConfig::Udp { .. }) => TargetChain::Udp,
        InnerConfig::Real(TransportConfig::NvDsUdp { .. }) => TargetChain::NvDsUdp,
        InnerConfig::Fake { .. } => TargetChain::Fake,
    }
}

/// What an activation is doing.
#[derive(Debug, Clone, Copy, PartialEq, Eq, Structural)]
pub enum ActivationStage {
    /// Building a fake chain to go between two real ones.
    BuildHop,
    /// Swapping it in.
    SwapHop,
    /// Building the chain that the activation asks for.
    BuildChain,
    /// Swapping it in.
    SwapChain,
    /// Building a fake chain, after the swap failed.
    BuildRestore,
    /// Swapping it in.
    SwapRestore,
}

/// An activation under way.
#[derive(Debug)]
pub struct Activation {
    pub element: ElementKind,
    pub target: TargetChain,
    /// Downstream peers are drained before a swap.
    pub drain: bool,
    pub stage: ActivationStage,
    /// Why the activation has failed, once it has.
    pub failure: Option<String>,
}

/// What came of what an activation was doing.
#[derive(Debug)]
pub enum StageEvent {
    Done,
    /// The caps of the chain could not be derived.
    CapsFailed(String),
    Failed(String),
}

/// What to do next in an activation.
#[derive(Debug)]
pub enum StageAction {
    /// Build the chain for the stage.
    Build,
    /// Swap in what was built.
    Swap { drain_downstream: bool },
    Finish(ActivationOutcome),
}

pub open spec fn element_name(element: ElementKind) -> Seq<char> {
    match element {
        ElementKind::Sink => "nmossink: "@,
        ElementKind::Src => "nmossrc: "@,
    }
}

/// What is said of a failure in a stage.
pub open spec fn stage_reason(
    element: ElementKind,
    target: TargetChain,
    stage: ActivationStage,
    event: StageEvent,
) -> Seq<char> {
    let what = match stage {
        ActivationStage::BuildHop => "building intermediate fake chain: "@,
        ActivationStage::SwapHop => "intermediate fake-chain swap failed: "@,
        ActivationStage::BuildChain => match (element, target) {
            (_, TargetChain::Fake) => "building fake chain: "@,
            (ElementKind::Src, TargetChain::Udp) => "building inner udpsrc: "@,
            (ElementKind::Src, TargetChain::NvDsUdp) => "building inner nvdsudpsrc: "@,
            (ElementKind::Src, TargetChain::Mxl) => if event is CapsFailed {
                "deriving caps from activation transport file: "@
            } else {
                "building inner transport chain: "@
            },
            _ => "building inner transport chain: "@,
        },
        _ => "swapping inner element: "@,
    };
    let why = match event {
        StageEvent::Done => Seq::empty(),
        StageEvent::CapsFailed(e) => e@,
        StageEvent::Failed(e) => e@,
    };
    element_name(element) + what + why
}

impl Activation {
    /// Where an activation starts. An activation from a real chain to another one goes by
    /// way of a fake chain, so that the transport's state of the old chain is released
    /// before the new one is set up.
    pub open spec fn started(
        self,
        element: ElementKind,
        target: TargetChain,
        from_real: bool,
        playing: bool,
    ) -> bool {
        &&& self.element == element
        &&& self.target == target
        &&& self.drain == (element == ElementKind::Src && (from_real || target != TargetChain::Fake)
            && playing)
        &&& self.stage == if from_real && target != TargetChain::Fake {
            ActivationStage::BuildHop
        } else {
            ActivationStage::BuildChain
        }
        &&& self.failure is None
    }

    /// Start an activation. `from_real` says whether the element's chain is a real one now,
    /// `playing` whether the element is in the PLAYING state.
    pub fn begin(
        element: ElementKind,
        plan: &ActivationPlan,
        from_real: bool,
        playing: bool,
    ) -> (r: (Activation, StageAction))
        ensures
            r.0.started(element, target_of(plan.inner), from_real, playing),
            r.1 is Build,
    {
        let target = target_chain(&plan.inner);
        let to_real: bool = target != TargetChain::Fake;
        (
            Activation {
                element,
                target,
                drain: element == ElementKind::Src && (from_real || to_real) && playing,
                stage: if from_real && to_real {
                    ActivationStage::BuildHop
                } else {
                    ActivationStage::BuildChain
                },
                failure: None,
            },
            StageAction::Build,
        )
    }

    /// The failure is known exactly while the fake chain is being restored.
    pub open spec fn wf(&self) -> bool {
        (self.failure is Some) == (self.stage == ActivationStage::BuildRestore || self.stage
            == ActivationStage::SwapRestore)
    }

    /// One step of an activation: what it was doing came to `event`; it goes on as `next`,
    /// if it goes on, with `action`.
    pub open spec fn steps(
        self,
        event: StageEvent,
        ack: ActivationAck,
        next: Option<Activation>,
        action: StageAction,
    ) -> bool {
        let reason = stage_reason(self.element, self.target, self.stage, event);
        match (self.stage, event) {
            (ActivationStage::BuildHop, StageEvent::Done) => next == Some(
                Activation { stage: ActivationStage::SwapHop, ..self },
            ) && action == (StageAction::Swap { drain_downstream: self.drain }),
            (ActivationStage::SwapHop, StageEvent::Done) => next == Some(
                Activation { stage: ActivationStage::BuildChain, ..self },
            ) && action is Build,
            (ActivationStage::BuildChain, StageEvent::Done) => next == Some(
                Activation { stage: ActivationStage::SwapChain, ..self },
            ) && action == (StageAction::Swap { drain_downstream: self.drain }),
            (ActivationStage::SwapChain, StageEvent::Done) => next is None && match ack {
                ActivationAck::Success => action == StageAction::Finish(ActivationOutcome::Applied),
                ActivationAck::Failure { reason } => action == StageAction::Finish(
                    ActivationOutcome::Failed { reason },
                ),
            },
            (ActivationStage::SwapChain, _) => action is Build && match next {
                Some(n) => n.failure is Some && n.failure->0@ == reason && n == (Activation {
                    stage: ActivationStage::BuildRestore,
                    failure: n.failure,
                    ..self
                }),
                None => false,
            },
            (ActivationStage::BuildRestore, StageEvent::Done) => next == Some(
                Activation { stage: ActivationStage::SwapRestore, ..self },
            ) && action == (StageAction::Swap { drain_downstream: false }),
            (ActivationStage::BuildRestore, _) => next is None && action == StageAction::Finish(
                ActivationOutcome::Failed { reason: self.failure->0 },
            ),
            (ActivationStage::SwapRestore, _) => next is None && action == StageAction::Finish(
                ActivationOutcome::Failed { reason: self.failure->0 },
            ),
            _ => next is None && (action matches StageAction::Finish(ActivationOutcome::Failed {
                reason: said,
            }) && said@ == reason),
        }
    }

    /// Carry an activation on. A failed swap leaves the element on a fresh fake chain, if
    /// one can be swapped in, and the activation has failed either way.
    pub fn advance(self, event: StageEvent, ack: &ActivationAck) -> (r: (
        Option<Activation>,
        StageAction,
    ))
        requires
            self.wf(),
        ensures
            self.steps(event, *ack, r.0, r.1),
            r.0 matches Some(next) ==> next.wf(),
    {
        match self.stage {
            ActivationStage::BuildHop => match event {
                StageEvent::Done => {
                    let drain: bool = self.drain;
                    (
                        Some(self.at(ActivationStage::SwapHop)),
                        StageAction::Swap { drain_downstream: drain },
                    )
                },
                _ => (None, self.fail(event)),
            },
            ActivationStage::SwapHop => match event {
                StageEvent::Done => (
                    Some(self.at(ActivationStage::BuildChain)),
                    StageAction::Build,
                ),
                _ => (None, self.fail(event)),
            },
            ActivationStage::BuildChain => match event {
                StageEvent::Done => {
                    let drain: bool = self.drain;
                    (
                        Some(self.at(ActivationStage::SwapChain)),
                        StageAction::Swap { drain_downstream: drain },
                    )
                },
                _ => (None, self.fail(event)),
            },
            ActivationStage::SwapChain => match event {
                StageEvent::Done => match ack {
                    ActivationAck::Success => (
                        None,
                        StageAction::Finish(ActivationOutcome::Applied),
                    ),
                    ActivationAck::Failure { reason } => (
                        None,
                        StageAction::Finish(ActivationOutcome::Failed { reason: reason.clone() }),
                    ),
                },
                _ => {
                    let reason = self.reason(event);
                    (
                        Some(
                            Activation {
                                element: self.element,
                                target: self.target,
                                drain: self.drain,
                                stage: ActivationStage::BuildRestore,
                                failure: Some(reason),
                            },
                        ),
                        StageAction::Build,
                    )
                },
            },
            ActivationStage::BuildRestore => match event {
                StageEvent::Done => (
                    Some(self.at(ActivationStage::SwapRestore)),
                    StageAction::Swap { drain_downstream: false },
                ),
                _ => (None, self.give_up()),
            },
            ActivationStage::SwapRestore => (None, self.give_up()),
        }
    }

    fn at(self, stage: ActivationStage) -> (r: Activation)
        ensures
            r == (Activation { stage, ..self }),
    {
        Activation {
            element: self.element,
            target: self.target,
            drain: self.drain,
            stage,
            failure: self.failure,
        }
    }

    fn give_up(self) -> (r: StageAction)
        requires
            self.failure is Some,
        ensures
            r == StageAction::Finish(ActivationOutcome::Failed { reason: self.failure->0 }),
    {
        match self.failure {
            Some(reason) => StageAction::Finish(ActivationOutcome::Failed { reason }),
            None => StageAction::Finish(ActivationOutcome::Applied),
        }
    }

    fn reason(&self, event: StageEvent) -> (r: String)
        ensures
            r@ == stage_reason(self.element, self.target, self.stage, event),
    {
        let name: &str = match self.element {
            ElementKind::Sink => "nmossink: ",
            ElementKind::Src => "nmossrc: ",
        };
        let caps_failed: bool = match &event {
            StageEvent::CapsFailed(_) => true,
            _ => false,
        };
        let what: &str = match self.stage {
            ActivationStage::BuildHop => "building intermediate fake chain: ",
            ActivationStage::SwapHop => "intermediate fake-chain swap failed: ",
            ActivationStage::BuildChain => match self.target {
                TargetChain::Fake => "building fake chain: ",
                TargetChain::Udp => match self.element {
                    ElementKind::Src => "building inner udpsrc: ",
                    ElementKind::Sink => "building inner transport chain: ",
                },
                TargetChain::NvDsUdp => match self.element {
                    ElementKind::Src => "building inner nvdsudpsrc: ",
                    ElementKind::Sink => "building inner transport chain: ",
                },
                TargetChain::Mxl => match self.element {
                    ElementKind::Src => if caps_failed {
                        "deriving caps from activation transport file: "
                    } else {
                        "building inner transport chain: "
                    },
                    ElementKind::Sink => "building inner transport chain: ",
                },
            },
            _ => "swapping inner element: ",
        };
        let mut r = joined(name, what);
        match event {
            StageEvent::Done => {
                assert(r@ =~= r@ + Seq::<char>::empty());
            },
            StageEvent::CapsFailed(e) => r.append(e.as_str()),
            StageEvent::Failed(e) => r.append(e.as_str()),
        }
        r
    }

    fn fail(self, event: StageEvent) -> (r: StageAction)
        ensures
            r matches StageAction::Finish(ActivationOutcome::Failed { reason }) && reason@
                == stage_reason(self.element, self.target, self.stage, event),
    {
        StageAction::Finish(ActivationOutcome::Failed { reason: self.reason(event) })
    }

    /// How many events may still come.
    pub open spec fn remaining(self) -> nat {
        match self.stage {
            ActivationStage::BuildHop => 6,
            ActivationStage::SwapHop => 5,
            ActivationStage::BuildChain => 4,
            ActivationStage::SwapChain => 3,
            ActivationStage::BuildRestore => 2,
            ActivationStage::SwapRestore => 1,
        }
    }
}

/// An activation comes to an end: each event leaves fewer to come, or ends it.
pub proof fn activation_ends(
    a: Activation,
    event: StageEvent,
    ack: ActivationAck,
    next: Option<Activation>,
    action: StageAction,
)
    requires
        a.wf(),
        a.steps(event, ack, next, action),
    ensures
        next matches Some(n) ==> n.remaining() < a.remaining(),
        next is None <==> action is Finish,
{
}

/// An activation is reported as applied only when the chain it asks for was swapped in and
/// its plan is to answer with success.
pub proof fn applied_means_swapped(
    a: Activation,
    event: StageEvent,
    ack: ActivationAck,
    next: Option<Activation>,
    action: StageAction,
)
    requires
        a.wf(),
        a.steps(event, ack, next, action),
        action == StageAction::Finish(ActivationOutcome::Applied),
    ensures
        a.stage == ActivationStage::SwapChain,
        event is Done,
        ack is Success,
{
}

/// A fake chain always goes between two real ones: an activation that starts on a real
/// chain and leads to one comes to build the latter only once the fake chain was swapped
/// in.
pub proof fn real_to_real_goes_by_way_of_fake(
    start: Activation,
    element: ElementKind,
    target: TargetChain,
    playing: bool,
    a: Activation,
    event: StageEvent,
    ack: ActivationAck,
    next: Activation,
    action: StageAction,
)
    requires
        start.started(element, target, true, playing),
        target != TargetChain::Fake,
        a.wf(),
        a.steps(event, ack, Some(next), action),
        next.stage == ActivationStage::BuildChain,
    ensures
        start.stage == ActivationStage::BuildHop,
        a.stage == ActivationStage::SwapHop,
        event is Done,
{
}

/// A failed swap is always followed by an attempt to restore a fake chain, and whatever
/// comes of it the activation is reported as failed for the swap's own reason.
pub proof fn failed_swap_is_reported(
    a: Activation,
    event: StageEvent,
    ack: ActivationAck,
    next: Option<Activation>,
    action: StageAction,
    event2: StageEvent,
    next2: Option<Activation>,
    action2: StageAction,
)
    requires
        a.wf(),
        a.stage == ActivationStage::SwapChain,
        !(event is Done),
        a.steps(event, ack, next, action),
        next matches Some(n) && n.steps(event2, ack, next2, action2),
    ensures
        action is Build,
        next2 matches Some(n2) ==> n2.stage == ActivationStage::SwapRestore && n2.failure is Some
            && n2.failure->0@ == stage_reason(a.element, a.target, a.stage, event),
        next2 is None ==> (action2 matches StageAction::Finish(ActivationOutcome::Failed { reason })
            && reason@ == stage_reason(a.element, a.target, a.stage, event)),
{
}

// ---- installing the first chain ---------------------------------------------

/// What an element is doing when its session has just been opened.
#[derive(Debug, Clone, Copy, PartialEq, Eq, Structural)]
pub enum InstallStage {
    BuildReal,
    SwapReal,
    /// Telling the daemon that the resource is active.
    SyncActive,
    /// Finding out the caps of the fake chain.
    ResolveFakeCaps,
    BuildFake,
    SwapFake,
}

/// What came of it.
#[derive(Debug)]
pub enum InstallEvent {
    Done,
    /// The caps of the fake chain are not known yet.
    CapsUnknown,
    Failed(String),
}

/// What follows: another stage, or the end.
#[derive(Debug)]
pub enum InstallAction {
    Go(InstallStage),
    Finish(Result<(), String>),
}

/// The chain to install once the session is open. A configuration that is complete brings
/// up the real chain, and the daemon is then told; else the fake chain is pinned to the
/// essence caps, where they are known.
pub fn install_start(outcome: &InnerConfig) -> (r: InstallStage)
    ensures
        r == match *outcome {
            InnerConfig::Real(_) => InstallStage::BuildReal,
            InnerConfig::Fake { .. } => InstallStage::ResolveFakeCaps,
        },
{
    match outcome {
        InnerConfig::Real(_) => InstallStage::BuildReal,
        InnerConfig::Fake { .. } => InstallStage::ResolveFakeCaps,
    }
}

/// What follows a stage.
pub open spec fn install_steps(stage: InstallStage, event: InstallEvent, action: InstallAction)
    -> bool {
    match (stage, event) {
        // The chain is up already: that the daemon could not be told does not undo it.
        (InstallStage::SyncActive, _) => action == InstallAction::Finish(Ok(())),
        (_, InstallEvent::Failed(e)) => action == InstallAction::Finish(Err(e)),
        (InstallStage::BuildReal, _) => action == InstallAction::Go(InstallStage::SwapReal),
        (InstallStage::SwapReal, _) => action == InstallAction::Go(InstallStage::SyncActive),
        (InstallStage::ResolveFakeCaps, InstallEvent::CapsUnknown) => action
            == InstallAction::Finish(Ok(())),
        (InstallStage::ResolveFakeCaps, _) => action == InstallAction::Go(InstallStage::BuildFake),
        (InstallStage::BuildFake, _) => action == InstallAction::Go(InstallStage::SwapFake),
        (InstallStage::SwapFake, _) => action == InstallAction::Finish(Ok(())),
    }
}

/// What follows a stage.
pub fn install_advance(stage: InstallStage, event: InstallEvent) -> (action: InstallAction)
    ensures
        install_steps(stage, event, action),
{
    if stage == InstallStage::SyncActive {
        return InstallAction::Finish(Ok(()));
    }
    match event {
        InstallEvent::Failed(e) => InstallAction::Finish(Err(e)),
        InstallEvent::CapsUnknown => match stage {
            InstallStage::BuildReal => InstallAction::Go(InstallStage::SwapReal),
            InstallStage::SwapReal => InstallAction::Go(InstallStage::SyncActive),
            InstallStage::BuildFake => InstallAction::Go(InstallStage::SwapFake),
            _ => InstallAction::Finish(Ok(())),
        },
        InstallEvent::Done => match stage {
            InstallStage::BuildReal => InstallAction::Go(InstallStage::SwapReal),
            InstallStage::SwapReal => InstallAction::Go(InstallStage::SyncActive),
            InstallStage::ResolveFakeCaps => InstallAction::Go(InstallStage::BuildFake),
            InstallStage::BuildFake => InstallAction::Go(InstallStage::SwapFake),
            _ => InstallAction::Finish(Ok(())),
        },
    }
}

/// The daemon is told that a resource is active only after its real chain was swapped in.
pub proof fn synced_after_swap(stage: InstallStage, event: InstallEvent, action: InstallAction)
    requires
        install_steps(stage, event, action),
        action == InstallAction::Go(InstallStage::SyncActive),
    ensures
        stage == InstallStage::SwapReal,
        !(event is Failed),
{
}

// ---- deferred senders -------------------------------------------------------

/// Whether a sender registers itself from its upstream peer's caps: its session is open
/// without a resource, and neither a transport file nor caps were supplied.
pub fn deferred_sender_applies(
    session_open: bool,
    resource_added: bool,
    transport_file: &str,
    transport_file_path: &str,
    caps_set: bool,
) -> (r: bool)
    ensures
        r == (session_open && !resource_added && transport_file@.len() == 0
            && transport_file_path@.len() == 0 && !caps_set),
{
    session_open && !resource_added && transport_file.is_empty() && transport_file_path.is_empty()
        && !caps_set
}

// ---- more laws --------------------------------------------------------------

/// An activation stays what it is: through every step the element, the chain it leads to and
/// whether its swaps are drained stay as they were.
pub proof fn activation_keeps_its_course(
    a: Activation,
    event: StageEvent,
    ack: ActivationAck,
    next: Activation,
    action: StageAction,
)
    requires
        a.wf(),
        a.steps(event, ack, Some(next), action),
    ensures
        next.element == a.element,
        next.target == a.target,
        next.drain == a.drain,
{
}

/// A swap is drained exactly where a playing receiver leaves a real chain or comes to one; what
/// is restored after a failure is swapped in without.
pub proof fn playing_receivers_are_drained(
    start: Activation,
    element: ElementKind,
    target: TargetChain,
    from_real: bool,
    playing: bool,
    a: Activation,
    event: StageEvent,
    ack: ActivationAck,
    next: Option<Activation>,
    action: StageAction,
)
    requires
        start.started(element, target, from_real, playing),
        a.wf(),
        a.element == start.element,
        a.target == start.target,
        a.drain == start.drain,
        a.steps(event, ack, next, action),
        action is Swap,
    ensures
        event is Done,
        a.stage == ActivationStage::BuildHop || a.stage == ActivationStage::BuildChain || a.stage
            == ActivationStage::BuildRestore,
        action->drain_downstream <==> element == ElementKind::Src && playing && (from_real || target
            != TargetChain::Fake) && a.stage != ActivationStage::BuildRestore,
{
}

/// An activation that meets no failure builds its chain, swaps it in and is answered as its plan
/// says.
pub proof fn undisturbed_activation_is_answered_by_plan(
    a: Activation,
    ack: ActivationAck,
    b: Activation,
    first: StageAction,
    last: Option<Activation>,
    second: StageAction,
)
    requires
        a.wf(),
        a.stage == ActivationStage::BuildChain,
        a.steps(StageEvent::Done, ack, Some(b), first),
        b.steps(StageEvent::Done, ack, last, second),
    ensures
        first is Swap,
        last is None,
        ack is Success ==> second == StageAction::Finish(ActivationOutcome::Applied),
        ack matches ActivationAck::Failure { reason } ==> second == StageAction::Finish(
            ActivationOutcome::Failed { reason },
        ),
{
}

/// A chain that cannot be built is not swapped in: the activation ends there, as failed.
pub proof fn failed_build_ends_the_activation(
    a: Activation,
    event: StageEvent,
    ack: ActivationAck,
    next: Option<Activation>,
    action: StageAction,
)
    requires
        a.wf(),
        a.steps(event, ack, next, action),
        a.stage == ActivationStage::BuildHop || a.stage == ActivationStage::BuildChain || a.stage
            == ActivationStage::SwapHop,
        !(event is Done),
    ensures
        next is None,
        action matches StageAction::Finish(ActivationOutcome::Failed { reason }) && reason@
            == stage_reason(a.element, a.target, a.stage, event),
{
}

/// A reason says which element failed, and ends with what went wrong.
pub proof fn reasons_end_with_the_cause(
    element: ElementKind,
    target: TargetChain,
    stage: ActivationStage,
    event: StageEvent,
    cause: Seq<char>,
)
    requires
        (event matches StageEvent::Failed(e) && e@ == cause) || (
        event matches StageEvent::CapsFailed(e) && e@ == cause),
    ensures
        ({
            let reason = stage_reason(element, target, stage, event);
            &&& reason.len() >= cause.len()
            &&& reason.skip(reason.len() - cause.len()) == cause
            &&& element == ElementKind::Sink ==> reason.take(10) == "nmossink: "@
            &&& element == ElementKind::Src ==> reason.take(9) == "nmossrc: "@
        }),
{
    reveal_strlit("nmossink: ");
    reveal_strlit("nmossrc: ");
    assert("nmossink: "@.len() == 10 && "nmossrc: "@.len() == 9);
    let reason = stage_reason(element, target, stage, event);
    assert(reason.skip(reason.len() - cause.len()) =~= cause);
    assert(element == ElementKind::Sink ==> reason.take(10) =~= "nmossink: "@);
    assert(element == ElementKind::Src ==> reason.take(9) =~= "nmossrc: "@);
}

/// A receiver advertises the caps of its description unless that marks it as wide.
pub proof fn narrow_receivers_advertise_their_caps(
    transport_file: Option<Seq<char>>,
    media: UdpMedia,
)
    ensures
        udp_capssetter(transport_file, media) is None <==> (transport_file matches Some(text)
            && text.len() > 0 && has_wide_marker(lines_of(text))),
        udp_capssetter(transport_file, media) matches Some(caps) ==> caps
            == media.raw_caps.deep_view(),
{
}

/// The first chain goes up in order, and what goes wrong on the way is reported: only that the
/// daemon could not be told is not, for the chain is up by then.
pub proof fn install_failures_are_reported(
    stage: InstallStage,
    why: String,
    failed: InstallAction,
    done: InstallAction,
)
    requires
        install_steps(stage, InstallEvent::Failed(why), failed),
        install_steps(stage, InstallEvent::Done, done),
    ensures
        stage != InstallStage::SyncActive ==> failed == InstallAction::Finish(Err(why)),
        stage == InstallStage::SyncActive ==> failed == InstallAction::Finish(Ok(())),
        done is Finish <==> stage == InstallStage::SyncActive || stage == InstallStage::SwapFake,
        done matches InstallAction::Finish(r) ==> r is Ok,
        stage == InstallStage::BuildReal ==> done == InstallAction::Go(InstallStage::SwapReal),
        stage == InstallStage::BuildFake ==> done == InstallAction::Go(InstallStage::SwapFake),
{
}

/// A real configuration leads to the chain of its transport, and a fake one to a fake chain.
pub proof fn configurations_lead_to_their_chains(inner: InnerConfig)
    ensures
        target_of(inner) == TargetChain::Fake <==> inner is Fake,
        target_of(inner) == TargetChain::Mxl <==> (inner matches InnerConfig::Real(t) && t is Mxl),
        target_of(inner) == TargetChain::Udp <==> (inner matches InnerConfig::Real(t) && t is Udp),
        target_of(inner) == TargetChain::NvDsUdp <==> (inner matches InnerConfig::Real(t)
            && t is NvDsUdp),
{
}

/// An MXL receiver advertises the caps of its transport file, and none where there is no file or
/// the file marks the receiver as wide.
pub proof fn mxl_receivers_advertise_their_caps(
    transport_file: Option<Seq<char>>,
    read: Result<RawFlowDefForCaps, String>,
    r: Result<Option<Caps>, CapssetterError>,
)
    requires
        mxl_capssetter(transport_file, read, r),
    ensures
        r matches Ok(None) <==> transport_file is None || transport_file->0.len() == 0 || mxl_wide(
            transport_file->0,
        ),
        r matches Ok(Some(caps)) ==> document_caps(caps_record(read)) == Ok::<
            CapsModel,
            FlowDefCapsErrorModel,
        >(caps.deep_view()),
{
}

/// `stage` builds a chain.
pub open spec fn builds(stage: ActivationStage) -> bool {
    stage == ActivationStage::BuildHop || stage == ActivationStage::BuildChain
}

/// What is said of a failure names the element, what failed (a build, a swap or the reading of
/// the transport file) and, where it was a fake chain, that it was one.
pub proof fn reasons_name_what_failed(
    element: ElementKind,
    target: TargetChain,
    stage: ActivationStage,
    e: String,
)
    ensures
        ({
            let said = stage_reason(element, target, stage, StageEvent::Failed(e));
            &&& element == ElementKind::Sink ==> says(said, "nmossink"@)
            &&& element == ElementKind::Src ==> says(said, "nmossrc"@)
            &&& builds(stage) ==> says(said, "building"@)
            &&& stage == ActivationStage::SwapHop || stage == ActivationStage::SwapChain ==> says(
                said,
                "swap"@,
            )
            &&& stage == ActivationStage::BuildHop || stage == ActivationStage::SwapHop || (stage
                == ActivationStage::BuildChain && target == TargetChain::Fake) ==> says(
                said,
                "fake"@,
            )
            &&& element == ElementKind::Src && stage == ActivationStage::BuildChain && target
                == TargetChain::Udp ==> says(said, "inner udpsrc"@)
            &&& element == ElementKind::Src && stage == ActivationStage::BuildChain && target
                == TargetChain::NvDsUdp ==> says(said, "inner nvdsudpsrc"@)
        }),
        element == ElementKind::Src && target == TargetChain::Mxl ==> says(
            stage_reason(
                element,
                target,
                ActivationStage::BuildChain,
                StageEvent::CapsFailed(e),
            ),
            "transport file"@,
        ),
{
    reveal_strlit("nmossink: ");
    reveal_strlit("nmossrc: ");
    reveal_strlit("nmossink");
    reveal_strlit("nmossrc");
    reveal_strlit("building");
    reveal_strlit("swap");
    reveal_strlit("fake");
    reveal_strlit("inner udpsrc");
    reveal_strlit("inner nvdsudpsrc");
    reveal_strlit("transport file");
    reveal_strlit("building intermediate fake chain: ");
    reveal_strlit("intermediate fake-chain swap failed: ");
    reveal_strlit("building fake chain: ");
    reveal_strlit("building inner udpsrc: ");
    reveal_strlit("building inner nvdsudpsrc: ");
    reveal_strlit("building inner transport chain: ");
    reveal_strlit("deriving caps from activation transport file: ");
    reveal_strlit("swapping inner element: ");
    let said = stage_reason(element, target, stage, StageEvent::Failed(e));
    let n = element_name(element).len() as int;
    match element {
        ElementKind::Sink => says_at(said, "nmossink"@, 0),
        ElementKind::Src => says_at(said, "nmossrc"@, 0),
    }
    match stage {
        ActivationStage::BuildHop => {
            says_at(said, "building"@, n);
            says_at(said, "fake"@, n + 22);
        },
        ActivationStage::SwapHop => {
            says_at(said, "fake"@, n + 13);
            says_at(said, "swap"@, n + 24);
        },
        ActivationStage::BuildChain => {
            says_at(said, "building"@, n);
            if target == TargetChain::Fake {
                says_at(said, "fake"@, n + 9);
            } else if element == ElementKind::Src && target == TargetChain::Udp {
                says_at(said, "inner udpsrc"@, n + 9);
            } else if element == ElementKind::Src && target == TargetChain::NvDsUdp {
                says_at(said, "inner nvdsudpsrc"@, n + 9);
            }
        },
        ActivationStage::SwapChain => says_at(said, "swap"@, n),
        _ => {},
    }
    if element == ElementKind::Src && target == TargetChain::Mxl {
        let derived = stage_reason(
            element,
            target,
            ActivationStage::BuildChain,
            StageEvent::CapsFailed(e),
        );
        says_at(derived, "transport file"@, n + 30);
    }
}

/// What is nearest counts: the caps that were set, whatever files there are; without them the
/// file that was given as text, whatever path there is; without it the path. Only where none was
/// given are the caps unknown.
pub proof fn nearest_caps_count(
    caps: Option<CapsModel>,
    transport_file: Seq<char>,
    transport_file_path: Seq<char>,
    r: FakeCapsSource,
)
    requires
        fake_caps_from(caps, transport_file, transport_file_path, r),
    ensures
        caps is Some ==> (r matches FakeCapsSource::Property(p) && p.deep_view() == caps->0),
        caps is None && transport_file.len() > 0 ==> (r matches FakeCapsSource::Text(t) && t@
            == transport_file),
        caps is None && transport_file.len() == 0 && transport_file_path.len() > 0 ==> (
        r matches FakeCapsSource::Path(t) && t@ == transport_file_path),
        r is Unknown ==> caps is None && transport_file.len() == 0 && transport_file_path.len()
            == 0,
{
}

} // verus!
