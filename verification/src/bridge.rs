//! The event bridge: the long-lived connection over which the backend sends
//! its notifications.
//!
//! The bridge is a state machine that never acts by itself. It hands its host
//! one command at a time (open the channel, exchange a request for a
//! response, await a frame, sleep) together with the events and record lines
//! that are due, and the host reports how the command went. No outcome ends
//! the machine: whatever fails, it tells the host at which stage, lets the
//! connection go and opens the channel again.
//!
//! While it streams, the bridge takes up a subscription toggle that the host
//! has asked for before it awaits the next frame, and sends it over the same
//! connection: the backend never sees two connections disagree.

use crate::decoder::Frame;
use crate::diag::memory_figures;
use crate::diag::memory_sample;
use crate::envelope::arrival_of;
use crate::envelope::encode_request;
use crate::envelope::hello_params;
use crate::envelope::hello_params_model;
use crate::envelope::is_response;
use crate::envelope::outcome_view;
use crate::envelope::receive;
use crate::envelope::request_model;
use crate::envelope::response_from;
use crate::envelope::route_inbound;
use crate::envelope::routing;
use crate::envelope::subscribe_params;
use crate::envelope::subscribe_params_model;
use crate::envelope::Inbound;
use crate::envelope::Routing;
use crate::events::copy_detail;
use crate::events::describe_fault;
use crate::events::effects_view;
use crate::events::fault_detail;
use crate::events::fault_stage;
use crate::events::Arrival;
use crate::events::Command;
use crate::events::Detail;
use crate::events::Effect;
use crate::events::HostEvent;
use crate::events::LogLine;
use crate::events::ReadFault;
use crate::events::Stage;
use crate::events::ToggleStage;
use crate::framing::frame;
use crate::json::json_text;
use crate::json::JsonModel;
use crate::retry::RECONNECT_DELAY_MS;
use crate::subscription::SubscriptionState;
use vstd::prelude::*;

verus! {

/// Where the bridge stands: which outcome it awaits.
#[derive(Clone, Copy, Debug, PartialEq, Eq)]
pub enum BridgeState {
    /// No connection; the channel is being opened.
    Disconnected,
    /// No connection; the bridge sleeps before it opens the channel again.
    Waiting,
    /// Connected; the handshake was sent.
    Handshaking,
    /// Connected; the toggle that follows the handshake was sent.
    SubscriptionInit { enable: bool },
    /// Connected and streaming; a toggle that the host asked for was sent.
    Toggling { enable: bool },
    /// Connected and streaming; the next frame is awaited.
    Streaming,
}

/// The event bridge.
#[derive(Debug)]
pub struct Bridge {
    pub state: BridgeState,
}

/// What the host is to do: the effects in order, then the command.
#[derive(Debug, PartialEq)]
pub struct Step {
    pub effects: Vec<Effect<String, Vec<u8>, serde_json::Value>>,
    pub command: Command<Vec<u8>>,
}

/// A turn of the machine: where it stands afterwards, and what the host is to
/// do.
pub struct Turn {
    pub state: BridgeState,
    pub effects: Seq<Effect<Seq<char>, Seq<u8>, JsonModel>>,
    pub command: Command<Seq<u8>>,
}

/// The frame of the handshake request under the identifier `id`.
pub open spec fn hello_frame(id: u64) -> Seq<u8> {
    frame(json_text(request_model(id, "hello"@, Some(hello_params_model()))))
}

/// The frame of a subscription toggle under the identifier `id`.
pub open spec fn subscribe_frame(id: u64, enable: bool) -> Seq<u8> {
    frame(json_text(request_model(id, "subscribe_metrics"@, Some(subscribe_params_model(enable)))))
}

/// The connection is let go and the channel opened again.
pub open spec fn reconnect(effects: Seq<Effect<Seq<char>, Seq<u8>, JsonModel>>) -> Turn {
    Turn { state: BridgeState::Disconnected, effects, command: Command::Open }
}

/// Streaming goes on: a toggle that is owed is sent first, else the next
/// frame is awaited.
pub open spec fn resume(
    subscription: SubscriptionState,
    now: u64,
    effects: Seq<Effect<Seq<char>, Seq<u8>, JsonModel>>,
) -> Turn {
    match subscription.pending() {
        Some(enable) => Turn {
            state: BridgeState::Toggling { enable },
            effects: effects.push(
                Effect::Emit(HostEvent::Subscribe { toggle: ToggleStage::Toggle, enable }),
            ),
            command: Command::Exchange(subscribe_frame(now, enable)),
        },
        None => Turn { state: BridgeState::Streaming, effects, command: Command::AwaitFrame },
    }
}

/// What stands against an arrival that was to be a response, if anything:
/// the read failed, or the frame holds no response.
pub open spec fn response_trouble(arrival: Arrival<Seq<char>, Seq<u8>, JsonModel>) -> Option<
    Detail<Seq<char>, Seq<u8>>,
> {
    match arrival {
        Arrival::Fault(fault) => Some(fault_detail(fault)),
        Arrival::Undecodable { header, body } => Some(Detail::Undecodable { header, body }),
        Arrival::Document { header, body, document } => if is_response(document) {
            None
        } else {
            Some(Detail::Undecodable { header, body })
        },
    }
}

/// What stands against the handshake, if anything: what stands against a
/// response, or a response that carries an error.
pub open spec fn hello_trouble(arrival: Arrival<Seq<char>, Seq<u8>, JsonModel>) -> Option<
    Detail<Seq<char>, Seq<u8>>,
> {
    match response_trouble(arrival) {
        Some(detail) => Some(detail),
        None => match arrival {
            Arrival::Document { document, .. } => if document.present_member("error"@) is Some {
                Some(Detail::Refused)
            } else {
                None
            },
            _ => None,
        },
    }
}

/// The channel was opened: the handshake begins. Out of turn, the bridge
/// opens the channel again.
pub open spec fn on_opened(state: BridgeState, now: u64) -> Turn {
    match state {
        BridgeState::Disconnected => Turn {
            state: BridgeState::Handshaking,
            effects: seq![Effect::Emit(HostEvent::Handshake)],
            command: Command::Exchange(hello_frame(now)),
        },
        _ => reconnect(Seq::empty()),
    }
}

/// The channel could not be opened: the host is told, with the delay after
/// which the bridge tries again, and the bridge sleeps that long.
pub open spec fn on_open_failed(state: BridgeState, error: Seq<char>) -> Turn {
    match state {
        BridgeState::Disconnected => Turn {
            state: BridgeState::Waiting,
            effects: seq![
                Effect::Emit(HostEvent::Disconnected { error, retry_in_ms: RECONNECT_DELAY_MS }),
                Effect::Log(LogLine::Disconnected(error)),
            ],
            command: Command::Sleep(RECONNECT_DELAY_MS),
        },
        _ => reconnect(Seq::empty()),
    }
}

/// The handshake was answered, or was not.
pub open spec fn after_hello(
    subscription: SubscriptionState,
    arrival: Arrival<Seq<char>, Seq<u8>, JsonModel>,
    now: u64,
) -> Turn {
    match hello_trouble(arrival) {
        Some(detail) => reconnect(
            seq![
                Effect::Log(LogLine::HelloFailed(detail)),
                Effect::Emit(HostEvent::Error { stage: Stage::Hello, detail }),
            ],
        ),
        None => Turn {
            state: BridgeState::SubscriptionInit { enable: subscription.desired },
            effects: seq![
                Effect::Log(LogLine::HelloOk),
                Effect::Emit(
                    HostEvent::Subscribe { toggle: ToggleStage::Init, enable: subscription.desired },
                ),
            ],
            command: Command::Exchange(subscribe_frame(now, subscription.desired)),
        },
    }
}

/// The toggle that follows the handshake was answered, or was not.
pub open spec fn after_init(
    subscription: SubscriptionState,
    enable: bool,
    arrival: Arrival<Seq<char>, Seq<u8>, JsonModel>,
    now: u64,
) -> Turn {
    match response_trouble(arrival) {
        Some(detail) => reconnect(
            seq![
                Effect::Emit(HostEvent::SubscribeAck { toggle: ToggleStage::Init, ok: false }),
                Effect::Log(LogLine::SubscribeAck { toggle: ToggleStage::Init, enable, ok: false }),
                Effect::Log(LogLine::SubscribeFailed(detail)),
                Effect::Emit(HostEvent::Error { stage: Stage::InitSubscribe, detail }),
            ],
        ),
        None => resume(
            subscription,
            now,
            seq![
                Effect::Emit(HostEvent::SubscribeAck { toggle: ToggleStage::Init, ok: true }),
                Effect::Log(LogLine::SubscribeAck { toggle: ToggleStage::Init, enable, ok: true }),
            ],
        ),
    }
}

/// A toggle that the host asked for was answered, or was not: the outcome is
/// reported and the next frame awaited.
pub open spec fn after_toggle(enable: bool, arrival: Arrival<Seq<char>, Seq<u8>, JsonModel>) -> Turn {
    let ok = response_trouble(arrival) is None;
    Turn {
        state: BridgeState::Streaming,
        effects: seq![
            Effect::Emit(HostEvent::SubscribeAck { toggle: ToggleStage::Toggle, ok }),
            Effect::Log(LogLine::SubscribeAck { toggle: ToggleStage::Toggle, enable, ok }),
        ],
        command: Command::AwaitFrame,
    }
}

/// What is due when a read that was to bring a notification has failed.
pub open spec fn stream_failure(fault: ReadFault<Seq<char>>) -> Seq<
    Effect<Seq<char>, Seq<u8>, JsonModel>,
> {
    let stage = fault_stage(fault);
    let detail = fault_detail(fault);
    let told = seq![Effect::Emit(HostEvent::Error { stage, detail })];
    match stage {
        Stage::ParseHeader => told.push(Effect::Log(LogLine::NoLength)),
        Stage::ReadBody => told.push(Effect::Log(LogLine::ReadBodyFailed(detail))),
        _ => told,
    }
}

/// What is due for a notification: that it has arrived, a record line for
/// the memory figures of a `metrics` notification that has them, and the
/// event itself, named by the method.
pub open spec fn notification_effects(method: Seq<char>, payload: JsonModel, now: u64) -> Seq<
    Effect<Seq<char>, Seq<u8>, JsonModel>,
> {
    let arrived = seq![Effect::Emit(HostEvent::Received { method })];
    let noted = match memory_figures(payload) {
        Some((total_mb, used_mb)) => if method == "metrics"@ {
            arrived.push(Effect::Log(LogLine::Memory { total_mb, used_mb, at: now }))
        } else {
            arrived
        },
        None => arrived,
    };
    noted.push(Effect::Emit(HostEvent::Notification { method, payload }))
}

/// A frame was awaited while streaming. A read that gave none costs the
/// connection. A body that is no JSON is told to the host, and streaming goes
/// on. A notification reaches the host; any other document is passed over.
pub open spec fn after_frame(
    subscription: SubscriptionState,
    arrival: Arrival<Seq<char>, Seq<u8>, JsonModel>,
    now: u64,
) -> Turn {
    match arrival {
        Arrival::Fault(fault) => reconnect(stream_failure(fault)),
        Arrival::Undecodable { header, body } => resume(
            subscription,
            now,
            seq![
                Effect::Emit(
                    HostEvent::Error {
                        stage: Stage::DecodeJson,
                        detail: Detail::Undecodable { header, body },
                    },
                ),
                Effect::Log(LogLine::DecodeFailed),
            ],
        ),
        Arrival::Document { document, .. } => match routing(document) {
            Routing::Notification { method, payload } => resume(
                subscription,
                now,
                notification_effects(method, payload, now),
            ),
            Routing::Unrouted => resume(subscription, now, Seq::empty()),
        },
    }
}

/// Something has arrived. Out of turn, the bridge opens the channel again.
pub open spec fn on_arrival(
    state: BridgeState,
    subscription: SubscriptionState,
    arrival: Arrival<Seq<char>, Seq<u8>, JsonModel>,
    now: u64,
) -> Turn {
    match state {
        BridgeState::Handshaking => after_hello(subscription, arrival, now),
        BridgeState::SubscriptionInit { enable } => after_init(subscription, enable, arrival, now),
        BridgeState::Toggling { enable } => after_toggle(enable, arrival),
        BridgeState::Streaming => after_frame(subscription, arrival, now),
        _ => reconnect(Seq::empty()),
    }
}

/// Whether an arrival lets streaming go on, so that what is owed on the
/// subscription is taken up: an answered init toggle, and any frame that was
/// read while streaming.
pub open spec fn takes_up(state: BridgeState, arrival: Arrival<Seq<char>, Seq<u8>, JsonModel>) -> bool {
    match state {
        BridgeState::SubscriptionInit { .. } => response_trouble(arrival) is None,
        BridgeState::Streaming => !(arrival is Fault),
        _ => false,
    }
}

/// What is owed on the subscription after an arrival.
pub open spec fn owed_after(
    state: BridgeState,
    subscription: SubscriptionState,
    arrival: Arrival<Seq<char>, Seq<u8>, JsonModel>,
) -> SubscriptionState {
    if takes_up(state, arrival) {
        subscription.after_take()
    } else {
        subscription
    }
}

/// Whether the bridge holds a connection.
pub open spec fn is_connected(state: BridgeState) -> bool {
    !(state is Disconnected) && !(state is Waiting)
}

/// Whether one of the effects tells the host of a failure at `stage`.
pub open spec fn tells_failure(
    effects: Seq<Effect<Seq<char>, Seq<u8>, JsonModel>>,
    stage: Stage,
) -> bool {
    exists|i: int|
        0 <= i < effects.len() && (#[trigger] effects[i] matches Effect::Emit(
            HostEvent::Error { stage: told, .. },
        ) && told == stage)
}

/// The stage at which an arrival fails that makes the bridge let its
/// connection go: the handshake, the toggle that follows it, or the part of
/// reading at which a frame was lost.
pub open spec fn failed_stage(
    state: BridgeState,
    arrival: Arrival<Seq<char>, Seq<u8>, JsonModel>,
) -> Stage {
    match state {
        BridgeState::Handshaking => Stage::Hello,
        BridgeState::SubscriptionInit { .. } => Stage::InitSubscribe,
        _ => match arrival {
            Arrival::Fault(fault) => fault_stage(fault),
            _ => Stage::DecodeJson,
        },
    }
}

/// Whenever an arrival makes the bridge let its connection go, the host is
/// told at which stage it failed, and the channel is opened again, so that no
/// failure ends the bridge. And the channel is opened then only: no toggle
/// and no frame goes over a second connection.
pub proof fn law_failure_is_told(
    state: BridgeState,
    subscription: SubscriptionState,
    arrival: Arrival<Seq<char>, Seq<u8>, JsonModel>,
    now: u64,
)
    requires
        is_connected(state),
    ensures
        ({
            let turn = on_arrival(state, subscription, arrival, now);
            &&& turn.state is Disconnected ==> tells_failure(
                turn.effects,
                failed_stage(state, arrival),
            )
            &&& turn.state is Disconnected <==> turn.command == Command::<Seq<u8>>::Open
        }),
{
    let turn = on_arrival(state, subscription, arrival, now);
    if turn.state is Disconnected {
        match state {
            BridgeState::Handshaking => {
                assert(turn.effects[1] is Emit);
            },
            BridgeState::SubscriptionInit { enable } => {
                assert(turn.effects[3] is Emit);
            },
            BridgeState::Streaming => {
                assert(arrival is Fault);
                let told = stream_failure(arrival->Fault_0);
                assert(told[0] is Emit);
                assert(turn.effects[0] == told[0]);
            },
            _ => {},
        }
    }
}

/// A body that is no JSON does not cost the connection: the host is told, and
/// streaming goes on.
pub proof fn law_undecodable_frames_are_passed_over(
    subscription: SubscriptionState,
    header: Seq<u8>,
    body: Seq<u8>,
    now: u64,
)
    ensures
        ({
            let turn = after_frame(subscription, (Arrival::Undecodable { header, body }), now);
            &&& is_connected(turn.state)
            &&& tells_failure(turn.effects, Stage::DecodeJson)
            &&& turn.command != Command::<Seq<u8>>::Open
        }),
{
    let turn = after_frame(subscription, Arrival::Undecodable { header, body }, now);
    assert(turn.effects[0] is Emit);
}

/// A toggle that is owed goes out before the next frame is awaited: when
/// streaming goes on with a toggle owed, the bridge exchanges the toggle for
/// what is wanted at that moment, over the connection it holds, and owes
/// nothing afterwards.
pub proof fn law_toggle_goes_first(
    subscription: SubscriptionState,
    now: u64,
    effects: Seq<Effect<Seq<char>, Seq<u8>, JsonModel>>,
)
    ensures
        ({
            let turn = resume(subscription, now, effects);
            &&& subscription.after_take().pending() is None
            &&& subscription.after_take().desired == subscription.desired
            &&& subscription.dirty ==> turn.command == Command::Exchange(
                subscribe_frame(now, subscription.desired),
            ) && turn.state == (BridgeState::Toggling { enable: subscription.desired })
            &&& !subscription.dirty ==> turn.command == Command::<Seq<u8>>::AwaitFrame && turn.state
                == BridgeState::Streaming && turn.effects == effects
        }),
{
}

/// Toggles that the host asks for before the bridge takes them up coalesce:
/// the bridge sends the last one only, and then awaits frames.
pub proof fn law_bridge_sends_the_last_toggle(
    subscription: SubscriptionState,
    first: bool,
    last: bool,
    now: u64,
    later: u64,
)
    ensures
        ({
            let asked = subscription.after_set(first).after_set(last);
            let turn = resume(asked, now, Seq::empty());
            &&& turn.command == Command::Exchange(subscribe_frame(now, last))
            &&& turn.effects == seq![
                Effect::<Seq<char>, Seq<u8>, JsonModel>::Emit(
                    (HostEvent::Subscribe { toggle: ToggleStage::Toggle, enable: last }),
                ),
            ]
            &&& resume(asked.after_take(), later, Seq::empty()).command == Command::<
                Seq<u8>,
            >::AwaitFrame
        }),
{
}

/// A document that carries an identifier is no notification: while streaming
/// it is consumed, nothing is told to the host on its account, and streaming
/// goes on.
pub proof fn law_identified_frames_are_passed_over(
    subscription: SubscriptionState,
    header: Seq<u8>,
    body: Seq<u8>,
    document: JsonModel,
    now: u64,
)
    requires
        document.member("id"@) is Some,
    ensures
        after_frame(subscription, (Arrival::Document { header, body, document }), now) == resume(
            subscription,
            now,
            Seq::empty(),
        ),
{
}

/// A notification reaches the host under its method, with its parameters
/// unwrapped, before streaming goes on.
pub proof fn law_notifications_reach_the_host(
    subscription: SubscriptionState,
    header: Seq<u8>,
    body: Seq<u8>,
    document: JsonModel,
    now: u64,
)
    requires
        routing(document) is Notification,
    ensures
        ({
            let turn = after_frame(
                subscription,
                (Arrival::Document { header, body, document }),
                now,
            );
            let routed = routing(document);
            exists|i: int|
                0 <= i < turn.effects.len() && #[trigger] turn.effects[i] == Effect::<
                    Seq<char>,
                    Seq<u8>,
                    JsonModel,
                >::Emit(
                    (HostEvent::Notification {
                        method: routed->Notification_method,
                        payload: routed->Notification_payload,
                    }),
                )
        }),
{
    let turn = after_frame(subscription, Arrival::Document { header, body, document }, now);
    let routed = routing(document);
    let told = notification_effects(routed->Notification_method, routed->Notification_payload, now);
    let last = told.len() - 1;
    assert(told[last] == Effect::<Seq<char>, Seq<u8>, JsonModel>::Emit(
        HostEvent::Notification {
            method: routed->Notification_method,
            payload: routed->Notification_payload,
        },
    ));
    assert(turn.effects[last] == told[last]);
}

impl Step {
    /// Whether the step is what the turn asks of the host.
    pub open spec fn carries(self, turn: Turn) -> bool {
        effects_view(self.effects@) == turn.effects && self.command@ == turn.command
    }
}

/// The frame of the handshake request.
fn hello_request(now: u64) -> (request: Vec<u8>)
    ensures
        request@ == hello_frame(now),
{
    encode_request(now, "hello", Some(hello_params()))
}

/// The frame of a subscription toggle.
fn subscribe_request(now: u64, enable: bool) -> (request: Vec<u8>)
    ensures
        request@ == subscribe_frame(now, enable),
{
    encode_request(now, "subscribe_metrics", Some(subscribe_params(enable)))
}

/// Tells what stands against an arrival that was to be a response, and
/// whether a response carries an error.
fn examine_response(arrival: Arrival<String, Vec<u8>, serde_json::Value>) -> (found: (
    Option<Detail<String, Vec<u8>>>,
    bool,
))
    ensures
        match found.0 {
            Some(detail) => response_trouble(arrival@) == Some(detail@),
            None => response_trouble(arrival@) is None,
        },
        match hello_trouble(arrival@) {
            Some(Detail::Refused) => found.0 is None && found.1,
            Some(_) => found.0 is Some,
            None => found.0 is None && !found.1,
        },
{
    match arrival {
        Arrival::Fault(fault) => {
            let told = describe_fault(fault);
            (Some(told.1), false)
        },
        Arrival::Undecodable { header, body } => (
            Some(Detail::Undecodable { header, body }),
            false,
        ),
        Arrival::Document { header, body, document } => {
            match response_from(&document) {
                Some(response) => (None, response.error.is_some()),
                None => (Some(Detail::Undecodable { header, body }), false),
            }
        },
    }
}

impl Bridge {
    /// A bridge that has no connection, and the step that opens the channel.
    pub fn start() -> (begun: (Bridge, Step))
        ensures
            begun.0.state == BridgeState::Disconnected,
            begun.1.carries(reconnect(Seq::empty())),
    {
        let step = Step { effects: Vec::new(), command: Command::Open };
        proof {
            assert(effects_view(step.effects@) =~= Seq::empty());
        }
        (Bridge { state: BridgeState::Disconnected }, step)
    }

    /// The step that lets the connection go and opens the channel again.
    fn reopen(&mut self, effects: Vec<Effect<String, Vec<u8>, serde_json::Value>>) -> (step: Step)
        ensures
            final(self).state == BridgeState::Disconnected,
            step.effects == effects,
            step.command@ == Command::<Seq<u8>>::Open,
    {
        self.state = BridgeState::Disconnected;
        Step { effects, command: Command::Open }
    }

    /// Streaming goes on after `effects`.
    fn go_on(
        &mut self,
        subscription: &mut SubscriptionState,
        now: u64,
        effects: Vec<Effect<String, Vec<u8>, serde_json::Value>>,
    ) -> (step: Step)
        ensures
            final(self).state == resume(*old(subscription), now, effects_view(effects@)).state,
            *final(subscription) == old(subscription).after_take(),
            step.carries(resume(*old(subscription), now, effects_view(effects@))),
    {
        let mut effects = effects;
        let ghost before = effects_view(effects@);
        match subscription.take_pending() {
            Some(enable) => {
                effects.push(
                    Effect::Emit(HostEvent::Subscribe { toggle: ToggleStage::Toggle, enable }),
                );
                proof {
                    assert(effects_view(effects@) =~= before.push(
                        Effect::Emit(HostEvent::Subscribe { toggle: ToggleStage::Toggle, enable }),
                    ));
                }
                self.state = BridgeState::Toggling { enable };
                Step { effects, command: Command::Exchange(subscribe_request(now, enable)) }
            },
            None => {
                self.state = BridgeState::Streaming;
                Step { effects, command: Command::AwaitFrame }
            },
        }
    }

    /// The host has opened the channel.
    pub fn opened(&mut self, now: u64) -> (step: Step)
        ensures
            final(self).state == on_opened(old(self).state, now).state,
            step.carries(on_opened(old(self).state, now)),
    {
        let mut effects: Vec<Effect<String, Vec<u8>, serde_json::Value>> = Vec::new();
        match self.state {
            BridgeState::Disconnected => {
                effects.push(Effect::Emit(HostEvent::Handshake));
                proof {
                    assert(effects_view(effects@) =~= seq![Effect::Emit(HostEvent::Handshake)]);
                }
                self.state = BridgeState::Handshaking;
                Step { effects, command: Command::Exchange(hello_request(now)) }
            },
            _ => {
                proof {
                    assert(effects_view(effects@) =~= Seq::empty());
                }
                self.reopen(effects)
            },
        }
    }

    /// The host could not open the channel; `error` is its word for why.
    pub fn open_failed(&mut self, error: String) -> (step: Step)
        ensures
            final(self).state == on_open_failed(old(self).state, error@).state,
            step.carries(on_open_failed(old(self).state, error@)),
    {
        let mut effects: Vec<Effect<String, Vec<u8>, serde_json::Value>> = Vec::new();
        match self.state {
            BridgeState::Disconnected => {
                let again = error.clone();
                effects.push(
                    Effect::Emit(
                        HostEvent::Disconnected { error, retry_in_ms: RECONNECT_DELAY_MS },
                    ),
                );
                effects.push(Effect::Log(LogLine::Disconnected(again)));
                proof {
                    assert(effects_view(effects@) =~= seq![
                        Effect::Emit(
                            HostEvent::Disconnected {
                                error: error@,
                                retry_in_ms: RECONNECT_DELAY_MS,
                            },
                        ),
                        Effect::Log(LogLine::Disconnected(error@)),
                    ]);
                }
                self.state = BridgeState::Waiting;
                Step { effects, command: Command::Sleep(RECONNECT_DELAY_MS) }
            },
            _ => {
                proof {
                    assert(effects_view(effects@) =~= Seq::empty());
                }
                self.reopen(effects)
            },
        }
    }

    /// The host has slept, or wants the bridge to begin again: the channel
    /// is opened, wherever the bridge stood.
    pub fn woke(&mut self) -> (step: Step)
        ensures
            final(self).state == BridgeState::Disconnected,
            step.carries(reconnect(Seq::empty())),
    {
        let effects: Vec<Effect<String, Vec<u8>, serde_json::Value>> = Vec::new();
        proof {
            assert(effects_view(effects@) =~= Seq::empty());
        }
        self.reopen(effects)
    }

    /// Something has arrived on the connection, or nothing could. `now` is
    /// the time in milliseconds, from which the identifier of a request that
    /// is sent next is taken.
    pub fn arrived(
        &mut self,
        arrival: Arrival<String, Vec<u8>, serde_json::Value>,
        subscription: &mut SubscriptionState,
        now: u64,
    ) -> (step: Step)
        ensures
            final(self).state == on_arrival(old(self).state, *old(subscription), arrival@, now).state,
            *final(subscription) == owed_after(old(self).state, *old(subscription), arrival@),
            step.carries(on_arrival(old(self).state, *old(subscription), arrival@, now)),
    {
        match self.state {
            BridgeState::Handshaking => self.read_hello(arrival, subscription, now),
            BridgeState::SubscriptionInit { enable } => self.read_init(
                enable,
                arrival,
                subscription,
                now,
            ),
            BridgeState::Toggling { enable } => self.read_toggle(enable, arrival),
            BridgeState::Streaming => self.read_stream(arrival, subscription, now),
            _ => {
                let effects: Vec<Effect<String, Vec<u8>, serde_json::Value>> = Vec::new();
                proof {
                    assert(effects_view(effects@) =~= Seq::empty());
                }
                self.reopen(effects)
            },
        }
    }

    /// The host has read a frame, after a request or without one, or has
    /// failed to: the body of a frame is read as JSON, and the bridge goes on
    /// from what has arrived.
    pub fn read(
        &mut self,
        outcome: Result<Frame, ReadFault<String>>,
        subscription: &mut SubscriptionState,
        now: u64,
    ) -> (step: Step)
        ensures
            final(self).state == on_arrival(
                old(self).state,
                *old(subscription),
                arrival_of(outcome_view(outcome)),
                now,
            ).state,
            *final(subscription) == owed_after(
                old(self).state,
                *old(subscription),
                arrival_of(outcome_view(outcome)),
            ),
            step.carries(
                on_arrival(
                    old(self).state,
                    *old(subscription),
                    arrival_of(outcome_view(outcome)),
                    now,
                ),
            ),
    {
        self.arrived(receive(outcome), subscription, now)
    }

    /// The handshake was answered, or was not.
    fn read_hello(
        &mut self,
        arrival: Arrival<String, Vec<u8>, serde_json::Value>,
        subscription: &SubscriptionState,
        now: u64,
    ) -> (step: Step)
        ensures
            final(self).state == after_hello(*subscription, arrival@, now).state,
            step.carries(after_hello(*subscription, arrival@, now)),
    {
        let mut effects: Vec<Effect<String, Vec<u8>, serde_json::Value>> = Vec::new();
        let found = examine_response(arrival);
        let trouble = match found.0 {
            Some(detail) => Some(detail),
            None => if found.1 {
                Some(Detail::Refused)
            } else {
                None
            },
        };
        match trouble {
            Some(detail) => {
                let again = copy_detail(&detail);
                effects.push(Effect::Log(LogLine::HelloFailed(again)));
                effects.push(Effect::Emit(HostEvent::Error { stage: Stage::Hello, detail }));
                proof {
                    assert(effects_view(effects@) =~= seq![
                        Effect::Log(LogLine::HelloFailed(detail@)),
                        Effect::Emit(HostEvent::Error { stage: Stage::Hello, detail: detail@ }),
                    ]);
                }
                self.reopen(effects)
            },
            None => {
                let enable = subscription.desired;
                effects.push(Effect::Log(LogLine::HelloOk));
                effects.push(
                    Effect::Emit(HostEvent::Subscribe { toggle: ToggleStage::Init, enable }),
                );
                proof {
                    assert(effects_view(effects@) =~= seq![
                        Effect::Log(LogLine::HelloOk),
                        Effect::Emit(HostEvent::Subscribe { toggle: ToggleStage::Init, enable }),
                    ]);
                }
                self.state = BridgeState::SubscriptionInit { enable };
                Step { effects, command: Command::Exchange(subscribe_request(now, enable)) }
            },
        }
    }

    /// The toggle that follows the handshake was answered, or was not.
    fn read_init(
        &mut self,
        enable: bool,
        arrival: Arrival<String, Vec<u8>, serde_json::Value>,
        subscription: &mut SubscriptionState,
        now: u64,
    ) -> (step: Step)
        ensures
            final(self).state == after_init(*old(subscription), enable, arrival@, now).state,
            *final(subscription) == owed_after(
                (BridgeState::SubscriptionInit { enable }),
                *old(subscription),
                arrival@,
            ),
            step.carries(after_init(*old(subscription), enable, arrival@, now)),
    {
        let mut effects: Vec<Effect<String, Vec<u8>, serde_json::Value>> = Vec::new();
        let found = examine_response(arrival);
        match found.0 {
            Some(detail) => {
                let again = copy_detail(&detail);
                effects.push(
                    Effect::Emit(HostEvent::SubscribeAck { toggle: ToggleStage::Init, ok: false }),
                );
                effects.push(
                    Effect::Log(
                        LogLine::SubscribeAck { toggle: ToggleStage::Init, enable, ok: false },
                    ),
                );
                effects.push(Effect::Log(LogLine::SubscribeFailed(again)));
                effects.push(
                    Effect::Emit(HostEvent::Error { stage: Stage::InitSubscribe, detail }),
                );
                proof {
                    assert(effects_view(effects@) =~= seq![
                        Effect::Emit(
                            HostEvent::SubscribeAck { toggle: ToggleStage::Init, ok: false },
                        ),
                        Effect::Log(
                            LogLine::SubscribeAck { toggle: ToggleStage::Init, enable, ok: false },
                        ),
                        Effect::Log(LogLine::SubscribeFailed(detail@)),
                        Effect::Emit(
                            HostEvent::Error { stage: Stage::InitSubscribe, detail: detail@ },
                        ),
                    ]);
                }
                self.reopen(effects)
            },
            None => {
                effects.push(
                    Effect::Emit(HostEvent::SubscribeAck { toggle: ToggleStage::Init, ok: true }),
                );
                effects.push(
                    Effect::Log(
                        LogLine::SubscribeAck { toggle: ToggleStage::Init, enable, ok: true },
                    ),
                );
                proof {
                    assert(effects_view(effects@) =~= seq![
                        Effect::Emit(
                            HostEvent::SubscribeAck { toggle: ToggleStage::Init, ok: true },
                        ),
                        Effect::Log(
                            LogLine::SubscribeAck { toggle: ToggleStage::Init, enable, ok: true },
                        ),
                    ]);
                }
                self.go_on(subscription, now, effects)
            },
        }
    }

    /// A toggle that the host asked for was answered, or was not.
    fn read_toggle(
        &mut self,
        enable: bool,
        arrival: Arrival<String, Vec<u8>, serde_json::Value>,
    ) -> (step: Step)
        ensures
            final(self).state == BridgeState::Streaming,
            step.carries(after_toggle(enable, arrival@)),
    {
        let mut effects: Vec<Effect<String, Vec<u8>, serde_json::Value>> = Vec::new();
        let found = examine_response(arrival);
        let ok = found.0.is_none();
        effects.push(Effect::Emit(HostEvent::SubscribeAck { toggle: ToggleStage::Toggle, ok }));
        effects.push(
            Effect::Log(LogLine::SubscribeAck { toggle: ToggleStage::Toggle, enable, ok }),
        );
        proof {
            assert(effects_view(effects@) =~= seq![
                Effect::Emit(HostEvent::SubscribeAck { toggle: ToggleStage::Toggle, ok }),
                Effect::Log(LogLine::SubscribeAck { toggle: ToggleStage::Toggle, enable, ok }),
            ]);
        }
        self.state = BridgeState::Streaming;
        Step { effects, command: Command::AwaitFrame }
    }

    /// A frame was awaited while streaming.
    fn read_stream(
        &mut self,
        arrival: Arrival<String, Vec<u8>, serde_json::Value>,
        subscription: &mut SubscriptionState,
        now: u64,
    ) -> (step: Step)
        ensures
            final(self).state == after_frame(*old(subscription), arrival@, now).state,
            *final(subscription) == owed_after(
                BridgeState::Streaming,
                *old(subscription),
                arrival@,
            ),
            step.carries(after_frame(*old(subscription), arrival@, now)),
    {
        let mut effects: Vec<Effect<String, Vec<u8>, serde_json::Value>> = Vec::new();
        let envelope = match arrival {
            Arrival::Fault(fault) => {
                let told = describe_fault(fault);
                let stage = told.0;
                let detail = told.1;
                let again = copy_detail(&detail);
                effects.push(Effect::Emit(HostEvent::Error { stage, detail }));
                proof {
                    assert(effects_view(effects@) =~= seq![
                        Effect::Emit(HostEvent::Error { stage, detail: detail@ }),
                    ]);
                }
                let ghost told_view = effects_view(effects@);
                match stage {
                    Stage::ParseHeader => {
                        effects.push(Effect::Log(LogLine::NoLength));
                        proof {
                            assert(effects_view(effects@) =~= told_view.push(
                                Effect::Log(LogLine::NoLength),
                            ));
                        }
                    },
                    Stage::ReadBody => {
                        effects.push(Effect::Log(LogLine::ReadBodyFailed(again)));
                        proof {
                            assert(effects_view(effects@) =~= told_view.push(
                                Effect::Log(LogLine::ReadBodyFailed(detail@)),
                            ));
                        }
                    },
                    _ => {},
                }
                return self.reopen(effects);
            },
            Arrival::Undecodable { header, body } => {
                let ghost shown_header = header@;
                let ghost shown_body = body@;
                effects.push(
                    Effect::Emit(
                        HostEvent::Error {
                            stage: Stage::DecodeJson,
                            detail: Detail::Undecodable { header, body },
                        },
                    ),
                );
                effects.push(Effect::Log(LogLine::DecodeFailed));
                proof {
                    assert(effects_view(effects@) =~= seq![
                        Effect::Emit(
                            HostEvent::Error {
                                stage: Stage::DecodeJson,
                                detail: Detail::Undecodable {
                                    header: shown_header,
                                    body: shown_body,
                                },
                            },
                        ),
                        Effect::Log(LogLine::DecodeFailed),
                    ]);
                }
                return self.go_on(subscription, now, effects);
            },
            Arrival::Document { document, .. } => document,
        };
        match route_inbound(&envelope) {
            Inbound::Notification { method, payload } => {
                let name = method.clone();
                effects.push(Effect::Emit(HostEvent::Received { method: name }));
                proof {
                    assert(effects_view(effects@) =~= seq![
                        Effect::Emit(HostEvent::Received { method: method@ }),
                    ]);
                }
                let ghost arrived = effects_view(effects@);
                let metrics = "metrics".to_owned();
                if method == metrics {
                    match memory_sample(&payload) {
                        Some(figures) => {
                            effects.push(
                                Effect::Log(
                                    LogLine::Memory {
                                        total_mb: figures.0,
                                        used_mb: figures.1,
                                        at: now,
                                    },
                                ),
                            );
                            proof {
                                assert(effects_view(effects@) =~= arrived.push(
                                    Effect::Log(
                                        LogLine::Memory {
                                            total_mb: figures.0,
                                            used_mb: figures.1,
                                            at: now,
                                        },
                                    ),
                                ));
                            }
                        },
                        None => {},
                    }
                }
                let ghost noted = effects_view(effects@);
                let ghost carried = crate::json::value_model(payload);
                effects.push(Effect::Emit(HostEvent::Notification { method, payload }));
                proof {
                    assert(effects_view(effects@) =~= noted.push(
                        Effect::Emit(
                            HostEvent::Notification { method: method@, payload: carried },
                        ),
                    ));
                }
                self.go_on(subscription, now, effects)
            },
            Inbound::Unrouted => {
                proof {
                    assert(effects_view(effects@) =~= Seq::empty());
                }
                self.go_on(subscription, now, effects)
            },
        }
    }
}

} // verus!
