use vstd::prelude::*;

use std::collections::HashMap;

use crate::config::ActionsConfig;
use crate::event::{Event, TriggerMessage};

verus! {

broadcast use vstd::std_specs::hash::group_hash_axioms;

/// A flow known to the dispatcher: its name and the side effects bound to
/// its events.
#[derive(Debug, Clone)]
pub struct FlowBinding {
    pub name: String,
    pub actions: ActionsConfig,
}

/// A message to publish on the broker (at least once, not retained).
#[derive(Debug, Clone)]
pub struct Publish {
    pub topic: String,
    pub payload: String,
}

/// An external program to launch with two arguments: the event kind and
/// the flow name. Its exit status is not looked at.
#[derive(Debug, Clone)]
pub struct Command {
    pub program: String,
    pub event_name: String,
    pub flow_name: String,
}

/// The side effects of one event; both may run concurrently.
#[derive(Debug, Clone)]
pub struct ActionPlan {
    pub publish: Option<Publish>,
    pub command: Option<Command>,
}

/// An [`ActionPlan`] as text: the topic and payload to publish, and the
/// program with its two arguments.
pub struct ActionPlanView {
    pub publish: Option<(Seq<char>, Seq<char>)>,
    pub command: Option<(Seq<char>, Seq<char>, Seq<char>)>,
}

impl View for ActionPlan {
    type V = ActionPlanView;

    open spec fn view(&self) -> ActionPlanView {
        ActionPlanView {
            publish: match self.publish {
                Some(p) => Some((p.topic@, p.payload@)),
                None => None,
            },
            command: match self.command {
                Some(c) => Some((c.program@, c.event_name@, c.flow_name@)),
                None => None,
            },
        }
    }
}

/// The command-line name of an event kind.
pub open spec fn event_name(e: Event) -> Seq<char> {
    match e {
        Event::Status { .. } => "status"@,
        Event::Available => "available"@,
        Event::Unavailable => "unavailable"@,
        Event::Triggered => "triggered"@,
        Event::Reset => "reset"@,
    }
}

/// The side effects of one event kind, from what is configured for it.
pub open spec fn plan_from(
    broker: bool,
    topic: Option<String>,
    payload: String,
    program: Option<String>,
    kind: Seq<char>,
    flow_name: String,
) -> ActionPlanView {
    ActionPlanView {
        publish: match topic {
            Some(t) if broker => Some((t@, payload@)),
            _ => None,
        },
        command: match program {
            Some(p) => Some((p@, kind, flow_name@)),
            None => None,
        },
    }
}

pub open spec fn no_action() -> ActionPlanView {
    ActionPlanView { publish: None, command: None }
}

/// What the dispatcher does for an event of a known flow: availability
/// events go to the availability topic, trigger events to the main topic,
/// each with the payload and the command configured for its kind; status
/// events do nothing.
pub open spec fn plan_for(b: FlowBinding, broker: bool, e: Event) -> ActionPlanView {
    let a = b.actions;
    match e {
        Event::Status { .. } => no_action(),
        Event::Available => plan_from(
            broker,
            a.mqtt_available_topic,
            a.mqtt_available_payload,
            a.available_cmd,
            event_name(e),
            b.name,
        ),
        Event::Unavailable => plan_from(
            broker,
            a.mqtt_available_topic,
            a.mqtt_unavailable_payload,
            a.unavailable_cmd,
            event_name(e),
            b.name,
        ),
        Event::Triggered => plan_from(
            broker,
            a.mqtt_topic,
            a.mqtt_triggered_payload,
            a.trigger_cmd,
            event_name(e),
            b.name,
        ),
        Event::Reset => plan_from(
            broker,
            a.mqtt_topic,
            a.mqtt_reset_payload,
            a.reset_cmd,
            event_name(e),
            b.name,
        ),
    }
}

/// The command-line name of an event kind.
pub fn event_kind_name(e: &Event) -> (r: String)
    ensures
        r@ == event_name(*e),
{
    match e {
        Event::Status { .. } => String::from_str("status"),
        Event::Available => String::from_str("available"),
        Event::Unavailable => String::from_str("unavailable"),
        Event::Triggered => String::from_str("triggered"),
        Event::Reset => String::from_str("reset"),
    }
}

fn make_plan(
    broker: bool,
    topic: &Option<String>,
    payload: &String,
    program: &Option<String>,
    e: &Event,
    flow_name: &String,
) -> (r: ActionPlan)
    ensures
        r@ == plan_from(broker, *topic, *payload, *program, event_name(*e), *flow_name),
{
    let publish = match topic {
        Some(t) if broker => Some(Publish { topic: t.clone(), payload: payload.clone() }),
        _ => None,
    };
    let command = match program {
        Some(p) => Some(
            Command { program: p.clone(), event_name: event_kind_name(e), flow_name: flow_name.clone() },
        ),
        None => None,
    };
    ActionPlan { publish, command }
}

/// The dispatcher's bindings: for each flow id, its name and actions, and
/// whether a broker client is configured at all.
pub struct ActionLoop {
    pub flows: HashMap<usize, FlowBinding>,
    pub broker: bool,
}

impl ActionLoop {
    /// What the dispatcher does for a message: nothing for an unknown flow.
    pub open spec fn spec_plan(&self, msg: TriggerMessage) -> ActionPlanView {
        if self.flows@.contains_key(msg.source_id) {
            plan_for(self.flows@[msg.source_id], self.broker, msg.event)
        } else {
            no_action()
        }
    }

    /// A dispatcher without flows; `broker` tells whether a broker client
    /// is configured.
    pub fn new(broker: bool) -> (r: ActionLoop)
        ensures
            r.flows@ == Map::<usize, FlowBinding>::empty(),
            r.broker == broker,
    {
        ActionLoop { flows: HashMap::new(), broker }
    }

    /// Introduce a flow and its actions; a flow id given twice keeps the
    /// later binding.
    pub fn add_flow(&mut self, flow_id: usize, name: String, actions: ActionsConfig)
        ensures
            final(self).flows@ == old(self).flows@.insert(
                flow_id,
                FlowBinding { name, actions },
            ),
            final(self).broker == old(self).broker,
    {
        self.flows.insert(flow_id, FlowBinding { name, actions });
    }

    /// The side effects of one message, to be carried out before the next
    /// message is taken.
    pub fn handle_seismometer_event(&self, msg: &TriggerMessage) -> (r: ActionPlan)
        ensures
            r@ == self.spec_plan(*msg),
    {
        let flow = match self.flows.get(&msg.source_id) {
            Some(f) => f,
            None => {
                return ActionPlan { publish: None, command: None };
            },
        };
        let a = &flow.actions;
        let name = &flow.name;
        let e = &msg.event;
        match msg.event {
            Event::Status { .. } => ActionPlan { publish: None, command: None },
            Event::Available => make_plan(
                self.broker,
                &a.mqtt_available_topic,
                &a.mqtt_available_payload,
                &a.available_cmd,
                e,
                name,
            ),
            Event::Unavailable => make_plan(
                self.broker,
                &a.mqtt_available_topic,
                &a.mqtt_unavailable_payload,
                &a.unavailable_cmd,
                e,
                name,
            ),
            Event::Triggered => make_plan(
                self.broker,
                &a.mqtt_topic,
                &a.mqtt_triggered_payload,
                &a.trigger_cmd,
                e,
                name,
            ),
            Event::Reset => make_plan(
                self.broker,
                &a.mqtt_topic,
                &a.mqtt_reset_payload,
                &a.reset_cmd,
                e,
                name,
            ),
        }
    }
}

} // verus!
