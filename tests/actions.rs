use rs_udp::actions::{event_kind_name, ActionLoop, ActionPlan};
use rs_udp::binary32::Binary32;
use rs_udp::config::ActionsConfig;
use rs_udp::event::{Event, TriggerMessage};

fn configured() -> ActionsConfig {
    let mut a = ActionsConfig::default();
    a.available_cmd = Some("/bin/avail".to_string());
    a.unavailable_cmd = Some("/bin/unavail".to_string());
    a.trigger_cmd = Some("/bin/trig".to_string());
    a.reset_cmd = None;
    a.mqtt_topic = Some("quake/state".to_string());
    a.mqtt_available_topic = Some("quake/online".to_string());
    a.mqtt_triggered_payload = "SHAKING".to_string();
    a
}

fn plan(l: &ActionLoop, id: usize, event: Event) -> ActionPlan {
    l.handle_seismometer_event(&TriggerMessage { source_id: id, event })
}

fn publish(p: &ActionPlan) -> Option<(String, String)> {
    p.publish.as_ref().map(|x| (x.topic.clone(), x.payload.clone()))
}

fn command(p: &ActionPlan) -> Option<(String, String, String)> {
    p.command.as_ref().map(|c| (c.program.clone(), c.event_name.clone(), c.flow_name.clone()))
}

fn pair(a: &str, b: &str) -> Option<(String, String)> {
    Some((a.to_string(), b.to_string()))
}

fn triple(a: &str, b: &str, c: &str) -> Option<(String, String, String)> {
    Some((a.to_string(), b.to_string(), c.to_string()))
}

#[test]
fn plans_per_event_kind() {
    let mut l = ActionLoop::new(true);
    l.add_flow(3, "north".to_string(), configured());
    let p = plan(&l, 3, Event::Available);
    assert_eq!(publish(&p), pair("quake/online", "ON"));
    assert_eq!(command(&p), triple("/bin/avail", "available", "north"));
    let p = plan(&l, 3, Event::Unavailable);
    assert_eq!(publish(&p), pair("quake/online", "OFF"));
    assert_eq!(command(&p), triple("/bin/unavail", "unavailable", "north"));
    let p = plan(&l, 3, Event::Triggered);
    assert_eq!(publish(&p), pair("quake/state", "SHAKING"));
    assert_eq!(command(&p), triple("/bin/trig", "triggered", "north"));
    let p = plan(&l, 3, Event::Reset);
    assert_eq!(publish(&p), pair("quake/state", "OFF"));
    assert_eq!(command(&p), None);
    let status = Event::Status { dc: Binary32::zero(), energy: Binary32::one() };
    let p = plan(&l, 3, status);
    assert!(p.publish.is_none() && p.command.is_none());
}

#[test]
fn unknown_flow_does_nothing() {
    let mut l = ActionLoop::new(true);
    l.add_flow(3, "north".to_string(), configured());
    let p = plan(&l, 4, Event::Triggered);
    assert!(p.publish.is_none() && p.command.is_none());
}

#[test]
fn no_broker_means_no_publish() {
    let mut l = ActionLoop::new(false);
    l.add_flow(0, "south".to_string(), configured());
    let p = plan(&l, 0, Event::Triggered);
    assert_eq!(publish(&p), None);
    assert_eq!(command(&p), triple("/bin/trig", "triggered", "south"));
}

#[test]
fn missing_topic_means_no_publish() {
    let mut l = ActionLoop::new(true);
    l.add_flow(0, "east".to_string(), ActionsConfig::default());
    for e in [Event::Available, Event::Unavailable, Event::Triggered, Event::Reset] {
        let p = plan(&l, 0, e);
        assert!(p.publish.is_none() && p.command.is_none());
    }
}

#[test]
fn later_binding_wins() {
    let mut l = ActionLoop::new(true);
    l.add_flow(1, "first".to_string(), configured());
    l.add_flow(1, "second".to_string(), configured());
    let p = plan(&l, 1, Event::Available);
    assert_eq!(command(&p), triple("/bin/avail", "available", "second"));
}

#[test]
fn event_names() {
    assert_eq!(event_kind_name(&Event::Available), "available");
    assert_eq!(event_kind_name(&Event::Unavailable), "unavailable");
    assert_eq!(event_kind_name(&Event::Triggered), "triggered");
    assert_eq!(event_kind_name(&Event::Reset), "reset");
}
