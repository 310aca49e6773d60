use vstd::prelude::*;

use crate::binary32::{Binary32, ONE_BITS, ZERO_BITS};

verus! {

/// Encoding of `8.0`, the default low-pass cutoff in hertz.
pub const DEFAULT_CUTOFF_BITS: u32 = 0x4100_0000;

/// Encoding of `0.99`, the default decay rate of both one-pole filters.
pub const DEFAULT_ALPHA_BITS: u32 = 0x3f7d_70a4;

/// Default order of the detection low-pass filter.
pub const DEFAULT_FILTER_ORDER: u8 = 8;

/// Default TCP port of the MQTT broker.
pub const DEFAULT_MQTT_PORT: u16 = 1883;

/// Side effects bound to the events of one flow.
#[derive(Debug, Clone)]
pub struct ActionsConfig {
    /// Executable to spawn when the seismometer is deemed to be sending data.
    pub available_cmd: Option<String>,
    /// Executable to spawn when the seismometer is deemed to be offline.
    pub unavailable_cmd: Option<String>,
    /// Executable to spawn when the filter detects enough energy to trip the
    /// trigger (an earthquake is happening).
    pub trigger_cmd: Option<String>,
    /// Executable to spawn when the trigger goes back to calm.
    pub reset_cmd: Option<String>,
    /// MQTT topic for triggered and reset events.
    pub mqtt_topic: Option<String>,
    /// MQTT topic for availability events.
    pub mqtt_available_topic: Option<String>,
    /// Payload posted to `mqtt_topic` when an earthquake is detected.
    pub mqtt_triggered_payload: String,
    /// Payload posted to `mqtt_topic` when an earthquake has subsided.
    pub mqtt_reset_payload: String,
    /// Payload posted to `mqtt_available_topic` when the sensor comes online.
    pub mqtt_available_payload: String,
    /// Payload posted to `mqtt_available_topic` when the sensor goes offline.
    pub mqtt_unavailable_payload: String,
}

pub fn default_on_payload() -> (r: String)
    ensures
        r@ == "ON"@,
{
    String::from_str("ON")
}

pub fn default_off_payload() -> (r: String)
    ensures
        r@ == "OFF"@,
{
    String::from_str("OFF")
}

impl Default for ActionsConfig {
    /// No commands, no topics, and the default `"ON"` / `"OFF"` payloads.
    fn default() -> (r: ActionsConfig)
        ensures
            r.available_cmd is None,
            r.unavailable_cmd is None,
            r.trigger_cmd is None,
            r.reset_cmd is None,
            r.mqtt_topic is None,
            r.mqtt_available_topic is None,
            r.mqtt_triggered_payload@ == "ON"@,
            r.mqtt_reset_payload@ == "OFF"@,
            r.mqtt_available_payload@ == "ON"@,
            r.mqtt_unavailable_payload@ == "OFF"@,
    {
        ActionsConfig {
            available_cmd: None,
            unavailable_cmd: None,
            trigger_cmd: None,
            reset_cmd: None,
            mqtt_topic: None,
            mqtt_available_topic: None,
            mqtt_triggered_payload: default_on_payload(),
            mqtt_reset_payload: default_off_payload(),
            mqtt_available_payload: default_on_payload(),
            mqtt_unavailable_payload: default_off_payload(),
        }
    }
}

/// Filter and trigger parameters of one flow.
#[derive(Debug, Clone, Copy, PartialEq, Eq, Structural)]
pub struct FilterConfig {
    /// Energy level required to enable the trigger (after all filtering).
    pub trigger_level: Binary32,
    /// Energy level required to reset the trigger.
    pub reset_level: Binary32,
    /// Value removed from every sample before processing.
    pub offset: Binary32,
    /// Value each sample is multiplied by after removing the offset.
    pub gain: Binary32,
    /// Order of the detection low-pass filter.
    pub order: u8,
    /// Cutoff frequency of the detection low-pass filter, in hertz.
    pub cutoff: Binary32,
    /// Decay rate of the DC-offset tracking filter.
    pub dc_alpha: Binary32,
    /// Decay rate of the energy detection filter.
    pub energy_alpha: Binary32,
    /// Number of samples to process before enabling the trigger.
    pub holdoff: usize,
}

pub fn default_trigger_level() -> (r: Binary32)
    ensures
        r.bits == ONE_BITS,
{
    Binary32::one()
}

pub fn default_reset_level() -> (r: Binary32)
    ensures
        r.bits == ZERO_BITS,
{
    Binary32::zero()
}

pub fn default_offset() -> (r: Binary32)
    ensures
        r.bits == ZERO_BITS,
{
    Binary32::zero()
}

pub fn default_gain() -> (r: Binary32)
    ensures
        r.bits == ONE_BITS,
{
    Binary32::one()
}

pub fn default_filter_order() -> (r: u8)
    ensures
        r == DEFAULT_FILTER_ORDER,
{
    DEFAULT_FILTER_ORDER
}

pub fn default_cutoff_freq() -> (r: Binary32)
    ensures
        r.bits == DEFAULT_CUTOFF_BITS,
{
    Binary32::from_bits(DEFAULT_CUTOFF_BITS)
}

pub fn default_dc_alpha() -> (r: Binary32)
    ensures
        r.bits == DEFAULT_ALPHA_BITS,
{
    Binary32::from_bits(DEFAULT_ALPHA_BITS)
}

pub fn default_energy_alpha() -> (r: Binary32)
    ensures
        r.bits == DEFAULT_ALPHA_BITS,
{
    Binary32::from_bits(DEFAULT_ALPHA_BITS)
}

pub fn default_holdoff() -> (r: usize)
    ensures
        r == 0,
{
    0
}

impl Default for FilterConfig {
    /// Every parameter at its documented default.
    fn default() -> (r: FilterConfig)
        ensures
            r.trigger_level.bits == ONE_BITS,
            r.reset_level.bits == ZERO_BITS,
            r.offset.bits == ZERO_BITS,
            r.gain.bits == ONE_BITS,
            r.order == DEFAULT_FILTER_ORDER,
            r.cutoff.bits == DEFAULT_CUTOFF_BITS,
            r.dc_alpha.bits == DEFAULT_ALPHA_BITS,
            r.energy_alpha.bits == DEFAULT_ALPHA_BITS,
            r.holdoff == 0,
    {
        FilterConfig {
            trigger_level: default_trigger_level(),
            reset_level: default_reset_level(),
            offset: default_offset(),
            gain: default_gain(),
            order: default_filter_order(),
            cutoff: default_cutoff_freq(),
            dc_alpha: default_dc_alpha(),
            energy_alpha: default_energy_alpha(),
            holdoff: default_holdoff(),
        }
    }
}

/// Connection settings of the MQTT broker.
#[derive(Debug, Clone)]
pub struct MQTTConfig {
    /// Host name or IP address of the broker.
    pub host: String,
    /// TCP port of the broker.
    pub port: u16,
    /// MQTT client id.
    pub client_id: String,
    /// User name; used only together with a password.
    pub username: Option<String>,
    /// Password; used only together with a user name.
    pub password: Option<String>,
}

pub fn default_mqtt_port() -> (r: u16)
    ensures
        r == DEFAULT_MQTT_PORT,
{
    DEFAULT_MQTT_PORT
}

pub fn default_mqtt_client_id() -> (r: String)
    ensures
        r@.len() == 0,
{
    String::new()
}

impl MQTTConfig {
    /// The credentials to log in with: present only when both the user name
    /// and the password are set.
    pub fn credentials(&self) -> (r: Option<(String, String)>)
        ensures
            match (self.username, self.password) {
                (Some(u), Some(p)) => r matches Some((ru, rp)) && ru@ == u@ && rp@ == p@,
                _ => r is None,
            },
    {
        match (&self.username, &self.password) {
            (Some(u), Some(p)) => Some((u.clone(), p.clone())),
            _ => None,
        }
    }
}

} // verus!
