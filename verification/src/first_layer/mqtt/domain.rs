//! Transport objects of the MQTT service.

use vstd::prelude::*;

verus! {

/// Commands of the MQTT service about the topology.
#[derive(Debug, Clone, Copy, PartialEq, Eq, Structural)]
pub enum MqttServiceCommand {
    /// The networks were loaded into memory for the first time.
    NetworksReady,
    /// The networks changed; subscriptions must be recomputed.
    NetworksUpdated,
}

/// Raw payload together with the topic it came from or goes to.
#[derive(Debug, Clone, PartialEq)]
pub struct PayloadTopic {
    /// Raw bytes of the message.
    pub payload: Vec<u8>,
    /// Full MQTT topic.
    pub topic: String,
}

impl PayloadTopic {
    pub fn new(payload: Vec<u8>, topic: String) -> (r: Self)
        ensures
            r.payload@ == payload@,
            r.topic@ == topic@,
    {
        Self { payload, topic }
    }
}

} // verus!
