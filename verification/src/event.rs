//! Events: the discrete state transitions a controller can undergo, and the
//! resolved form delivered to the consumer.

use vstd::prelude::*;
use crate::ev_code::EvCode;

verus! {

/// One discrete transition of a controller: connection-state changes carry no
/// payload; button and axis changes name the control through its code.
/// Switch-position changes are deliberately not surfaced.
#[derive(Copy, Clone, Debug, PartialEq, Eq, Structural)]
pub enum EventType {
    Connected,
    Disconnected,
    ButtonPressed(EvCode),
    ButtonReleased(EvCode),
    AxisValueChanged(i32, EvCode),
}

/// A resolved event: the session device id, the payload, and the timestamp
/// (an opaque tick taken from the native sample or at notification receipt).
#[derive(Copy, Clone, Debug, PartialEq, Eq, Structural)]
pub struct Event {
    pub id: usize,
    pub event: EventType,
    pub time: u64,
}

} // verus!
