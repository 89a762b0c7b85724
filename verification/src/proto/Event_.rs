use vstd::prelude::*;
use crate::proto::{MeasurementEntry, WateringEntry};

verus! {

/// The payload alternatives of an event record.
#[derive(Clone, Debug)]
pub enum Event {
    Measurement(MeasurementEntry),
    Watering(WateringEntry),
}

} // verus!
