use vstd::prelude::*;

verus! {

/// Presence flags for the optional fields of `MeasurementEntry`, one plain
/// boolean per field.
#[derive(Clone, Copy, PartialEq, Eq, Structural, Default, Debug)]
pub struct _Hazzer {
    pub start: bool,
    pub end: bool,
    pub measurement: bool,
}

impl _Hazzer {
    /// New hazzer with all fields off.
    pub fn _new() -> (r: Self)
        ensures
            r == (_Hazzer { start: false, end: false, measurement: false }),
    {
        _Hazzer { start: false, end: false, measurement: false }
    }

    /// Query presence of `start`.
    pub fn start(&self) -> (r: bool)
        ensures
            r == self.start,
    {
        self.start
    }

    /// Set presence of `start`.
    pub fn set_start(&mut self) -> (r: &mut Self)
        ensures
            *r == (_Hazzer { start: true, ..*old(self) }),
            *final(self) == *final(r),
    {
        self.start = true;
        self
    }

    /// Clear presence of `start`.
    pub fn clear_start(&mut self) -> (r: &mut Self)
        ensures
            *r == (_Hazzer { start: false, ..*old(self) }),
            *final(self) == *final(r),
    {
        self.start = false;
        self
    }

    /// Builder method that sets the presence of `start`.
    pub fn init_start(self) -> (r: Self)
        ensures
            r == (_Hazzer { start: true, ..self }),
    {
        _Hazzer { start: true, ..self }
    }

    /// Query presence of `end`.
    pub fn end(&self) -> (r: bool)
        ensures
            r == self.end,
    {
        self.end
    }

    /// Set presence of `end`.
    pub fn set_end(&mut self) -> (r: &mut Self)
        ensures
            *r == (_Hazzer { end: true, ..*old(self) }),
            *final(self) == *final(r),
    {
        self.end = true;
        self
    }

    /// Clear presence of `end`.
    pub fn clear_end(&mut self) -> (r: &mut Self)
        ensures
            *r == (_Hazzer { end: false, ..*old(self) }),
            *final(self) == *final(r),
    {
        self.end = false;
        self
    }

    /// Builder method that sets the presence of `end`.
    pub fn init_end(self) -> (r: Self)
        ensures
            r == (_Hazzer { end: true, ..self }),
    {
        _Hazzer { end: true, ..self }
    }

    /// Query presence of `measurement`.
    pub fn measurement(&self) -> (r: bool)
        ensures
            r == self.measurement,
    {
        self.measurement
    }

    /// Set presence of `measurement`.
    pub fn set_measurement(&mut self) -> (r: &mut Self)
        ensures
            *r == (_Hazzer { measurement: true, ..*old(self) }),
            *final(self) == *final(r),
    {
        self.measurement = true;
        self
    }

    /// Clear presence of `measurement`.
    pub fn clear_measurement(&mut self) -> (r: &mut Self)
        ensures
            *r == (_Hazzer { measurement: false, ..*old(self) }),
            *final(self) == *final(r),
    {
        self.measurement = false;
        self
    }

    /// Builder method that sets the presence of `measurement`.
    pub fn init_measurement(self) -> (r: Self)
        ensures
            r == (_Hazzer { measurement: true, ..self }),
    {
        _Hazzer { measurement: true, ..self }
    }
}

} // verus!
