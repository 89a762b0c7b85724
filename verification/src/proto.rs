//! Message types of the station's profile-and-events interface: plain
//! data records with presence-tracked optional fields and the accessor
//! set their users expect.  What only their wire codec can do stays
//! with that codec; the analog channels of the measurement record are
//! carried as IEEE-754 bit patterns, as everywhere in this crate.
#[allow(non_snake_case)]
pub mod Event_;
#[allow(non_snake_case)]
pub mod MeasurementEntry_;
#[allow(non_snake_case)]
pub mod PlantProfile_;
#[allow(non_snake_case)]
pub mod WateringEntry_;

use vstd::prelude::*;

verus! {

/// A closed numeric range a profile prescribes for one channel.
#[derive(Clone, Copy, PartialEq, Eq, Structural, Default, Debug)]
pub struct Interval {
    pub start: i32,
    pub end: i32,
}

impl Interval {

    /// Return a reference to `start`.
    pub fn start(&self) -> (r: &i32)
        ensures
            r == self.start,
    {
        &self.start
    }

    /// Return a mutable reference to `start`.
    pub fn mut_start(&mut self) -> (r: &mut i32)
        ensures
            *r == old(self).start,
            *final(self) == (Interval { start: *final(r), ..*old(self) }),
    {
        &mut self.start
    }

    /// Set the value of `start`.
    pub fn set_start(&mut self, value: i32) -> (r: &mut Self)
        ensures
            *r == (Interval { start: value, ..*old(self) }),
            *final(self) == *final(r),
    {
        self.start = value;
        self
    }

    /// Builder method that sets the value of `start`.
    pub fn init_start(self, value: i32) -> (r: Self)
        ensures
            r == (Interval { start: value, ..self }),
    {
        Interval { start: value, ..self }
    }

    /// Return a reference to `end`.
    pub fn end(&self) -> (r: &i32)
        ensures
            r == self.end,
    {
        &self.end
    }

    /// Return a mutable reference to `end`.
    pub fn mut_end(&mut self) -> (r: &mut i32)
        ensures
            *r == old(self).end,
            *final(self) == (Interval { end: *final(r), ..*old(self) }),
    {
        &mut self.end
    }

    /// Set the value of `end`.
    pub fn set_end(&mut self, value: i32) -> (r: &mut Self)
        ensures
            *r == (Interval { end: value, ..*old(self) }),
            *final(self) == *final(r),
    {
        self.end = value;
        self
    }

    /// Builder method that sets the value of `end`.
    pub fn init_end(self, value: i32) -> (r: Self)
        ensures
            r == (Interval { end: value, ..self }),
    {
        Interval { end: value, ..self }
    }
}

/// A station-local instant in whole seconds.
#[derive(Clone, Copy, PartialEq, Eq, Structural, Default, Debug)]
pub struct Timestamp {
    pub timestamp: u32,
}

impl Timestamp {

    /// Return a reference to `timestamp`.
    pub fn timestamp(&self) -> (r: &u32)
        ensures
            r == self.timestamp,
    {
        &self.timestamp
    }

    /// Return a mutable reference to `timestamp`.
    pub fn mut_timestamp(&mut self) -> (r: &mut u32)
        ensures
            *r == old(self).timestamp,
            *final(self) == (Timestamp { timestamp: *final(r), ..*old(self) }),
    {
        &mut self.timestamp
    }

    /// Set the value of `timestamp`.
    pub fn set_timestamp(&mut self, value: u32) -> (r: &mut Self)
        ensures
            *r == (Timestamp { timestamp: value, ..*old(self) }),
            *final(self) == *final(r),
    {
        self.timestamp = value;
        self
    }

    /// Builder method that sets the value of `timestamp`.
    pub fn init_timestamp(self, value: u32) -> (r: Self)
        ensures
            r == (Timestamp { timestamp: value, ..self }),
    {
        Timestamp { timestamp: value, ..self }
    }
}

/// One reading in the event stream; the analog channels hold raw
/// IEEE-754 single-precision bit patterns.
#[derive(Clone, Copy, PartialEq, Eq, Structural, Default, Debug)]
pub struct Measurement {
    pub battery: u32,
    pub lux: u32,
    pub temperature: u32,
    pub humidity: u32,
    pub soil_pf: u32,
}

impl Measurement {

    /// Return a reference to `battery`.
    pub fn battery(&self) -> (r: &u32)
        ensures
            r == self.battery,
    {
        &self.battery
    }

    /// Return a mutable reference to `battery`.
    pub fn mut_battery(&mut self) -> (r: &mut u32)
        ensures
            *r == old(self).battery,
            *final(self) == (Measurement { battery: *final(r), ..*old(self) }),
    {
        &mut self.battery
    }

    /// Set the value of `battery`.
    pub fn set_battery(&mut self, value: u32) -> (r: &mut Self)
        ensures
            *r == (Measurement { battery: value, ..*old(self) }),
            *final(self) == *final(r),
    {
        self.battery = value;
        self
    }

    /// Builder method that sets the value of `battery`.
    pub fn init_battery(self, value: u32) -> (r: Self)
        ensures
            r == (Measurement { battery: value, ..self }),
    {
        Measurement { battery: value, ..self }
    }

    /// Return a reference to `lux`.
    pub fn lux(&self) -> (r: &u32)
        ensures
            r == self.lux,
    {
        &self.lux
    }

    /// Return a mutable reference to `lux`.
    pub fn mut_lux(&mut self) -> (r: &mut u32)
        ensures
            *r == old(self).lux,
            *final(self) == (Measurement { lux: *final(r), ..*old(self) }),
    {
        &mut self.lux
    }

    /// Set the value of `lux`.
    pub fn set_lux(&mut self, value: u32) -> (r: &mut Self)
        ensures
            *r == (Measurement { lux: value, ..*old(self) }),
            *final(self) == *final(r),
    {
        self.lux = value;
        self
    }

    /// Builder method that sets the value of `lux`.
    pub fn init_lux(self, value: u32) -> (r: Self)
        ensures
            r == (Measurement { lux: value, ..self }),
    {
        Measurement { lux: value, ..self }
    }

    /// Return a reference to `temperature`.
    pub fn temperature(&self) -> (r: &u32)
        ensures
            r == self.temperature,
    {
        &self.temperature
    }

    /// Return a mutable reference to `temperature`.
    pub fn mut_temperature(&mut self) -> (r: &mut u32)
        ensures
            *r == old(self).temperature,
            *final(self) == (Measurement { temperature: *final(r), ..*old(self) }),
    {
        &mut self.temperature
    }

    /// Set the value of `temperature`.
    pub fn set_temperature(&mut self, value: u32) -> (r: &mut Self)
        ensures
            *r == (Measurement { temperature: value, ..*old(self) }),
            *final(self) == *final(r),
    {
        self.temperature = value;
        self
    }

    /// Builder method that sets the value of `temperature`.
    pub fn init_temperature(self, value: u32) -> (r: Self)
        ensures
            r == (Measurement { temperature: value, ..self }),
    {
        Measurement { temperature: value, ..self }
    }

    /// Return a reference to `humidity`.
    pub fn humidity(&self) -> (r: &u32)
        ensures
            r == self.humidity,
    {
        &self.humidity
    }

    /// Return a mutable reference to `humidity`.
    pub fn mut_humidity(&mut self) -> (r: &mut u32)
        ensures
            *r == old(self).humidity,
            *final(self) == (Measurement { humidity: *final(r), ..*old(self) }),
    {
        &mut self.humidity
    }

    /// Set the value of `humidity`.
    pub fn set_humidity(&mut self, value: u32) -> (r: &mut Self)
        ensures
            *r == (Measurement { humidity: value, ..*old(self) }),
            *final(self) == *final(r),
    {
        self.humidity = value;
        self
    }

    /// Builder method that sets the value of `humidity`.
    pub fn init_humidity(self, value: u32) -> (r: Self)
        ensures
            r == (Measurement { humidity: value, ..self }),
    {
        Measurement { humidity: value, ..self }
    }

    /// Return a reference to `soil_pf`.
    pub fn soil_pf(&self) -> (r: &u32)
        ensures
            r == self.soil_pf,
    {
        &self.soil_pf
    }

    /// Return a mutable reference to `soil_pf`.
    pub fn mut_soil_pf(&mut self) -> (r: &mut u32)
        ensures
            *r == old(self).soil_pf,
            *final(self) == (Measurement { soil_pf: *final(r), ..*old(self) }),
    {
        &mut self.soil_pf
    }

    /// Set the value of `soil_pf`.
    pub fn set_soil_pf(&mut self, value: u32) -> (r: &mut Self)
        ensures
            *r == (Measurement { soil_pf: value, ..*old(self) }),
            *final(self) == *final(r),
    {
        self.soil_pf = value;
        self
    }

    /// Builder method that sets the value of `soil_pf`.
    pub fn init_soil_pf(self, value: u32) -> (r: Self)
        ensures
            r == (Measurement { soil_pf: value, ..self }),
    {
        Measurement { soil_pf: value, ..self }
    }
}

/// The ranges a plant wants kept, each channel's optional.
#[derive(Clone, Copy, Default, Debug)]
pub struct PlantProfile {
    pub light_mmol: Interval,
    pub light_lux: Interval,
    pub temperature: Interval,
    pub humidity: Interval,
    pub soil_moisture: Interval,
    pub soil_ec: Interval,
    /// Tracks presence of the optional fields.
    pub _has: PlantProfile_::_Hazzer,
}

impl PlantProfile {

    /// Return a reference to `light_mmol` as an `Option`.
    pub fn light_mmol(&self) -> (r: Option<&Interval>)
        ensures
            self._has.light_mmol ==> (r matches Some(p) && *p == self.light_mmol),
            !self._has.light_mmol ==> r is None,
    {
        if self._has.light_mmol {
            Some(&self.light_mmol)
        } else {
            None
        }
    }

    /// Set the value and presence of `light_mmol`.
    pub fn set_light_mmol(&mut self, value: Interval) -> (r: &mut Self)
        ensures
            *r == (PlantProfile {
                light_mmol: value,
                _has: (PlantProfile_::_Hazzer { light_mmol: true, ..old(self)._has }),
                ..*old(self)
            }),
            *final(self) == *final(r),
    {
        self._has.light_mmol = true;
        self.light_mmol = value;
        self
    }

    /// Return a mutable reference to `light_mmol` as an `Option`.
    pub fn mut_light_mmol(&mut self) -> (r: Option<&mut Interval>)
        ensures
            old(self)._has.light_mmol ==> (r matches Some(p) && *p == old(self).light_mmol && *final(self) == (
            PlantProfile { light_mmol: *final(p), ..*old(self) })),
            !old(self)._has.light_mmol ==> r is None && *final(self) == *old(self),
    {
        if self._has.light_mmol {
            Some(&mut self.light_mmol)
        } else {
            None
        }
    }

    /// Clear the presence of `light_mmol`.
    pub fn clear_light_mmol(&mut self) -> (r: &mut Self)
        ensures
            *r == (PlantProfile {
                _has: (PlantProfile_::_Hazzer { light_mmol: false, ..old(self)._has }),
                ..*old(self)
            }),
            *final(self) == *final(r),
    {
        self._has.light_mmol = false;
        self
    }

    /// Take the value of `light_mmol` and clear its presence, leaving the
    /// field at its default.
    pub fn take_light_mmol(&mut self) -> (r: Option<Interval>)
        ensures
            old(self)._has.light_mmol ==> r == Some(old(self).light_mmol) && *final(self) == (PlantProfile {
                light_mmol: (Interval { start: 0, end: 0 }),
                _has: (PlantProfile_::_Hazzer { light_mmol: false, ..old(self)._has }),
                ..*old(self)
            }),
            !old(self)._has.light_mmol ==> r is None && *final(self) == (PlantProfile {
                _has: (PlantProfile_::_Hazzer { light_mmol: false, ..old(self)._has }),
                ..*old(self)
            }),
    {
        if self._has.light_mmol {
            let v = self.light_mmol;
            self.light_mmol = Interval { start: 0, end: 0 };
            self._has.light_mmol = false;
            Some(v)
        } else {
            self._has.light_mmol = false;
            None
        }
    }

    /// Builder method that sets the value of `light_mmol`.
    pub fn init_light_mmol(self, value: Interval) -> (r: Self)
        ensures
            r == (PlantProfile {
                light_mmol: value,
                _has: (PlantProfile_::_Hazzer { light_mmol: true, ..self._has }),
                ..self
            }),
    {
        PlantProfile {
            light_mmol: value,
            _has: PlantProfile_::_Hazzer { light_mmol: true, ..self._has },
            ..self
        }
    }

    /// Return a reference to `light_lux` as an `Option`.
    pub fn light_lux(&self) -> (r: Option<&Interval>)
        ensures
            self._has.light_lux ==> (r matches Some(p) && *p == self.light_lux),
            !self._has.light_lux ==> r is None,
    {
        if self._has.light_lux {
            Some(&self.light_lux)
        } else {
            None
        }
    }

    /// Set the value and presence of `light_lux`.
    pub fn set_light_lux(&mut self, value: Interval) -> (r: &mut Self)
        ensures
            *r == (PlantProfile {
                light_lux: value,
                _has: (PlantProfile_::_Hazzer { light_lux: true, ..old(self)._has }),
                ..*old(self)
            }),
            *final(self) == *final(r),
    {
        self._has.light_lux = true;
        self.light_lux = value;
        self
    }

    /// Return a mutable reference to `light_lux` as an `Option`.
    pub fn mut_light_lux(&mut self) -> (r: Option<&mut Interval>)
        ensures
            old(self)._has.light_lux ==> (r matches Some(p) && *p == old(self).light_lux && *final(self) == (
            PlantProfile { light_lux: *final(p), ..*old(self) })),
            !old(self)._has.light_lux ==> r is None && *final(self) == *old(self),
    {
        if self._has.light_lux {
            Some(&mut self.light_lux)
        } else {
            None
        }
    }

    /// Clear the presence of `light_lux`.
    pub fn clear_light_lux(&mut self) -> (r: &mut Self)
        ensures
            *r == (PlantProfile {
                _has: (PlantProfile_::_Hazzer { light_lux: false, ..old(self)._has }),
                ..*old(self)
            }),
            *final(self) == *final(r),
    {
        self._has.light_lux = false;
        self
    }

    /// Take the value of `light_lux` and clear its presence, leaving the
    /// field at its default.
    pub fn take_light_lux(&mut self) -> (r: Option<Interval>)
        ensures
            old(self)._has.light_lux ==> r == Some(old(self).light_lux) && *final(self) == (PlantProfile {
                light_lux: (Interval { start: 0, end: 0 }),
                _has: (PlantProfile_::_Hazzer { light_lux: false, ..old(self)._has }),
                ..*old(self)
            }),
            !old(self)._has.light_lux ==> r is None && *final(self) == (PlantProfile {
                _has: (PlantProfile_::_Hazzer { light_lux: false, ..old(self)._has }),
                ..*old(self)
            }),
    {
        if self._has.light_lux {
            let v = self.light_lux;
            self.light_lux = Interval { start: 0, end: 0 };
            self._has.light_lux = false;
            Some(v)
        } else {
            self._has.light_lux = false;
            None
        }
    }

    /// Builder method that sets the value of `light_lux`.
    pub fn init_light_lux(self, value: Interval) -> (r: Self)
        ensures
            r == (PlantProfile {
                light_lux: value,
                _has: (PlantProfile_::_Hazzer { light_lux: true, ..self._has }),
                ..self
            }),
    {
        PlantProfile {
            light_lux: value,
            _has: PlantProfile_::_Hazzer { light_lux: true, ..self._has },
            ..self
        }
    }

    /// Return a reference to `temperature` as an `Option`.
    pub fn temperature(&self) -> (r: Option<&Interval>)
        ensures
            self._has.temperature ==> (r matches Some(p) && *p == self.temperature),
            !self._has.temperature ==> r is None,
    {
        if self._has.temperature {
            Some(&self.temperature)
        } else {
            None
        }
    }

    /// Set the value and presence of `temperature`.
    pub fn set_temperature(&mut self, value: Interval) -> (r: &mut Self)
        ensures
            *r == (PlantProfile {
                temperature: value,
                _has: (PlantProfile_::_Hazzer { temperature: true, ..old(self)._has }),
                ..*old(self)
            }),
            *final(self) == *final(r),
    {
        self._has.temperature = true;
        self.temperature = value;
        self
    }

    /// Return a mutable reference to `temperature` as an `Option`.
    pub fn mut_temperature(&mut self) -> (r: Option<&mut Interval>)
        ensures
            old(self)._has.temperature ==> (r matches Some(p) && *p == old(self).temperature && *final(self) == (
            PlantProfile { temperature: *final(p), ..*old(self) })),
            !old(self)._has.temperature ==> r is None && *final(self) == *old(self),
    {
        if self._has.temperature {
            Some(&mut self.temperature)
        } else {
            None
        }
    }

    /// Clear the presence of `temperature`.
    pub fn clear_temperature(&mut self) -> (r: &mut Self)
        ensures
            *r == (PlantProfile {
                _has: (PlantProfile_::_Hazzer { temperature: false, ..old(self)._has }),
                ..*old(self)
            }),
            *final(self) == *final(r),
    {
        self._has.temperature = false;
        self
    }

    /// Take the value of `temperature` and clear its presence, leaving the
    /// field at its default.
    pub fn take_temperature(&mut self) -> (r: Option<Interval>)
        ensures
            old(self)._has.temperature ==> r == Some(old(self).temperature) && *final(self) == (PlantProfile {
                temperature: (Interval { start: 0, end: 0 }),
                _has: (PlantProfile_::_Hazzer { temperature: false, ..old(self)._has }),
                ..*old(self)
            }),
            !old(self)._has.temperature ==> r is None && *final(self) == (PlantProfile {
                _has: (PlantProfile_::_Hazzer { temperature: false, ..old(self)._has }),
                ..*old(self)
            }),
    {
        if self._has.temperature {
            let v = self.temperature;
            self.temperature = Interval { start: 0, end: 0 };
            self._has.temperature = false;
            Some(v)
        } else {
            self._has.temperature = false;
            None
        }
    }

    /// Builder method that sets the value of `temperature`.
    pub fn init_temperature(self, value: Interval) -> (r: Self)
        ensures
            r == (PlantProfile {
                temperature: value,
                _has: (PlantProfile_::_Hazzer { temperature: true, ..self._has }),
                ..self
            }),
    {
        PlantProfile {
            temperature: value,
            _has: PlantProfile_::_Hazzer { temperature: true, ..self._has },
            ..self
        }
    }

    /// Return a reference to `humidity` as an `Option`.
    pub fn humidity(&self) -> (r: Option<&Interval>)
        ensures
            self._has.humidity ==> (r matches Some(p) && *p == self.humidity),
            !self._has.humidity ==> r is None,
    {
        if self._has.humidity {
            Some(&self.humidity)
        } else {
            None
        }
    }

    /// Set the value and presence of `humidity`.
    pub fn set_humidity(&mut self, value: Interval) -> (r: &mut Self)
        ensures
            *r == (PlantProfile {
                humidity: value,
                _has: (PlantProfile_::_Hazzer { humidity: true, ..old(self)._has }),
                ..*old(self)
            }),
            *final(self) == *final(r),
    {
        self._has.humidity = true;
        self.humidity = value;
        self
    }

    /// Return a mutable reference to `humidity` as an `Option`.
    pub fn mut_humidity(&mut self) -> (r: Option<&mut Interval>)
        ensures
            old(self)._has.humidity ==> (r matches Some(p) && *p == old(self).humidity && *final(self) == (
            PlantProfile { humidity: *final(p), ..*old(self) })),
            !old(self)._has.humidity ==> r is None && *final(self) == *old(self),
    {
        if self._has.humidity {
            Some(&mut self.humidity)
        } else {
            None
        }
    }

    /// Clear the presence of `humidity`.
    pub fn clear_humidity(&mut self) -> (r: &mut Self)
        ensures
            *r == (PlantProfile {
                _has: (PlantProfile_::_Hazzer { humidity: false, ..old(self)._has }),
                ..*old(self)
            }),
            *final(self) == *final(r),
    {
        self._has.humidity = false;
        self
    }

    /// Take the value of `humidity` and clear its presence, leaving the
    /// field at its default.
    pub fn take_humidity(&mut self) -> (r: Option<Interval>)
        ensures
            old(self)._has.humidity ==> r == Some(old(self).humidity) && *final(self) == (PlantProfile {
                humidity: (Interval { start: 0, end: 0 }),
                _has: (PlantProfile_::_Hazzer { humidity: false, ..old(self)._has }),
                ..*old(self)
            }),
            !old(self)._has.humidity ==> r is None && *final(self) == (PlantProfile {
                _has: (PlantProfile_::_Hazzer { humidity: false, ..old(self)._has }),
                ..*old(self)
            }),
    {
        if self._has.humidity {
            let v = self.humidity;
            self.humidity = Interval { start: 0, end: 0 };
            self._has.humidity = false;
            Some(v)
        } else {
            self._has.humidity = false;
            None
        }
    }

    /// Builder method that sets the value of `humidity`.
    pub fn init_humidity(self, value: Interval) -> (r: Self)
        ensures
            r == (PlantProfile {
                humidity: value,
                _has: (PlantProfile_::_Hazzer { humidity: true, ..self._has }),
                ..self
            }),
    {
        PlantProfile {
            humidity: value,
            _has: PlantProfile_::_Hazzer { humidity: true, ..self._has },
            ..self
        }
    }

    /// Return a reference to `soil_moisture` as an `Option`.
    pub fn soil_moisture(&self) -> (r: Option<&Interval>)
        ensures
            self._has.soil_moisture ==> (r matches Some(p) && *p == self.soil_moisture),
            !self._has.soil_moisture ==> r is None,
    {
        if self._has.soil_moisture {
            Some(&self.soil_moisture)
        } else {
            None
        }
    }

    /// Set the value and presence of `soil_moisture`.
    pub fn set_soil_moisture(&mut self, value: Interval) -> (r: &mut Self)
        ensures
            *r == (PlantProfile {
                soil_moisture: value,
                _has: (PlantProfile_::_Hazzer { soil_moisture: true, ..old(self)._has }),
                ..*old(self)
            }),
            *final(self) == *final(r),
    {
        self._has.soil_moisture = true;
        self.soil_moisture = value;
        self
    }

    /// Return a mutable reference to `soil_moisture` as an `Option`.
    pub fn mut_soil_moisture(&mut self) -> (r: Option<&mut Interval>)
        ensures
            old(self)._has.soil_moisture ==> (r matches Some(p) && *p == old(self).soil_moisture && *final(self) == (
            PlantProfile { soil_moisture: *final(p), ..*old(self) })),
            !old(self)._has.soil_moisture ==> r is None && *final(self) == *old(self),
    {
        if self._has.soil_moisture {
            Some(&mut self.soil_moisture)
        } else {
            None
        }
    }

    /// Clear the presence of `soil_moisture`.
    pub fn clear_soil_moisture(&mut self) -> (r: &mut Self)
        ensures
            *r == (PlantProfile {
                _has: (PlantProfile_::_Hazzer { soil_moisture: false, ..old(self)._has }),
                ..*old(self)
            }),
            *final(self) == *final(r),
    {
        self._has.soil_moisture = false;
        self
    }

    /// Take the value of `soil_moisture` and clear its presence, leaving the
    /// field at its default.
    pub fn take_soil_moisture(&mut self) -> (r: Option<Interval>)
        ensures
            old(self)._has.soil_moisture ==> r == Some(old(self).soil_moisture) && *final(self) == (PlantProfile {
                soil_moisture: (Interval { start: 0, end: 0 }),
                _has: (PlantProfile_::_Hazzer { soil_moisture: false, ..old(self)._has }),
                ..*old(self)
            }),
            !old(self)._has.soil_moisture ==> r is None && *final(self) == (PlantProfile {
                _has: (PlantProfile_::_Hazzer { soil_moisture: false, ..old(self)._has }),
                ..*old(self)
            }),
    {
        if self._has.soil_moisture {
            let v = self.soil_moisture;
            self.soil_moisture = Interval { start: 0, end: 0 };
            self._has.soil_moisture = false;
            Some(v)
        } else {
            self._has.soil_moisture = false;
            None
        }
    }

    /// Builder method that sets the value of `soil_moisture`.
    pub fn init_soil_moisture(self, value: Interval) -> (r: Self)
        ensures
            r == (PlantProfile {
                soil_moisture: value,
                _has: (PlantProfile_::_Hazzer { soil_moisture: true, ..self._has }),
                ..self
            }),
    {
        PlantProfile {
            soil_moisture: value,
            _has: PlantProfile_::_Hazzer { soil_moisture: true, ..self._has },
            ..self
        }
    }

    /// Return a reference to `soil_ec` as an `Option`.
    pub fn soil_ec(&self) -> (r: Option<&Interval>)
        ensures
            self._has.soil_ec ==> (r matches Some(p) && *p == self.soil_ec),
            !self._has.soil_ec ==> r is None,
    {
        if self._has.soil_ec {
            Some(&self.soil_ec)
        } else {
            None
        }
    }

    /// Set the value and presence of `soil_ec`.
    pub fn set_soil_ec(&mut self, value: Interval) -> (r: &mut Self)
        ensures
            *r == (PlantProfile {
                soil_ec: value,
                _has: (PlantProfile_::_Hazzer { soil_ec: true, ..old(self)._has }),
                ..*old(self)
            }),
            *final(self) == *final(r),
    {
        self._has.soil_ec = true;
        self.soil_ec = value;
        self
    }

    /// Return a mutable reference to `soil_ec` as an `Option`.
    pub fn mut_soil_ec(&mut self) -> (r: Option<&mut Interval>)
        ensures
            old(self)._has.soil_ec ==> (r matches Some(p) && *p == old(self).soil_ec && *final(self) == (
            PlantProfile { soil_ec: *final(p), ..*old(self) })),
            !old(self)._has.soil_ec ==> r is None && *final(self) == *old(self),
    {
        if self._has.soil_ec {
            Some(&mut self.soil_ec)
        } else {
            None
        }
    }

    /// Clear the presence of `soil_ec`.
    pub fn clear_soil_ec(&mut self) -> (r: &mut Self)
        ensures
            *r == (PlantProfile {
                _has: (PlantProfile_::_Hazzer { soil_ec: false, ..old(self)._has }),
                ..*old(self)
            }),
            *final(self) == *final(r),
    {
        self._has.soil_ec = false;
        self
    }

    /// Take the value of `soil_ec` and clear its presence, leaving the
    /// field at its default.
    pub fn take_soil_ec(&mut self) -> (r: Option<Interval>)
        ensures
            old(self)._has.soil_ec ==> r == Some(old(self).soil_ec) && *final(self) == (PlantProfile {
                soil_ec: (Interval { start: 0, end: 0 }),
                _has: (PlantProfile_::_Hazzer { soil_ec: false, ..old(self)._has }),
                ..*old(self)
            }),
            !old(self)._has.soil_ec ==> r is None && *final(self) == (PlantProfile {
                _has: (PlantProfile_::_Hazzer { soil_ec: false, ..old(self)._has }),
                ..*old(self)
            }),
    {
        if self._has.soil_ec {
            let v = self.soil_ec;
            self.soil_ec = Interval { start: 0, end: 0 };
            self._has.soil_ec = false;
            Some(v)
        } else {
            self._has.soil_ec = false;
            None
        }
    }

    /// Builder method that sets the value of `soil_ec`.
    pub fn init_soil_ec(self, value: Interval) -> (r: Self)
        ensures
            r == (PlantProfile {
                soil_ec: value,
                _has: (PlantProfile_::_Hazzer { soil_ec: true, ..self._has }),
                ..self
            }),
    {
        PlantProfile {
            soil_ec: value,
            _has: PlantProfile_::_Hazzer { soil_ec: true, ..self._has },
            ..self
        }
    }
}

/// One measurement event: a reading and the range it stood for.
#[derive(Clone, Copy, Default, Debug)]
pub struct MeasurementEntry {
    pub start: Timestamp,
    pub end: Timestamp,
    pub measurement: Measurement,
    /// Tracks presence of the optional fields.
    pub _has: MeasurementEntry_::_Hazzer,
}

impl MeasurementEntry {

    /// Return a reference to `start` as an `Option`.
    pub fn start(&self) -> (r: Option<&Timestamp>)
        ensures
            self._has.start ==> (r matches Some(p) && *p == self.start),
            !self._has.start ==> r is None,
    {
        if self._has.start {
            Some(&self.start)
        } else {
            None
        }
    }

    /// Set the value and presence of `start`.
    pub fn set_start(&mut self, value: Timestamp) -> (r: &mut Self)
        ensures
            *r == (MeasurementEntry {
                start: value,
                _has: (MeasurementEntry_::_Hazzer { start: true, ..old(self)._has }),
                ..*old(self)
            }),
            *final(self) == *final(r),
    {
        self._has.start = true;
        self.start = value;
        self
    }

    /// Return a mutable reference to `start` as an `Option`.
    pub fn mut_start(&mut self) -> (r: Option<&mut Timestamp>)
        ensures
            old(self)._has.start ==> (r matches Some(p) && *p == old(self).start && *final(self) == (
            MeasurementEntry { start: *final(p), ..*old(self) })),
            !old(self)._has.start ==> r is None && *final(self) == *old(self),
    {
        if self._has.start {
            Some(&mut self.start)
        } else {
            None
        }
    }

    /// Clear the presence of `start`.
    pub fn clear_start(&mut self) -> (r: &mut Self)
        ensures
            *r == (MeasurementEntry {
                _has: (MeasurementEntry_::_Hazzer { start: false, ..old(self)._has }),
                ..*old(self)
            }),
            *final(self) == *final(r),
    {
        self._has.start = false;
        self
    }

    /// Take the value of `start` and clear its presence, leaving the
    /// field at its default.
    pub fn take_start(&mut self) -> (r: Option<Timestamp>)
        ensures
            old(self)._has.start ==> r == Some(old(self).start) && *final(self) == (MeasurementEntry {
                start: (Timestamp { timestamp: 0 }),
                _has: (MeasurementEntry_::_Hazzer { start: false, ..old(self)._has }),
                ..*old(self)
            }),
            !old(self)._has.start ==> r is None && *final(self) == (MeasurementEntry {
                _has: (MeasurementEntry_::_Hazzer { start: false, ..old(self)._has }),
                ..*old(self)
            }),
    {
        if self._has.start {
            let v = self.start;
            self.start = Timestamp { timestamp: 0 };
            self._has.start = false;
            Some(v)
        } else {
            self._has.start = false;
            None
        }
    }

    /// Builder method that sets the value of `start`.
    pub fn init_start(self, value: Timestamp) -> (r: Self)
        ensures
            r == (MeasurementEntry {
                start: value,
                _has: (MeasurementEntry_::_Hazzer { start: true, ..self._has }),
                ..self
            }),
    {
        MeasurementEntry {
            start: value,
            _has: MeasurementEntry_::_Hazzer { start: true, ..self._has },
            ..self
        }
    }

    /// Return a reference to `end` as an `Option`.
    pub fn end(&self) -> (r: Option<&Timestamp>)
        ensures
            self._has.end ==> (r matches Some(p) && *p == self.end),
            !self._has.end ==> r is None,
    {
        if self._has.end {
            Some(&self.end)
        } else {
            None
        }
    }

    /// Set the value and presence of `end`.
    pub fn set_end(&mut self, value: Timestamp) -> (r: &mut Self)
        ensures
            *r == (MeasurementEntry {
                end: value,
                _has: (MeasurementEntry_::_Hazzer { end: true, ..old(self)._has }),
                ..*old(self)
            }),
            *final(self) == *final(r),
    {
        self._has.end = true;
        self.end = value;
        self
    }

    /// Return a mutable reference to `end` as an `Option`.
    pub fn mut_end(&mut self) -> (r: Option<&mut Timestamp>)
        ensures
            old(self)._has.end ==> (r matches Some(p) && *p == old(self).end && *final(self) == (
            MeasurementEntry { end: *final(p), ..*old(self) })),
            !old(self)._has.end ==> r is None && *final(self) == *old(self),
    {
        if self._has.end {
            Some(&mut self.end)
        } else {
            None
        }
    }

    /// Clear the presence of `end`.
    pub fn clear_end(&mut self) -> (r: &mut Self)
        ensures
            *r == (MeasurementEntry {
                _has: (MeasurementEntry_::_Hazzer { end: false, ..old(self)._has }),
                ..*old(self)
            }),
            *final(self) == *final(r),
    {
        self._has.end = false;
        self
    }

    /// Take the value of `end` and clear its presence, leaving the
    /// field at its default.
    pub fn take_end(&mut self) -> (r: Option<Timestamp>)
        ensures
            old(self)._has.end ==> r == Some(old(self).end) && *final(self) == (MeasurementEntry {
                end: (Timestamp { timestamp: 0 }),
                _has: (MeasurementEntry_::_Hazzer { end: false, ..old(self)._has }),
                ..*old(self)
            }),
            !old(self)._has.end ==> r is None && *final(self) == (MeasurementEntry {
                _has: (MeasurementEntry_::_Hazzer { end: false, ..old(self)._has }),
                ..*old(self)
            }),
    {
        if self._has.end {
            let v = self.end;
            self.end = Timestamp { timestamp: 0 };
            self._has.end = false;
            Some(v)
        } else {
            self._has.end = false;
            None
        }
    }

    /// Builder method that sets the value of `end`.
    pub fn init_end(self, value: Timestamp) -> (r: Self)
        ensures
            r == (MeasurementEntry {
                end: value,
                _has: (MeasurementEntry_::_Hazzer { end: true, ..self._has }),
                ..self
            }),
    {
        MeasurementEntry {
            end: value,
            _has: MeasurementEntry_::_Hazzer { end: true, ..self._has },
            ..self
        }
    }

    /// Return a reference to `measurement` as an `Option`.
    pub fn measurement(&self) -> (r: Option<&Measurement>)
        ensures
            self._has.measurement ==> (r matches Some(p) && *p == self.measurement),
            !self._has.measurement ==> r is None,
    {
        if self._has.measurement {
            Some(&self.measurement)
        } else {
            None
        }
    }

    /// Set the value and presence of `measurement`.
    pub fn set_measurement(&mut self, value: Measurement) -> (r: &mut Self)
        ensures
            *r == (MeasurementEntry {
                measurement: value,
                _has: (MeasurementEntry_::_Hazzer { measurement: true, ..old(self)._has }),
                ..*old(self)
            }),
            *final(self) == *final(r),
    {
        self._has.measurement = true;
        self.measurement = value;
        self
    }

    /// Return a mutable reference to `measurement` as an `Option`.
    pub fn mut_measurement(&mut self) -> (r: Option<&mut Measurement>)
        ensures
            old(self)._has.measurement ==> (r matches Some(p) && *p == old(self).measurement && *final(self) == (
            MeasurementEntry { measurement: *final(p), ..*old(self) })),
            !old(self)._has.measurement ==> r is None && *final(self) == *old(self),
    {
        if self._has.measurement {
            Some(&mut self.measurement)
        } else {
            None
        }
    }

    /// Clear the presence of `measurement`.
    pub fn clear_measurement(&mut self) -> (r: &mut Self)
        ensures
            *r == (MeasurementEntry {
                _has: (MeasurementEntry_::_Hazzer { measurement: false, ..old(self)._has }),
                ..*old(self)
            }),
            *final(self) == *final(r),
    {
        self._has.measurement = false;
        self
    }

    /// Take the value of `measurement` and clear its presence, leaving the
    /// field at its default.
    pub fn take_measurement(&mut self) -> (r: Option<Measurement>)
        ensures
            old(self)._has.measurement ==> r == Some(old(self).measurement) && *final(self) == (MeasurementEntry {
                measurement: (Measurement { battery: 0, lux: 0, temperature: 0, humidity: 0, soil_pf: 0 }),
                _has: (MeasurementEntry_::_Hazzer { measurement: false, ..old(self)._has }),
                ..*old(self)
            }),
            !old(self)._has.measurement ==> r is None && *final(self) == (MeasurementEntry {
                _has: (MeasurementEntry_::_Hazzer { measurement: false, ..old(self)._has }),
                ..*old(self)
            }),
    {
        if self._has.measurement {
            let v = self.measurement;
            self.measurement = Measurement { battery: 0, lux: 0, temperature: 0, humidity: 0, soil_pf: 0 };
            self._has.measurement = false;
            Some(v)
        } else {
            self._has.measurement = false;
            None
        }
    }

    /// Builder method that sets the value of `measurement`.
    pub fn init_measurement(self, value: Measurement) -> (r: Self)
        ensures
            r == (MeasurementEntry {
                measurement: value,
                _has: (MeasurementEntry_::_Hazzer { measurement: true, ..self._has }),
                ..self
            }),
    {
        MeasurementEntry {
            measurement: value,
            _has: MeasurementEntry_::_Hazzer { measurement: true, ..self._has },
            ..self
        }
    }
}

/// One watering event: when it happened and for how long.
#[derive(Clone, Copy, Default, Debug)]
pub struct WateringEntry {
    pub occurred_at: Timestamp,
    pub duration_msec: u32,
    /// Tracks presence of the optional fields.
    pub _has: WateringEntry_::_Hazzer,
}

impl WateringEntry {

    /// Return a reference to `occurred_at` as an `Option`.
    pub fn occurred_at(&self) -> (r: Option<&Timestamp>)
        ensures
            self._has.occurred_at ==> (r matches Some(p) && *p == self.occurred_at),
            !self._has.occurred_at ==> r is None,
    {
        if self._has.occurred_at {
            Some(&self.occurred_at)
        } else {
            None
        }
    }

    /// Set the value and presence of `occurred_at`.
    pub fn set_occurred_at(&mut self, value: Timestamp) -> (r: &mut Self)
        ensures
            *r == (WateringEntry {
                occurred_at: value,
                _has: (WateringEntry_::_Hazzer { occurred_at: true, ..old(self)._has }),
                ..*old(self)
            }),
            *final(self) == *final(r),
    {
        self._has.occurred_at = true;
        self.occurred_at = value;
        self
    }

    /// Return a mutable reference to `occurred_at` as an `Option`.
    pub fn mut_occurred_at(&mut self) -> (r: Option<&mut Timestamp>)
        ensures
            old(self)._has.occurred_at ==> (r matches Some(p) && *p == old(self).occurred_at && *final(self) == (
            WateringEntry { occurred_at: *final(p), ..*old(self) })),
            !old(self)._has.occurred_at ==> r is None && *final(self) == *old(self),
    {
        if self._has.occurred_at {
            Some(&mut self.occurred_at)
        } else {
            None
        }
    }

    /// Clear the presence of `occurred_at`.
    pub fn clear_occurred_at(&mut self) -> (r: &mut Self)
        ensures
            *r == (WateringEntry {
                _has: (WateringEntry_::_Hazzer { occurred_at: false, ..old(self)._has }),
                ..*old(self)
            }),
            *final(self) == *final(r),
    {
        self._has.occurred_at = false;
        self
    }

    /// Take the value of `occurred_at` and clear its presence, leaving the
    /// field at its default.
    pub fn take_occurred_at(&mut self) -> (r: Option<Timestamp>)
        ensures
            old(self)._has.occurred_at ==> r == Some(old(self).occurred_at) && *final(self) == (WateringEntry {
                occurred_at: (Timestamp { timestamp: 0 }),
                _has: (WateringEntry_::_Hazzer { occurred_at: false, ..old(self)._has }),
                ..*old(self)
            }),
            !old(self)._has.occurred_at ==> r is None && *final(self) == (WateringEntry {
                _has: (WateringEntry_::_Hazzer { occurred_at: false, ..old(self)._has }),
                ..*old(self)
            }),
    {
        if self._has.occurred_at {
            let v = self.occurred_at;
            self.occurred_at = Timestamp { timestamp: 0 };
            self._has.occurred_at = false;
            Some(v)
        } else {
            self._has.occurred_at = false;
            None
        }
    }

    /// Builder method that sets the value of `occurred_at`.
    pub fn init_occurred_at(self, value: Timestamp) -> (r: Self)
        ensures
            r == (WateringEntry {
                occurred_at: value,
                _has: (WateringEntry_::_Hazzer { occurred_at: true, ..self._has }),
                ..self
            }),
    {
        WateringEntry {
            occurred_at: value,
            _has: WateringEntry_::_Hazzer { occurred_at: true, ..self._has },
            ..self
        }
    }

    /// Return a reference to `duration_msec`.
    pub fn duration_msec(&self) -> (r: &u32)
        ensures
            r == self.duration_msec,
    {
        &self.duration_msec
    }

    /// Return a mutable reference to `duration_msec`.
    pub fn mut_duration_msec(&mut self) -> (r: &mut u32)
        ensures
            *r == old(self).duration_msec,
            *final(self) == (WateringEntry { duration_msec: *final(r), ..*old(self) }),
    {
        &mut self.duration_msec
    }

    /// Set the value of `duration_msec`.
    pub fn set_duration_msec(&mut self, value: u32) -> (r: &mut Self)
        ensures
            *r == (WateringEntry { duration_msec: value, ..*old(self) }),
            *final(self) == *final(r),
    {
        self.duration_msec = value;
        self
    }

    /// Builder method that sets the value of `duration_msec`.
    pub fn init_duration_msec(self, value: u32) -> (r: Self)
        ensures
            r == (WateringEntry { duration_msec: value, ..self }),
    {
        WateringEntry { duration_msec: value, ..self }
    }
}

/// One event of either kind, or none.
#[derive(Clone, Default, Debug)]
pub struct Event {
    pub event: Option<Event_::Event>,
}

/// The station's buffered event stream, up to sixteen entries on the
/// wire.
#[derive(Clone, Default, Debug)]
pub struct Events {
    pub events: Vec<Event>,
}

/// The station's six identity bytes, as a length-capped byte string.
#[derive(Clone, Default, Debug)]
pub struct MacAddress {
    pub mac_address: Vec<u8>,
}

impl MacAddress {
    /// Return a reference to `mac_address`.
    pub fn mac_address(&self) -> (r: &Vec<u8>)
        ensures
            r == self.mac_address,
    {
        &self.mac_address
    }

    /// Return a mutable reference to `mac_address`.
    pub fn mut_mac_address(&mut self) -> (r: &mut Vec<u8>)
        ensures
            *r == old(self).mac_address,
            *final(self) == (MacAddress { mac_address: *final(r) }),
    {
        &mut self.mac_address
    }

    /// Set the value of `mac_address`; on the wire it is capped at six
    /// bytes.
    pub fn set_mac_address(&mut self, value: Vec<u8>) -> (r: &mut Self)
        requires
            value@.len() <= 6,
        ensures
            *r == (MacAddress { mac_address: value }),
            *final(self) == *final(r),
    {
        self.mac_address = value;
        self
    }

    /// Builder method that sets the value of `mac_address`.
    pub fn init_mac_address(self, value: Vec<u8>) -> (r: Self)
        requires
            value@.len() <= 6,
        ensures
            r == (MacAddress { mac_address: value }),
    {
        MacAddress { mac_address: value }
    }
}

/// Where a station stands in a sync exchange, as a small signed code.
#[derive(Clone, Copy, PartialEq, Eq, Structural, Debug)]
pub struct SyncState(pub i8);

impl SyncState {
    /// The station is ready to sync.
    pub fn ready() -> (r: Self)
        ensures
            r.0 == 0,
    {
        SyncState(0)
    }

    /// A sync is under way.
    pub fn in_progress() -> (r: Self)
        ensures
            r.0 == 1,
    {
        SyncState(1)
    }

    /// The sync has finished.
    pub fn done() -> (r: Self)
        ensures
            r.0 == 2,
    {
        SyncState(2)
    }
}

impl Default for SyncState {
    /// The default state is ready.
    fn default() -> (r: Self)
        ensures
            r.0 == 0,
    {
        SyncState(0)
    }
}

impl From<i8> for SyncState {
    fn from(val: i8) -> (r: Self) {
        SyncState(val)
    }
}

impl vstd::std_specs::convert::FromSpecImpl<i8> for SyncState {
    open spec fn obeys_from_spec() -> bool {
        true
    }

    open spec fn from_spec(val: i8) -> Self {
        SyncState(val)
    }
}

} // verus!
