use vstd::prelude::*;

verus! {

/// Presence flags for the optional fields of `PlantProfile`, one plain
/// boolean per field.
#[derive(Clone, Copy, PartialEq, Eq, Structural, Default, Debug)]
pub struct _Hazzer {
    pub light_mmol: bool,
    pub light_lux: bool,
    pub temperature: bool,
    pub humidity: bool,
    pub soil_moisture: bool,
    pub soil_ec: bool,
}

impl _Hazzer {
    /// New hazzer with all fields off.
    pub fn _new() -> (r: Self)
        ensures
            r == (_Hazzer { light_mmol: false, light_lux: false, temperature: false, humidity: false, soil_moisture: false, soil_ec: false }),
    {
        _Hazzer { light_mmol: false, light_lux: false, temperature: false, humidity: false, soil_moisture: false, soil_ec: false }
    }

    /// Query presence of `light_mmol`.
    pub fn light_mmol(&self) -> (r: bool)
        ensures
            r == self.light_mmol,
    {
        self.light_mmol
    }

    /// Set presence of `light_mmol`.
    pub fn set_light_mmol(&mut self) -> (r: &mut Self)
        ensures
            *r == (_Hazzer { light_mmol: true, ..*old(self) }),
            *final(self) == *final(r),
    {
        self.light_mmol = true;
        self
    }

    /// Clear presence of `light_mmol`.
    pub fn clear_light_mmol(&mut self) -> (r: &mut Self)
        ensures
            *r == (_Hazzer { light_mmol: false, ..*old(self) }),
            *final(self) == *final(r),
    {
        self.light_mmol = false;
        self
    }

    /// Builder method that sets the presence of `light_mmol`.
    pub fn init_light_mmol(self) -> (r: Self)
        ensures
            r == (_Hazzer { light_mmol: true, ..self }),
    {
        _Hazzer { light_mmol: true, ..self }
    }

    /// Query presence of `light_lux`.
    pub fn light_lux(&self) -> (r: bool)
        ensures
            r == self.light_lux,
    {
        self.light_lux
    }

    /// Set presence of `light_lux`.
    pub fn set_light_lux(&mut self) -> (r: &mut Self)
        ensures
            *r == (_Hazzer { light_lux: true, ..*old(self) }),
            *final(self) == *final(r),
    {
        self.light_lux = true;
        self
    }

    /// Clear presence of `light_lux`.
    pub fn clear_light_lux(&mut self) -> (r: &mut Self)
        ensures
            *r == (_Hazzer { light_lux: false, ..*old(self) }),
            *final(self) == *final(r),
    {
        self.light_lux = false;
        self
    }

    /// Builder method that sets the presence of `light_lux`.
    pub fn init_light_lux(self) -> (r: Self)
        ensures
            r == (_Hazzer { light_lux: true, ..self }),
    {
        _Hazzer { light_lux: true, ..self }
    }

    /// Query presence of `temperature`.
    pub fn temperature(&self) -> (r: bool)
        ensures
            r == self.temperature,
    {
        self.temperature
    }

    /// Set presence of `temperature`.
    pub fn set_temperature(&mut self) -> (r: &mut Self)
        ensures
            *r == (_Hazzer { temperature: true, ..*old(self) }),
            *final(self) == *final(r),
    {
        self.temperature = true;
        self
    }

    /// Clear presence of `temperature`.
    pub fn clear_temperature(&mut self) -> (r: &mut Self)
        ensures
            *r == (_Hazzer { temperature: false, ..*old(self) }),
            *final(self) == *final(r),
    {
        self.temperature = false;
        self
    }

    /// Builder method that sets the presence of `temperature`.
    pub fn init_temperature(self) -> (r: Self)
        ensures
            r == (_Hazzer { temperature: true, ..self }),
    {
        _Hazzer { temperature: true, ..self }
    }

    /// Query presence of `humidity`.
    pub fn humidity(&self) -> (r: bool)
        ensures
            r == self.humidity,
    {
        self.humidity
    }

    /// Set presence of `humidity`.
    pub fn set_humidity(&mut self) -> (r: &mut Self)
        ensures
            *r == (_Hazzer { humidity: true, ..*old(self) }),
            *final(self) == *final(r),
    {
        self.humidity = true;
        self
    }

    /// Clear presence of `humidity`.
    pub fn clear_humidity(&mut self) -> (r: &mut Self)
        ensures
            *r == (_Hazzer { humidity: false, ..*old(self) }),
            *final(self) == *final(r),
    {
        self.humidity = false;
        self
    }

    /// Builder method that sets the presence of `humidity`.
    pub fn init_humidity(self) -> (r: Self)
        ensures
            r == (_Hazzer { humidity: true, ..self }),
    {
        _Hazzer { humidity: true, ..self }
    }

    /// Query presence of `soil_moisture`.
    pub fn soil_moisture(&self) -> (r: bool)
        ensures
            r == self.soil_moisture,
    {
        self.soil_moisture
    }

    /// Set presence of `soil_moisture`.
    pub fn set_soil_moisture(&mut self) -> (r: &mut Self)
        ensures
            *r == (_Hazzer { soil_moisture: true, ..*old(self) }),
            *final(self) == *final(r),
    {
        self.soil_moisture = true;
        self
    }

    /// Clear presence of `soil_moisture`.
    pub fn clear_soil_moisture(&mut self) -> (r: &mut Self)
        ensures
            *r == (_Hazzer { soil_moisture: false, ..*old(self) }),
            *final(self) == *final(r),
    {
        self.soil_moisture = false;
        self
    }

    /// Builder method that sets the presence of `soil_moisture`.
    pub fn init_soil_moisture(self) -> (r: Self)
        ensures
            r == (_Hazzer { soil_moisture: true, ..self }),
    {
        _Hazzer { soil_moisture: true, ..self }
    }

    /// Query presence of `soil_ec`.
    pub fn soil_ec(&self) -> (r: bool)
        ensures
            r == self.soil_ec,
    {
        self.soil_ec
    }

    /// Set presence of `soil_ec`.
    pub fn set_soil_ec(&mut self) -> (r: &mut Self)
        ensures
            *r == (_Hazzer { soil_ec: true, ..*old(self) }),
            *final(self) == *final(r),
    {
        self.soil_ec = true;
        self
    }

    /// Clear presence of `soil_ec`.
    pub fn clear_soil_ec(&mut self) -> (r: &mut Self)
        ensures
            *r == (_Hazzer { soil_ec: false, ..*old(self) }),
            *final(self) == *final(r),
    {
        self.soil_ec = false;
        self
    }

    /// Builder method that sets the presence of `soil_ec`.
    pub fn init_soil_ec(self) -> (r: Self)
        ensures
            r == (_Hazzer { soil_ec: true, ..self }),
    {
        _Hazzer { soil_ec: true, ..self }
    }
}

} // verus!
