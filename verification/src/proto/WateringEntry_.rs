use vstd::prelude::*;

verus! {

/// Presence flags for the optional fields of `WateringEntry`, one plain
/// boolean per field.
#[derive(Clone, Copy, PartialEq, Eq, Structural, Default, Debug)]
pub struct _Hazzer {
    pub occurred_at: bool,
}

impl _Hazzer {
    /// New hazzer with all fields off.
    pub fn _new() -> (r: Self)
        ensures
            r == (_Hazzer { occurred_at: false }),
    {
        _Hazzer { occurred_at: false }
    }

    /// Query presence of `occurred_at`.
    pub fn occurred_at(&self) -> (r: bool)
        ensures
            r == self.occurred_at,
    {
        self.occurred_at
    }

    /// Set presence of `occurred_at`.
    pub fn set_occurred_at(&mut self) -> (r: &mut Self)
        ensures
            *r == (_Hazzer { occurred_at: true, ..*old(self) }),
            *final(self) == *final(r),
    {
        self.occurred_at = true;
        self
    }

    /// Clear presence of `occurred_at`.
    pub fn clear_occurred_at(&mut self) -> (r: &mut Self)
        ensures
            *r == (_Hazzer { occurred_at: false, ..*old(self) }),
            *final(self) == *final(r),
    {
        self.occurred_at = false;
        self
    }

    /// Builder method that sets the presence of `occurred_at`.
    pub fn init_occurred_at(self) -> (r: Self)
        ensures
            r == (_Hazzer { occurred_at: true, ..self }),
    {
        _Hazzer { occurred_at: true, ..self }
    }
}

} // verus!
