//! Input checks shared by the entry points.
use vstd::prelude::*;
use crate::errors::{Fault, Panic};

verus! {

/// Latitude bound in microdegrees (90 degrees).
pub const MAX_LATITUDE: i128 = 90_000_000;
/// Longitude bound in microdegrees (180 degrees).
pub const MAX_LONGITUDE: i128 = 180_000_000;

/// Coordinates are valid when latitude lies in [-90°, 90°] and longitude in
/// [-180°, 180°], both in microdegrees; latitude is checked first.
pub open spec fn coordinates_fault(latitude: i128, longitude: i128) -> Option<Fault> {
    if latitude < -MAX_LATITUDE || latitude > MAX_LATITUDE {
        Some(Fault::Panic(Panic::InvalidLatitude))
    } else if longitude < -MAX_LONGITUDE || longitude > MAX_LONGITUDE {
        Some(Fault::Panic(Panic::InvalidLongitude))
    } else {
        None
    }
}

pub fn validate_coordinates(latitude: i128, longitude: i128) -> (r: Result<(), Fault>)
    ensures
        match coordinates_fault(latitude, longitude) {
            Some(f) => r == Err::<(), Fault>(f),
            None => r is Ok,
        },
{
    if latitude < -MAX_LATITUDE || latitude > MAX_LATITUDE {
        return Err(Fault::Panic(Panic::InvalidLatitude));
    }
    if longitude < -MAX_LONGITUDE || longitude > MAX_LONGITUDE {
        return Err(Fault::Panic(Panic::InvalidLongitude));
    }
    Ok(())
}

} // verus!
