//! Rules for GeoNet's wire values on their way into domain types.

use vstd::prelude::*;

use crate::domain::error::QuakeError;
use crate::domain::types::{Mmi, MmiRange, QuakeQuality, RangeValidated};
use crate::text::decimal;

verus! {

/// GeoNet's wire value for "no felt reports": `-1`, not an absent field.
pub const MMI_NOT_FELT: i32 = -1;

/// The MMI a wire value stands for: none when the field is absent or holds
/// the not-felt sentinel, else the validated reading.
pub open spec fn spec_wire_mmi(mmi: Option<i32>) -> Option<int> {
    match mmi {
        Some(m) => if m == MMI_NOT_FELT { None } else { Some(m as int) },
        None => None,
    }
}

/// GeoNet's `-1` means "not felt" and gives no MMI; an absent field gives
/// none either; every other value is the reading itself.
pub proof fn law_wire_mmi_sentinel(m: i32)
    ensures
        spec_wire_mmi(Some(-1i32)) is None,
        spec_wire_mmi(None) is None,
        m != -1 ==> spec_wire_mmi(Some(m)) == Some(m as int),
{
}

/// Turn GeoNet's `mmi` field into an optional validated MMI. The not-felt
/// sentinel `-1` becomes `None` rather than a range failure; any other
/// value outside 0..=12 is an error.
pub fn mmi_from_wire(mmi: Option<i32>) -> (r: Result<Option<Mmi>, QuakeError>)
    ensures
        r is Ok <==> (spec_wire_mmi(mmi) matches Some(m) ==> 0 <= m <= 12),
        r matches Ok(v) ==> (v matches Some(x) <==> spec_wire_mmi(mmi) is Some),
        r matches Ok(Some(x)) ==> spec_wire_mmi(mmi) == Some(x.spec_value() as int),
        r matches Err(e) ==> (e matches QuakeError::OutOfRange { value, min, max, unit }
            && value@ == decimal(mmi->0 as int) && min@ == decimal(MmiRange::spec_min())
            && max@ == decimal(MmiRange::spec_max()) && unit@ == MmiRange::spec_unit()),
{
    match mmi {
        None => Ok(None),
        Some(m) => {
            if m == MMI_NOT_FELT {
                Ok(None)
            } else {
                match Mmi::new(m) {
                    Ok(v) => Ok(Some(v)),
                    Err(e) => Err(e),
                }
            }
        },
    }
}

/// Whether a feature's wire quality marks it deleted. Deleted features are
/// dropped before domain construction: their values are leftovers from a
/// since-invalidated detection and need not validate.
pub fn is_deleted_quality(quality: &str) -> (r: bool)
    ensures
        r <==> QuakeQuality::spec_parse(quality@) == Some(QuakeQuality::Deleted),
{
    match QuakeQuality::parse(quality) {
        Ok(QuakeQuality::Deleted) => true,
        _ => false,
    }
}

} // verus!
