use vstd::prelude::*;

verus! {

/// The kind of multitouch hardware a device reports itself as.
///
/// `Unknown` is a legitimate, expected classification for hardware
/// generations that the family-id table does not cover; it is a data value,
/// never an error, and it carries the raw family id unchanged.
#[derive(Debug, Clone, Copy, PartialEq, Eq, Structural)]
pub enum DeviceType {
    /// Builtin internal trackpad
    InternalTrackpad,
    /// External trackpad
    ExternalTrackpad,
    /// External Magic Mouse
    MagicMouse,
    /// Unrecognized hardware, with its raw family id
    Unknown(i32),
}

/// The classification table as a pure function of the raw device attributes.
///
/// First match wins: the builtin flag takes priority over every family id;
/// among external devices, family ids 112 and 113 are Magic Mouse hardware
/// and 128 through 130 are external trackpads. Every other id maps to
/// `Unknown` with the id preserved exactly. The table is heuristic and
/// known-incomplete: newer hardware generations land in `Unknown`.
pub open spec fn spec_classify(builtin: bool, family_id: i32) -> DeviceType {
    if builtin {
        DeviceType::InternalTrackpad
    } else if family_id == 112 || family_id == 113 {
        DeviceType::MagicMouse
    } else if 128 <= family_id && family_id <= 130 {
        DeviceType::ExternalTrackpad
    } else {
        DeviceType::Unknown(family_id)
    }
}

/// Classify a device from its raw builtin flag and family id.
///
/// The result is exactly `spec_classify(builtin, family_id)`, so repeated
/// calls on the same attributes always yield the same device type.
pub fn classify(builtin: bool, family_id: i32) -> (t: DeviceType)
    ensures
        t == spec_classify(builtin, family_id),
{
    if builtin {
        DeviceType::InternalTrackpad
    } else if family_id == 112 || family_id == 113 {
        DeviceType::MagicMouse
    } else if 128 <= family_id && family_id <= 130 {
        DeviceType::ExternalTrackpad
    } else {
        DeviceType::Unknown(family_id)
    }
}

/// A builtin device is always classified as the internal trackpad, whatever
/// family id it reports.
pub proof fn lemma_classify_builtin(family_id: i32)
    ensures
        spec_classify(true, family_id) == DeviceType::InternalTrackpad,
{
}

/// For a device that is not builtin, the family id alone decides: 112 and
/// 113 are Magic Mouse hardware, 128 through 130 are external trackpads, and
/// every other id classifies as `Unknown` with the id preserved exactly.
pub proof fn lemma_classify_external(family_id: i32)
    ensures
        family_id == 112 || family_id == 113 ==> spec_classify(false, family_id)
            == DeviceType::MagicMouse,
        128 <= family_id <= 130 ==> spec_classify(false, family_id)
            == DeviceType::ExternalTrackpad,
        !(family_id == 112 || family_id == 113 || 128 <= family_id <= 130) ==> spec_classify(
            false,
            family_id,
        ) == DeviceType::Unknown(family_id),
{
}

} // verus!
