//! A safe, verified core for a multitouch trackpad event bridge.
//!
//! The native multitouch subsystem (device enumeration, frame delivery,
//! start/stop calls) lives behind an unverified shell; this crate holds
//! everything that can be stated and proved about the bridge itself:
//!
//! * the device classifier, a pure table from raw device attributes to a
//!   semantic device type;
//! * the touch record data model, kept bit-exact so that records coming off
//!   the hardware round-trip unchanged;
//! * the device handle lifecycle state machine (listen, stop, release) with
//!   its at-most-one-handler invariant;
//! * the callback bridge's delivery rules: when a batch reaches the handler,
//!   how a batch fans out into per-record messages, and how a contained
//!   handler panic is reported through the native result convention.

mod bridge;
mod classify;
mod device;
mod touch;

pub use bridge::{
    enqueue_batch, frame_return_code, has_records, lemma_batches_preserved_by_enqueue,
    lemma_outcomes_do_not_affect_deliveries, lemma_zero_count_delivers_nothing, spec_deliveries,
    spec_return_code, spec_session_deliveries, HandlerOutcome,
};

pub use classify::{
    classify, lemma_classify_builtin, lemma_classify_external, spec_classify, DeviceType,
};
pub use device::{
    lemma_lifecycle_preserves_wf, lemma_second_listen_rejected, lemma_stop_then_listen_retargets,
    DeviceAttrs, MTDevice, MtError,
};
pub use touch::{
    lemma_ordinal_touch_state_round_trip, lemma_touch_state_ordinal_round_trip,
    spec_touch_state_from_ordinal, spec_touch_state_ordinal, touch_state_from_ordinal,
    touch_state_ordinal, MTPoint, MTTouch, MTTouchState, MTVector,
};
