//! Data-synchronisation core of a workout logger: lift records, the draft
//! built from the submission form, the fetch outcome that decides what is
//! delivered to the UI thread, and the per-frame reconciliation of delivered
//! results into the visible state.
pub mod lift;
pub mod channel;
pub mod fetch;
pub mod app_state;
