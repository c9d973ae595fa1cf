//! Verified decision logic of the Astra agent: model wire contracts, login
//! flows, terminal events and ingestion measurements.
pub mod browser_code;
pub mod capacity;
pub mod clock;
pub mod codec;
pub mod device_login;
pub mod histogram;
pub mod json;
pub mod login;
pub mod measurement;
pub mod model_wire;
pub mod protocol_history;
pub mod reconciliation;
pub mod startup_query;
pub mod startup_script;
pub mod text;
pub mod thinking;
pub mod thinking_probe;
pub mod tui_event;
pub mod turn_auth_retry;
pub mod web;
pub mod workload;
