//! Billing, metering and pricing logic of the utility-drip contracts.

pub mod address;
pub mod arith;
pub mod auto_refill;
pub mod continuous_flow;
pub mod energy_grid;
pub mod multi_sensor;
pub mod price_oracle;
pub mod sep40_streaming;
pub mod tamper_detection;
