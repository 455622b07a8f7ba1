//! Private (authenticated) endpoints.

pub mod active_orders;
pub mod assets;
pub mod cancel_bulk_order;
pub mod cancel_order;
pub mod cancel_orders;
pub mod change_losscut_price;
pub mod change_order;
pub mod close_order;
pub mod executions;
pub mod latest_executions;
pub mod margin;
pub mod open_positions;
pub mod order;
pub mod orders;
pub mod position_summary;
