//! What each exchange adds to the client: its addresses, its options, the
//! way it signs a request and reads a response.

pub mod binance;
pub mod bitbank;
pub mod bitflyer;
pub mod bybit;
pub mod coincheck;
