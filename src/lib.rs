//! Exchange-agnostic market-data streaming: stream descriptors, the parsing
//! capability each exchange plugs in, and the verified state machine of a
//! streaming client (connection lifecycle, subscription bookkeeping,
//! reconnection with replay, and the decisions of its two pumps).

pub mod text;
pub mod timeframe;
pub mod streams;
pub mod market_data;
pub mod message_parser;
pub mod binance;
pub mod websocket_client;
pub mod client_laws;
pub mod pumps;
