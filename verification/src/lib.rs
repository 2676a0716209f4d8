//! Book-ticker collection for Binance spot and USDT-margined markets:
//! stream addressing, exchange-information filtering, quote records,
//! the shared quote book and its freshness audit, and the decisions
//! taken on socket frames and channel events.
pub mod book;
pub mod market;
pub mod session;
pub mod stream;
pub mod ticker;
