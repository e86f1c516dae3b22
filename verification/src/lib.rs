//! Bridge between a Modbus/TCP energy-management device and a metrics scraper.
//!
//! The library holds the register catalog, the big-endian decoding of register
//! words, the rendering of exposition lines, the per-address connection pool and
//! the scrape state machine. Network traffic and the rendering of IEEE-754
//! numbers belong to the caller, who performs each [`scrape::Action`] and hands
//! back the matching [`scrape::Event`].

pub mod catalog;
pub mod decode;
pub mod pool;
pub mod scrape;
pub mod text;
