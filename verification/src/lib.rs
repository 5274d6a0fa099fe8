pub mod data;
pub mod numeric;
pub mod parse;
pub mod decode;
pub mod timefmt;
pub mod store;
pub mod schedule;
pub mod server;
