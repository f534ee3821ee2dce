//! Helpers shared by the pages: the Schindler test record, the MQTT worker
//! decisions and the conversion of text into per-character entries.

pub mod convert;
pub mod json;
pub mod mqtt;
