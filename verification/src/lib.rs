//! Verified core of the modu-tool operator console: the text formatting,
//! the console log, the MQTT worker decisions, the serial read loop and the
//! display settings model.

pub mod text;
pub mod helpers;
pub mod mqtt;
pub mod pages;
pub mod comport;
pub mod settings;
