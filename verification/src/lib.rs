//! PCB design calculations: the parameter parsers and decision logic of the
//! toolkit, with their contracts.
pub mod copper;
pub mod inductor;
pub mod ohms_law;
pub mod params;
pub mod spacing;
pub mod text;
pub mod wire_gauge;
