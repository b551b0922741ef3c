//! Control logic of a small USB gadget appliance: the ordered stream of input
//! events, the fixed-rate control loop's state and screen layout, the mapping
//! of input lines to keys, and the daemon and gadget configuration model.
pub mod args;
pub mod event;
pub mod queue;
pub mod control;
pub mod input;
pub mod warning;
pub mod conf;
pub mod gadgetconfig;
