pub mod error;
pub mod managed;
pub mod message_pump;
pub mod reentry;
pub mod startup;
pub mod timer;
