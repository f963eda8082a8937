//! Session controller for a terminal explorer of memory banks.

pub mod bank;
pub mod cursor;
pub mod data;
pub mod frame;
pub mod input;
pub mod json;
pub mod nav;
pub mod refresh;
pub mod report;
pub mod session;
pub mod text;
pub mod view;
