//! The supported drivers, one module each.

pub mod chromedriver;
