//! An in-memory spending tracker: a budget and a running total held in
//! integer cents, a log of expenditures tagged with a category, and a
//! display form `$D.CC` for monetary amounts.

pub mod assets;
pub mod category;
pub mod laws;
pub mod money;
pub mod state;
