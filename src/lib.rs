pub mod basic;
pub mod context;
pub mod laws;
pub mod longterm;
pub mod model;
pub mod short_term;
