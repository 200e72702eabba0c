pub mod brands;
pub mod fetch;
pub mod filter;
pub mod model;
pub mod report;
pub mod value;
