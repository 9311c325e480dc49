pub mod assemble;
pub mod laws;
pub mod model;
pub mod route;
