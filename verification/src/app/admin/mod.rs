pub mod orders;
pub mod products;
pub mod upload;
