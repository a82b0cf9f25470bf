pub mod order;
pub mod product;
