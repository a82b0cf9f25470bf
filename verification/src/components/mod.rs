pub mod admin_nav;
pub mod badge;
pub mod button;
pub mod order_badge;
pub mod product_card;
