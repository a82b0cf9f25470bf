pub mod constant;
pub mod form;
pub mod format;
pub mod login_guard;
pub mod order_state;
pub mod payment;
