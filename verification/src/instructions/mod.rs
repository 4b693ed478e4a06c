pub mod make;
pub mod take;
pub mod refund;
