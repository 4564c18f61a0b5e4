pub mod responses;
pub mod transfer;
