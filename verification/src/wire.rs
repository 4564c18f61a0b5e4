pub mod director;
pub mod gateway;
pub mod storage;
