pub mod audit;
pub mod handlers;
pub mod request;
pub mod response;
