pub mod apilog;
pub mod auth;
pub mod client;
pub mod dorm;
pub mod endpoints;
pub mod wechat_mp;
