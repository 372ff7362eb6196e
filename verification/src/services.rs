pub mod apilog;
pub mod dorm;
pub mod login;
pub mod wechat_mp;
