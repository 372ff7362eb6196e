pub mod apilog;
pub mod list;
pub mod wechat_mp;
