pub mod hash;
pub mod headers;
pub mod sign;
pub mod url;
