pub mod format;
pub mod id;
pub mod image;
pub mod preview;
pub mod request;
pub mod response;
pub mod storage;
pub mod text;
pub mod upload;
