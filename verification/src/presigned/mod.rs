//! Transfers over URLs that a server signed.
//!
//! The server keeps the credentials and hands out short-lived URLs; the client
//! only moves bytes, keeps account of the parts, and asks for fresh URLs when
//! the old ones are about to expire.

pub mod completion_request;
pub mod laws;
pub mod metadata;
pub mod multipart_upload;
pub mod multipart_upload_plan;
pub mod range_download;
pub mod range_download_plan;
pub mod run_laws;
pub mod time;
pub mod upload_part;
pub mod uploaded_part;
