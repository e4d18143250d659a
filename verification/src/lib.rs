//! Verified core of an upload-and-convert video service: the records it keeps
//! about uploaded files, the rules that decide which uploads are accepted, the
//! per-request upload protocol, the conversion worker, bearer-token extraction
//! and the mapping of rejections to replies.
pub mod basic;
pub mod constants;
pub mod defined_error;
pub mod handler;
pub mod obj;
pub mod text;
pub mod upload;
pub mod worker;
