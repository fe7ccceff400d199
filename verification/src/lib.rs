//! A client for the Backblaze B2 upload workflow, without the transport:
//! the requests to send, and what each reply means.

pub mod checksum;
pub mod client;
pub mod encoding;
pub mod error;
pub mod json;
pub mod models;
pub mod naming;
pub mod request;
pub mod text;

pub use client::B2Uploader;
pub use error::B2Error;
pub use models::{ApiInfo, AuthResponse, BucketRequest, StorageApi, UploadUrlResponse};
