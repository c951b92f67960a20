//! The business operations of the API, one module each.

pub mod dynamic_qr;

pub use dynamic_qr::{DynamicQR, DynamicQRBuilder, DynamicQRRequest, DynamicQRResponse};
