//! Alpaca protocol logic for astronomy devices: error codes, the `ImageBytes`
//! image transport format, device enumerations, discovery bookkeeping and
//! small wire-format helpers, each with a machine-checked contract.

pub mod text;
pub mod errors;
pub mod image_array;
pub mod image_bytes;
pub mod enums;
pub mod discovery;
pub mod devices;
pub mod management;
pub mod image_json;
pub mod responses;
pub mod device_state;
pub mod device_props;
pub mod http;
pub mod json_response;
pub mod timestamp;
