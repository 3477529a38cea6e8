//! A safety layer over a handle-based control library for PCIe-switch
//! hardware.
//!
//! Every interaction with the hardware goes through an opaque device handle
//! obtained by opening a device path and released by closing it.  This crate
//! provides the resource-ownership guard around that handle, the translation
//! of the boundary library's C-style failure signalling (null pointers,
//! negative lengths, a global last-error string) into structured errors, and
//! the marshaling of fixed-size or null-terminated byte buffers into
//! validated text.

mod device;
mod error;
mod marshal;

pub use device::SwitchtecDevice;
pub use error::translate_last_error;
pub use error::translated_kind;
pub use error::translated_message;
pub use error::DeviceError;
pub use error::ErrorKind;
pub use marshal::buf_to_string;
pub use marshal::cstr_to_string;
pub use marshal::lemma_all_zero_buffer_decodes_empty;
pub use marshal::null_prefix;
pub use marshal::null_prefix_len;
pub use marshal::CStrBytes;
pub use marshal::CStrExt;
