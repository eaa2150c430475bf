//! Driver core for the UBX binary protocol of u-blox GNSS receivers: frame
//! codec, checksum, payload interpreters, satellite classification and the
//! retrying request/response state machine.
pub mod checksum;
pub mod frame;
pub mod constellation;
pub mod nav;
pub mod exchange;
