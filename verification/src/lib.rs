//! A driver for the BlackBerry Q10 PMOD keyboard, spoken to over a two-wire
//! serial bus at a fixed peripheral address.
//!
//! The driver translates typed requests (firmware version, key-event FIFO,
//! backlight, software reset, key status) into byte-level register
//! transactions against any transport that implements [`KbdBus`], and decodes
//! the raw response bytes into typed values.

mod bus;
mod decode;
mod driver;

pub use driver::Bbq10Kbd;
pub use driver::Error;

pub use bus::BusFault;
pub use bus::BusLog;
pub use bus::BusOp;
pub use bus::KbdBus;
pub use bus::KBD_ADDR;
pub use bus::REG_BACKLIGHT;
pub use bus::REG_FIFO;
pub use bus::REG_KEY_STATUS;
pub use bus::REG_RESET;
pub use bus::REG_VERSION;
pub use bus::WRITE_FLAG;
pub use bus::data_read;
pub use bus::lemma_backlight_select_byte;
pub use bus::payload_write;
pub use bus::read_txn;
pub use bus::sel_write;
pub use decode::CapsLockState;
pub use decode::FifoCount;
pub use decode::KeyRaw;
pub use decode::KeyStatus;
pub use decode::NumLockState;
pub use decode::Version;
pub use decode::lemma_num_lock_independent;
pub use decode::spec_key_raw_from_bytes;
pub use decode::spec_key_status_from_byte;
pub use decode::spec_version_from_byte;
