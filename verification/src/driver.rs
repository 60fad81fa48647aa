use vstd::prelude::*;

use crate::bus::BusOp;
use crate::bus::KbdBus;
use crate::bus::KBD_ADDR;
use crate::bus::REG_BACKLIGHT;
use crate::bus::REG_FIFO;
use crate::bus::REG_KEY_STATUS;
use crate::bus::REG_RESET;
use crate::bus::REG_VERSION;
use crate::bus::WRITE_FLAG;
use crate::bus::data_read;
use crate::bus::payload_write;
use crate::bus::read_txn;
use crate::bus::sel_write;
use crate::decode::KeyRaw;
use crate::decode::KeyStatus;
use crate::decode::Version;
use crate::decode::spec_key_raw_from_bytes;
use crate::decode::spec_key_status_from_byte;
use crate::decode::spec_version_from_byte;

verus! {

/// The error type of the driver. Any failure of the underlying bus write or
/// read is mapped uniformly to the one variant, discarding the transport's
/// own detail: the driver does not retry and does not distinguish bus error
/// subtypes.
#[derive(Copy, Clone, Debug, PartialEq, Eq, Structural)]
pub enum Error {
    /// A generic bus transport error
    I2c,
}

/// A BlackBerry Q10 PMOD keyboard, driven over an exclusively owned bus
/// transport `B`.
///
/// Every operation's contract is stated over the transport's transaction log:
/// on success the log grows by exactly the transactions of that operation's
/// row in the register table (select write, then response read, in that order), and the
/// returned value is the decoding of the bytes that came back; on error the
/// operation stops at the failed transaction and performs no further bus
/// activity.
pub struct Bbq10Kbd<B: KbdBus> {
    i2c: B,
}

impl<B: KbdBus> Bbq10Kbd<B> {
    /// The transaction log of the owned transport.
    pub closed spec fn log(&self) -> Seq<BusOp> {
        self.i2c.log()
    }

    /// The bus transport this keyboard owns.
    pub closed spec fn bus(&self) -> B {
        self.i2c
    }

    /// Create a new BBQ10 keyboard instance, taking exclusive ownership of
    /// the bus transport.
    pub fn new(i2c: B) -> (r: Self)
        ensures
            r.bus() == i2c,
            r.log() == i2c.log(),
    {
        Self { i2c }
    }

    /// Consume self, returning the inner bus transport. This is the only
    /// disposal path; dropping the keyboard performs no bus activity.
    pub fn release(self) -> (r: B)
        ensures
            r == self.bus(),
    {
        self.i2c
    }

    /// Issue the register-select write for `reg`, then read `resp.len()`
    /// response bytes, as two ordered bus transactions.
    fn read_register(&mut self, reg: u8, resp: &mut Vec<u8>) -> (r: Result<(), Error>)
        ensures
            final(resp)@.len() == old(resp)@.len(),
            r is Ok ==> read_txn(old(self).log(), final(self).log(), reg, final(resp)@),
            r is Err ==> r == Err::<(), Error>(Error::I2c) && (final(self).log() == old(self).log()
                || final(self).log() == old(self).log().push(sel_write(reg))),
    {
        let mut cmd: Vec<u8> = Vec::new();
        cmd.push(reg);
        proof {
            assert(cmd@ =~= seq![reg]);
        }
        match self.i2c.bus_write(KBD_ADDR, cmd.as_slice()) {
            Ok(_) => {},
            Err(_) => {
                return Err(Error::I2c);
            },
        }
        proof {
            assert(self.log() =~= old(self).log().push(sel_write(reg)));
        }
        match self.i2c.bus_read(KBD_ADDR, resp) {
            Ok(_) => {},
            Err(_) => {
                return Err(Error::I2c);
            },
        }
        proof {
            assert(self.log() =~= old(self).log().push(sel_write(reg)).push(data_read(resp@)));
        }
        Ok(())
    }

    /// Get the version reported by the keyboard's firmware: select register
    /// 0x01, read one byte back, and split it into its two version nibbles.
    pub fn get_version(&mut self) -> (r: Result<Version, Error>)
        ensures
            (match r {
                Ok(v) => exists|d: Seq<u8>|
                    #[trigger] read_txn(old(self).log(), final(self).log(), REG_VERSION, d)
                        && d.len() == 1 && v == spec_version_from_byte(d[0]),
                Err(e) => e == Error::I2c && (final(self).log() == old(self).log()
                    || final(self).log() == old(self).log().push(sel_write(REG_VERSION))),
            }),
    {
        let mut resp: Vec<u8> = Vec::new();
        resp.push(0u8);
        match self.read_register(REG_VERSION, &mut resp) {
            Ok(_) => {},
            Err(e) => {
                return Err(e);
            },
        }
        Ok(Version::from_byte(resp[0]))
    }

    /// Obtain a single FIFO item from the keyboard's firmware: select
    /// register 0x09, read two bytes back, and decode them as an event tag
    /// and a key id.
    pub fn get_fifo_key_raw(&mut self) -> (r: Result<KeyRaw, Error>)
        ensures
            (match r {
                Ok(k) => exists|d: Seq<u8>|
                    #[trigger] read_txn(old(self).log(), final(self).log(), REG_FIFO, d)
                        && d.len() == 2 && k == spec_key_raw_from_bytes(d[0], d[1]),
                Err(e) => e == Error::I2c && (final(self).log() == old(self).log()
                    || final(self).log() == old(self).log().push(sel_write(REG_FIFO))),
            }),
    {
        let mut resp: Vec<u8> = Vec::new();
        resp.push(0u8);
        resp.push(0u8);
        match self.read_register(REG_FIFO, &mut resp) {
            Ok(_) => {},
            Err(e) => {
                return Err(e);
            },
        }
        let buf: [u8; 2] = [resp[0], resp[1]];
        Ok(KeyRaw::from_bytes(buf))
    }

    /// Get the current level of backlight: select register 0x05 and read one
    /// byte back. All `u8` values are valid.
    pub fn get_backlight(&mut self) -> (r: Result<u8, Error>)
        ensures
            (match r {
                Ok(lvl) => exists|d: Seq<u8>|
                    #[trigger] read_txn(old(self).log(), final(self).log(), REG_BACKLIGHT, d)
                        && d.len() == 1 && lvl == d[0],
                Err(e) => e == Error::I2c && (final(self).log() == old(self).log()
                    || final(self).log() == old(self).log().push(sel_write(REG_BACKLIGHT))),
            }),
    {
        let mut resp: Vec<u8> = Vec::new();
        resp.push(0u8);
        match self.read_register(REG_BACKLIGHT, &mut resp) {
            Ok(_) => {},
            Err(e) => {
                return Err(e);
            },
        }
        Ok(resp[0])
    }

    /// Set the current level of backlight, as one bus transaction carrying
    /// the write-flagged register-select byte (0x85) followed by the level.
    /// All `u8` values are valid.
    pub fn set_backlight(&mut self, level: u8) -> (r: Result<(), Error>)
        ensures
            (match r {
                Ok(_) => final(self).log() == old(self).log().push(
                    payload_write(REG_BACKLIGHT | WRITE_FLAG, level),
                ),
                Err(e) => e == Error::I2c && final(self).log() == old(self).log(),
            }),
    {
        let mut cmd: Vec<u8> = Vec::new();
        cmd.push(REG_BACKLIGHT | WRITE_FLAG);
        cmd.push(level);
        proof {
            assert(cmd@ =~= seq![REG_BACKLIGHT | WRITE_FLAG, level]);
        }
        match self.i2c.bus_write(KBD_ADDR, cmd.as_slice()) {
            Ok(_) => Ok(()),
            Err(_) => Err(Error::I2c),
        }
    }

    /// Reset the device via software, as one bus transaction carrying the
    /// reset register-select byte.
    ///
    /// WARNING: the device may take >= 10ms to reboot and will not be
    /// responsive during that time; issue no further requests until the
    /// window has elapsed.
    pub fn sw_reset(&mut self) -> (r: Result<(), Error>)
        ensures
            (match r {
                Ok(_) => final(self).log() == old(self).log().push(sel_write(REG_RESET)),
                Err(e) => e == Error::I2c && final(self).log() == old(self).log(),
            }),
    {
        let mut cmd: Vec<u8> = Vec::new();
        cmd.push(REG_RESET);
        proof {
            assert(cmd@ =~= seq![REG_RESET]);
        }
        match self.i2c.bus_write(KBD_ADDR, cmd.as_slice()) {
            Ok(_) => Ok(()),
            Err(_) => Err(Error::I2c),
        }
    }

    /// Get the reported status of the keyboard: select register 0x04, read
    /// one byte back, and decode its num-lock, caps-lock and FIFO-count
    /// fields.
    pub fn get_key_status(&mut self) -> (r: Result<KeyStatus, Error>)
        ensures
            (match r {
                Ok(s) => exists|d: Seq<u8>|
                    #[trigger] read_txn(old(self).log(), final(self).log(), REG_KEY_STATUS, d)
                        && d.len() == 1 && s == spec_key_status_from_byte(d[0]),
                Err(e) => e == Error::I2c && (final(self).log() == old(self).log()
                    || final(self).log() == old(self).log().push(sel_write(REG_KEY_STATUS))),
            }),
    {
        let mut resp: Vec<u8> = Vec::new();
        resp.push(0u8);
        match self.read_register(REG_KEY_STATUS, &mut resp) {
            Ok(_) => {},
            Err(e) => {
                return Err(e);
            },
        }
        Ok(KeyStatus::from_byte(resp[0]))
    }
}

} // verus!
