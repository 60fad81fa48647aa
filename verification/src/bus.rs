use vstd::prelude::*;

verus! {

/// Fixed peripheral address of the keyboard on the two-wire bus. Not
/// configurable by this layer.
pub const KBD_ADDR: u8 = 0x1F;

/// Register-select byte of the firmware version register.
pub const REG_VERSION: u8 = 0x01;

/// Register-select byte of the key status register.
pub const REG_KEY_STATUS: u8 = 0x04;

/// Register-select byte of the backlight register.
pub const REG_BACKLIGHT: u8 = 0x05;

/// Register-select byte of the software reset register.
pub const REG_RESET: u8 = 0x08;

/// Register-select byte of the key event FIFO register.
pub const REG_FIFO: u8 = 0x09;

/// Flag OR'd into a register-select byte to request a write access rather
/// than a read access.
pub const WRITE_FLAG: u8 = 0x80;

/// An opaque failure of the underlying bus transport. The driver does not
/// interpret it further: peripheral absent, NACK and timeout all collapse to
/// this one value.
#[derive(Copy, Clone, Debug, PartialEq, Eq, Structural)]
pub struct BusFault;

/// One completed bus transaction, as recorded in a transport's transaction
/// log. The log is the mathematical model the driver's contracts are stated
/// over: it pins down exactly which bytes went over the wire, in which order.
#[verifier::ext_equal]
pub enum BusOp {
    /// `data` was written to the peripheral at `addr`.
    BusWrite { addr: u8, data: Seq<u8> },
    /// `data` was read back from the peripheral at `addr`.
    BusRead { addr: u8, data: Seq<u8> },
}

/// A transport's transaction log: every completed bus transaction, oldest
/// first. The log is ghost state — an unverified transport implementation
/// supplies a body for [`KbdBus::log`] only to satisfy the trait, and that
/// body is never called at runtime.
pub type BusLog = Seq<BusOp>;

/// The register-select write that starts a read of register `reg`: one byte,
/// the register id, written to the keyboard's address.
pub open spec fn sel_write(reg: u8) -> BusOp {
    BusOp::BusWrite { addr: KBD_ADDR, data: seq![reg] }
}

/// The response read that completes a register read, returning `data` from
/// the keyboard's address.
pub open spec fn data_read(data: Seq<u8>) -> BusOp {
    BusOp::BusRead { addr: KBD_ADDR, data: data }
}

/// The single write transaction of a register write: the write-flagged
/// register-select byte followed by the payload byte, written to the
/// keyboard's address.
pub open spec fn payload_write(reg_sel: u8, payload: u8) -> BusOp {
    BusOp::BusWrite { addr: KBD_ADDR, data: seq![reg_sel, payload] }
}

/// A whole register read on the wire: relative to the log `pre` before the
/// operation, the log `post` after it holds exactly two new transactions, the
/// register-select write of `reg` followed by the read that returned `data`.
pub open spec fn read_txn(pre: Seq<BusOp>, post: Seq<BusOp>, reg: u8, data: Seq<u8>) -> bool {
    post == pre.push(sel_write(reg)).push(data_read(data))
}

/// Law: the register-select byte of a backlight write is exactly 0x85, the
/// backlight register id OR'd with the write flag.
pub proof fn lemma_backlight_select_byte()
    ensures
        REG_BACKLIGHT | WRITE_FLAG == 0x85,
{
    assert(0x05u8 | 0x80u8 == 0x85u8) by (bit_vector);
}

/// An addressed, byte-oriented bus transport (the two-wire bus the keyboard
/// sits on), supplied by the driver's user. The driver is verified against
/// this contract alone.
///
/// An implementation keeps a ghost log of the transactions it has completed,
/// and a transaction that fails with a `BusFault` leaves the log unchanged:
/// a failed write or read is one that did not take effect on the wire. That
/// is what lets the driver promise that an operation that reports an error
/// performed no further bus activity.
pub trait KbdBus: Sized {
    /// All transactions completed on this transport so far, oldest first.
    spec fn log(&self) -> BusLog;

    /// Write `data` to the peripheral at `addr` as one bus transaction.
    fn bus_write(&mut self, addr: u8, data: &[u8]) -> (r: Result<(), BusFault>)
        ensures
            r is Ok ==> final(self).log() == old(self).log().push(
                (BusOp::BusWrite { addr, data: data@ }),
            ),
            r is Err ==> final(self).log() == old(self).log(),
    ;

    /// Read exactly `buf.len()` bytes from the peripheral at `addr` into
    /// `buf`, as one bus transaction.
    fn bus_read(&mut self, addr: u8, buf: &mut Vec<u8>) -> (r: Result<(), BusFault>)
        ensures
            final(buf)@.len() == old(buf)@.len(),
            r is Ok ==> final(self).log() == old(self).log().push(
                (BusOp::BusRead { addr, data: final(buf)@ }),
            ),
            r is Err ==> final(self).log() == old(self).log(),
    ;
}

} // verus!
