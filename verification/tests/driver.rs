use bbq10kbd::Bbq10Kbd;
use bbq10kbd::BusFault;
use bbq10kbd::BusLog;
use bbq10kbd::CapsLockState;
use bbq10kbd::Error;
use bbq10kbd::FifoCount;
use bbq10kbd::KbdBus;
use bbq10kbd::KeyRaw;
use bbq10kbd::KeyStatus;
use bbq10kbd::NumLockState;
use bbq10kbd::Version;
use bbq10kbd::KBD_ADDR;

/// A stub peripheral: answers register reads from fixed bytes, echoes
/// backlight writes back through backlight reads, and records every write
/// payload in order.
struct StubKbd {
    version: u8,
    status: u8,
    fifo: [u8; 2],
    backlight: u8,
    selected: u8,
    writes: Vec<Vec<u8>>,
    reads: usize,
    fail_writes: bool,
    fail_reads: bool,
}

impl StubKbd {
    fn new() -> StubKbd {
        StubKbd {
            version: 0,
            status: 0,
            fifo: [0, 0],
            backlight: 0,
            selected: 0,
            writes: Vec::new(),
            reads: 0,
            fail_writes: false,
            fail_reads: false,
        }
    }
}

impl KbdBus for StubKbd {
    // The transaction log is ghost state: this body only satisfies the trait
    // and is never called at runtime.
    fn log(&self) -> BusLog {
        panic!()
    }

    fn bus_write(&mut self, addr: u8, data: &[u8]) -> Result<(), BusFault> {
        assert_eq!(addr, KBD_ADDR);
        if self.fail_writes {
            return Err(BusFault);
        }
        self.writes.push(data.to_vec());
        self.selected = data[0];
        if data[0] == 0x85 && data.len() == 2 {
            self.backlight = data[1];
        }
        Ok(())
    }

    fn bus_read(&mut self, addr: u8, buf: &mut Vec<u8>) -> Result<(), BusFault> {
        assert_eq!(addr, KBD_ADDR);
        if self.fail_reads {
            return Err(BusFault);
        }
        self.reads += 1;
        match self.selected {
            0x01 => buf[0] = self.version,
            0x04 => buf[0] = self.status,
            0x05 => buf[0] = self.backlight,
            0x09 => {
                buf[0] = self.fifo[0];
                buf[1] = self.fifo[1];
            }
            _ => {}
        }
        Ok(())
    }
}

#[test]
fn get_version_selects_register_0x01_and_decodes_the_byte() {
    let mut stub = StubKbd::new();
    stub.version = 0x23;
    let mut kbd = Bbq10Kbd::new(stub);
    let v = kbd.get_version();
    assert_eq!(v, Ok(Version { major: 2, minor: 3 }));
    let stub = kbd.release();
    assert_eq!(stub.writes, vec![vec![0x01u8]]);
    assert_eq!(stub.reads, 1);
}

#[test]
fn get_key_status_selects_register_0x04_and_decodes_the_byte() {
    let mut stub = StubKbd::new();
    stub.status = 0b0110_0000;
    let mut kbd = Bbq10Kbd::new(stub);
    let s = kbd.get_key_status();
    assert_eq!(
        s,
        Ok(KeyStatus {
            num_lock: NumLockState::On,
            caps_lock: CapsLockState::Unknown,
            fifo_count: FifoCount::EmptyOr32,
        })
    );
    let stub = kbd.release();
    assert_eq!(stub.writes, vec![vec![0x04u8]]);
}

#[test]
fn get_fifo_key_raw_selects_register_0x09_and_decodes_both_bytes() {
    let mut stub = StubKbd::new();
    stub.fifo = [2, 0x41];
    let mut kbd = Bbq10Kbd::new(stub);
    let k = kbd.get_fifo_key_raw();
    assert_eq!(k, Ok(KeyRaw::Held(0x41)));
    let stub = kbd.release();
    assert_eq!(stub.writes, vec![vec![0x09u8]]);
    assert_eq!(stub.reads, 1);
}

#[test]
fn get_backlight_selects_register_0x05() {
    let mut stub = StubKbd::new();
    stub.backlight = 0x7E;
    let mut kbd = Bbq10Kbd::new(stub);
    let lvl = kbd.get_backlight();
    assert_eq!(lvl, Ok(0x7E));
    let stub = kbd.release();
    assert_eq!(stub.writes, vec![vec![0x05u8]]);
}

#[test]
fn set_backlight_sends_0x85_then_the_level_byte() {
    let mut kbd = Bbq10Kbd::new(StubKbd::new());
    assert_eq!(kbd.set_backlight(0x2A), Ok(()));
    let stub = kbd.release();
    assert_eq!(stub.writes, vec![vec![0x85u8, 0x2Au8]]);
    assert_eq!(stub.reads, 0);
}

#[test]
fn sw_reset_sends_register_0x08_and_reads_nothing() {
    let mut kbd = Bbq10Kbd::new(StubKbd::new());
    assert_eq!(kbd.sw_reset(), Ok(()));
    let stub = kbd.release();
    assert_eq!(stub.writes, vec![vec![0x08u8]]);
    assert_eq!(stub.reads, 0);
}

#[test]
fn backlight_write_then_read_echoes_every_level() {
    let mut kbd = Bbq10Kbd::new(StubKbd::new());
    for level in 0..=255u8 {
        assert_eq!(kbd.set_backlight(level), Ok(()));
        assert_eq!(kbd.get_backlight(), Ok(level));
    }
}

#[test]
fn write_phase_failure_returns_i2c_error_and_no_bus_activity() {
    let mut stub = StubKbd::new();
    stub.fail_writes = true;
    let mut kbd = Bbq10Kbd::new(stub);
    assert_eq!(kbd.get_version(), Err(Error::I2c));
    assert_eq!(kbd.get_fifo_key_raw(), Err(Error::I2c));
    assert_eq!(kbd.get_backlight(), Err(Error::I2c));
    assert_eq!(kbd.get_key_status(), Err(Error::I2c));
    assert_eq!(kbd.set_backlight(9), Err(Error::I2c));
    assert_eq!(kbd.sw_reset(), Err(Error::I2c));
    let stub = kbd.release();
    assert!(stub.writes.is_empty());
    assert_eq!(stub.reads, 0);
}

#[test]
fn read_phase_failure_returns_i2c_error_after_only_the_select_write() {
    let mut stub = StubKbd::new();
    stub.fail_reads = true;
    let mut kbd = Bbq10Kbd::new(stub);
    assert_eq!(kbd.get_version(), Err(Error::I2c));
    let stub = kbd.release();
    assert_eq!(stub.writes, vec![vec![0x01u8]]);
    assert_eq!(stub.reads, 0);
}

#[test]
fn release_returns_the_transport_with_its_state_intact() {
    let mut stub = StubKbd::new();
    stub.version = 0x10;
    let kbd = Bbq10Kbd::new(stub);
    let stub = kbd.release();
    assert_eq!(stub.version, 0x10);
    assert!(stub.writes.is_empty());
}
