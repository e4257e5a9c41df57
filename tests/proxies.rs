use std::cell::{Cell, RefCell};

use shared_bus::{
    AdcOneShot, AdcProxy, BusMutex, CanBus, CanProxy, I2cProxy, I2cRead, I2cWrite, I2cWriteRead,
    SingleContextMutex, SpiProxy, SpiTransfer, SpiWrite,
};

/// A lock for one execution context that counts how often it was taken.
struct CellMutex<B> {
    bus: RefCell<B>,
    locks: Cell<usize>,
}

impl<B> CellMutex<B> {
    fn new(bus: B) -> Self {
        CellMutex { bus: RefCell::new(bus), locks: Cell::new(0) }
    }
}

impl<B> BusMutex for CellMutex<B> {
    type Bus = B;

    fn lock<A, R, F: FnOnce(&mut B, A) -> R>(&self, arg: A, f: F) -> R {
        self.locks.set(self.locks.get() + 1);
        // borrow_mut panics if another operation were still in flight
        let mut bus = self.bus.borrow_mut();
        f(&mut bus, arg)
    }
}

impl<B> SingleContextMutex for CellMutex<B> {}

#[derive(Debug, Clone, PartialEq)]
enum Call {
    Write(u8, Vec<u8>),
    Read(u8, usize),
    WriteRead(u8, Vec<u8>, usize),
    Transfer(Vec<u8>),
    SpiWrite(Vec<u8>),
    AdcRead(u8),
    Transmit(u32),
    Receive,
}

#[derive(Debug, Clone, Copy, PartialEq)]
enum BusError {
    Nack,
    Arbitration,
    Overrun,
}

/// A bus handle that records every call and answers as it was told.
#[derive(Default)]
struct MockBus {
    calls: Vec<Call>,
    fail: Option<BusError>,
    fill: u8,
    would_block: usize,
    sample: u16,
    inbox: Vec<u32>,
}

impl MockBus {
    fn answer(&self) -> Result<(), BusError> {
        match self.fail {
            Some(e) => Err(e),
            None => Ok(()),
        }
    }
}

impl I2cWrite for MockBus {
    type Error = BusError;

    fn write(&mut self, address: u8, bytes: &[u8]) -> Result<(), BusError> {
        self.calls.push(Call::Write(address, bytes.to_vec()));
        self.answer()
    }
}

impl I2cRead for MockBus {
    type Error = BusError;

    fn read(&mut self, address: u8, buffer: &mut [u8]) -> Result<(), BusError> {
        self.calls.push(Call::Read(address, buffer.len()));
        for b in buffer.iter_mut() {
            *b = self.fill;
        }
        self.answer()
    }
}

impl I2cWriteRead for MockBus {
    type Error = BusError;

    fn write_read(&mut self, address: u8, bytes: &[u8], buffer: &mut [u8]) -> Result<(), BusError> {
        self.calls.push(Call::WriteRead(address, bytes.to_vec(), buffer.len()));
        for (i, b) in buffer.iter_mut().enumerate() {
            *b = self.fill + i as u8;
        }
        self.answer()
    }
}

impl SpiTransfer for MockBus {
    type Error = BusError;

    fn transfer<'w>(&mut self, words: &'w mut [u8]) -> Result<&'w [u8], BusError> {
        self.calls.push(Call::Transfer(words.to_vec()));
        for w in words.iter_mut() {
            *w = !*w;
        }
        self.answer()?;
        Ok(words)
    }
}

impl SpiWrite for MockBus {
    type Error = BusError;

    fn write(&mut self, words: &[u8]) -> Result<(), BusError> {
        self.calls.push(Call::SpiWrite(words.to_vec()));
        self.answer()
    }
}

struct Adc1;

struct Channel(u8);

impl AdcOneShot<Adc1, u16, Channel> for MockBus {
    type Error = BusError;

    fn pending(&self) -> u64 {
        self.would_block as u64
    }

    fn read(&mut self, pin: &mut Channel) -> nb::Result<u16, BusError> {
        self.calls.push(Call::AdcRead(pin.0));
        if self.would_block > 0 {
            self.would_block -= 1;
            return Err(nb::Error::WouldBlock);
        }
        match self.fail {
            Some(e) => Err(nb::Error::Other(e)),
            None => Ok(self.sample),
        }
    }
}

impl CanBus for MockBus {
    type Frame = u32;
    type Error = BusError;

    fn transmit(&mut self, frame: &u32) -> Result<(), BusError> {
        self.calls.push(Call::Transmit(*frame));
        self.answer()
    }

    fn receive(&mut self) -> Result<u32, BusError> {
        self.calls.push(Call::Receive);
        self.answer()?;
        Ok(self.inbox.remove(0))
    }
}

fn calls(m: &CellMutex<MockBus>) -> Vec<Call> {
    m.bus.borrow().calls.clone()
}

#[test]
fn i2c_write_takes_lock_once_and_forwards_arguments() {
    let m = CellMutex::new(MockBus::default());
    let mut p = I2cProxy::new(&m);
    assert_eq!(I2cWrite::write(&mut p, 0x10, &[1, 2]), Ok(()));
    assert_eq!(m.locks.get(), 1);
    assert_eq!(calls(&m), vec![Call::Write(0x10, vec![1, 2])]);
}

#[test]
fn i2c_read_fills_buffer_through_lock() {
    let m = CellMutex::new(MockBus { fill: 0xAB, ..MockBus::default() });
    let mut p = I2cProxy::new(&m);
    let mut buf = [0u8; 3];
    assert_eq!(I2cRead::read(&mut p, 0x20, &mut buf), Ok(()));
    assert_eq!(buf, [0xAB, 0xAB, 0xAB]);
    assert_eq!(m.locks.get(), 1);
    assert_eq!(calls(&m), vec![Call::Read(0x20, 3)]);
}

#[test]
fn i2c_write_read_is_one_locked_operation() {
    let m = CellMutex::new(MockBus { fill: 7, ..MockBus::default() });
    let mut p = I2cProxy::new(&m);
    let mut buf = [0u8; 2];
    assert_eq!(p.write_read(0x42, &[0x0F], &mut buf), Ok(()));
    assert_eq!(buf, [7, 8]);
    assert_eq!(m.locks.get(), 1);
    assert_eq!(calls(&m), vec![Call::WriteRead(0x42, vec![0x0F], 2)]);
}

#[test]
fn i2c_errors_pass_through_unchanged() {
    let m = CellMutex::new(MockBus { fail: Some(BusError::Nack), ..MockBus::default() });
    let mut p = I2cProxy::new(&m);
    let mut buf = [0u8; 1];
    assert_eq!(I2cWrite::write(&mut p, 0x10, &[1]), Err(BusError::Nack));
    assert_eq!(I2cRead::read(&mut p, 0x10, &mut buf), Err(BusError::Nack));
    assert_eq!(p.write_read(0x10, &[1], &mut buf), Err(BusError::Nack));
    assert_eq!(m.locks.get(), 3);
    assert_eq!(calls(&m).len(), 3);
}

#[test]
fn two_i2c_drivers_see_a_total_order() {
    let m = CellMutex::new(MockBus { fill: 5, ..MockBus::default() });
    let mut a = I2cProxy::new(&m);
    let mut b = a.clone();
    let mut buf = [0u8; 2];
    assert_eq!(I2cWrite::write(&mut a, 0x10, &[1, 2]), Ok(()));
    assert_eq!(I2cRead::read(&mut b, 0x20, &mut buf), Ok(()));
    assert_eq!(I2cWrite::write(&mut a, 0x10, &[3]), Ok(()));
    assert_eq!(buf, [5, 5]);
    assert_eq!(m.locks.get(), 3);
    assert_eq!(
        calls(&m),
        vec![Call::Write(0x10, vec![1, 2]), Call::Read(0x20, 2), Call::Write(0x10, vec![3])]
    );
}

#[test]
fn spi_transfer_returns_received_words() {
    let m = CellMutex::new(MockBus::default());
    let mut p = SpiProxy::new(&m);
    let mut words = [0x00u8, 0x0F, 0xF0];
    let got = p.transfer(&mut words).map(|w| w.to_vec());
    assert_eq!(got, Ok(vec![0xFF, 0xF0, 0x0F]));
    assert_eq!(words, [0xFF, 0xF0, 0x0F]);
    assert_eq!(m.locks.get(), 1);
    assert_eq!(calls(&m), vec![Call::Transfer(vec![0x00, 0x0F, 0xF0])]);
}

#[test]
fn spi_write_and_errors_pass_through() {
    let m = CellMutex::new(MockBus::default());
    let mut p = SpiProxy::new(&m);
    let mut q = p.clone();
    assert_eq!(SpiWrite::write(&mut p, &[9, 8]), Ok(()));
    m.bus.borrow_mut().fail = Some(BusError::Overrun);
    assert_eq!(SpiWrite::write(&mut q, &[1]), Err(BusError::Overrun));
    let mut words = [1u8];
    assert_eq!(q.transfer(&mut words).map(|w| w.to_vec()), Err(BusError::Overrun));
    assert_eq!(m.locks.get(), 3);
    assert_eq!(calls(&m), vec![Call::SpiWrite(vec![9, 8]), Call::SpiWrite(vec![1]), Call::Transfer(vec![1])]);
}

#[test]
fn adc_read_polls_until_complete() {
    let m = CellMutex::new(MockBus { would_block: 3, sample: 1234, ..MockBus::default() });
    let mut p = AdcProxy::new(&m);
    let mut ch = Channel(2);
    assert_eq!(p.read(&mut ch), Ok(1234));
    assert_eq!(m.locks.get(), 1);
    assert_eq!(calls(&m), vec![Call::AdcRead(2); 4]);
}

#[test]
fn adc_read_without_waiting_polls_once() {
    let m = CellMutex::new(MockBus { sample: 7, ..MockBus::default() });
    let mut p = AdcProxy::new(&m);
    let mut ch = Channel(0);
    assert_eq!(p.read(&mut ch), Ok(7));
    assert_eq!(calls(&m), vec![Call::AdcRead(0)]);
}

#[test]
fn adc_error_comes_back_as_other() {
    let m = CellMutex::new(MockBus { would_block: 1, fail: Some(BusError::Overrun), ..MockBus::default() });
    let mut p = AdcProxy::new(&m);
    let mut ch = Channel(1);
    assert_eq!(p.read(&mut ch), Err(nb::Error::Other(BusError::Overrun)));
    assert_eq!(m.locks.get(), 1);
    assert_eq!(calls(&m).len(), 2);
}

#[test]
fn can_transmit_propagates_arbitration_error() {
    let m = CellMutex::new(MockBus { fail: Some(BusError::Arbitration), ..MockBus::default() });
    let mut p = CanProxy::new(&m);
    assert_eq!(p.transmit(&0x123), Err(BusError::Arbitration));
    assert_eq!(m.locks.get(), 1);
    assert_eq!(calls(&m), vec![Call::Transmit(0x123)]);
}

#[test]
fn can_transmit_and_receive_lock_separately() {
    let m = CellMutex::new(MockBus { inbox: vec![0x7FF], ..MockBus::default() });
    let mut p = CanProxy::new(&m);
    let mut q = p.clone();
    assert_eq!(p.transmit(&0x100), Ok(()));
    assert_eq!(q.receive(), Ok(0x7FF));
    assert_eq!(m.locks.get(), 2);
    assert_eq!(calls(&m), vec![Call::Transmit(0x100), Call::Receive]);
}

#[test]
fn proxies_of_different_kinds_share_one_lock() {
    let m = CellMutex::new(MockBus { sample: 9, ..MockBus::default() });
    let mut i2c = I2cProxy::new(&m);
    let mut adc = AdcProxy::new(&m);
    let mut ch = Channel(4);
    assert_eq!(I2cWrite::write(&mut i2c, 0x30, &[0]), Ok(()));
    assert_eq!(adc.read(&mut ch), Ok(9));
    assert_eq!(m.locks.get(), 2);
    assert_eq!(calls(&m), vec![Call::Write(0x30, vec![0]), Call::AdcRead(4)]);
}
