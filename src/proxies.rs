//! Proxies: handles that stand in for the bus handle and reach it through the lock.
//!
//! Every operation of a proxy takes the lock once and runs the same operation, with the same
//! arguments, once on the shared handle; its result is the handle's result, untouched.  A proxy
//! holds only a reference to the lock, so its own state never changes.
use vstd::prelude::*;
use crate::bus::{
    is_would_block, polled_reads, read_until_complete, transferred, AdcOneShot, CanBus, I2cRead,
    I2cWrite, I2cWriteRead, SpiTransfer, SpiWrite,
};
use crate::mutex::{BusMutex, SingleContextMutex};

verus! {

/// Proxy for sharing an I2C bus; usable from any number of execution contexts.
#[derive(Debug)]
pub struct I2cProxy<'a, M> {
    pub(crate) mutex: &'a M,
}

impl<'a, M: BusMutex> I2cProxy<'a, M> {
    /// The lock through which this proxy reaches the bus.
    pub closed spec fn lock_ref(&self) -> &'a M {
        self.mutex
    }

    /// A proxy for the bus held by `mutex`.
    pub fn new(mutex: &'a M) -> (r: Self)
        ensures
            r.lock_ref() == mutex,
    {
        I2cProxy { mutex }
    }
}

impl<'a, M: BusMutex> Clone for I2cProxy<'a, M> {
    /// Another proxy for the same lock.
    fn clone(&self) -> (r: Self)
        ensures
            r == *self,
    {
        I2cProxy { mutex: self.mutex }
    }
}

impl<'a, M: BusMutex> I2cWrite for I2cProxy<'a, M> where M::Bus: I2cWrite {
    type Error = <M::Bus as I2cWrite>::Error;

    /// The proxy is unchanged, and `r` is what one write with the same arguments may report on
    /// the shared handle.
    open spec fn write_step(&self, post: &Self, address: u8, bytes: Seq<u8>, r: Result<(), Self::Error>) -> bool {
        &&& *post == *self
        &&& exists|pre: M::Bus, next: M::Bus| pre.write_step(&next, address, bytes, r)
    }

    fn write(&mut self, address: u8, bytes: &[u8]) -> (r: Result<(), Self::Error>) {
        let op = |bus: &mut M::Bus, bytes: &[u8]| -> (r: Result<(), <M::Bus as I2cWrite>::Error>)
            ensures
                old(bus).write_step(final(bus), address, bytes@, r),
        {
            bus.write(address, bytes)
        };
        self.mutex.lock(bytes, op)
    }
}

impl<'a, M: BusMutex> I2cRead for I2cProxy<'a, M> where M::Bus: I2cRead {
    type Error = <M::Bus as I2cRead>::Error;

    /// The proxy is unchanged, and the buffer and `r` are what one read with the same arguments
    /// may leave and report on the shared handle.
    open spec fn read_step(
        &self,
        post: &Self,
        address: u8,
        before: Seq<u8>,
        after: Seq<u8>,
        r: Result<(), Self::Error>,
    ) -> bool {
        &&& *post == *self
        &&& after.len() == before.len()
        &&& exists|pre: M::Bus, next: M::Bus| pre.read_step(&next, address, before, after, r)
    }

    fn read(&mut self, address: u8, buffer: &mut [u8]) -> (r: Result<(), Self::Error>) {
        let op = |bus: &mut M::Bus, buffer: &mut [u8]| -> (r: Result<(), <M::Bus as I2cRead>::Error>)
            ensures
                old(bus).read_step(final(bus), address, old(buffer)@, final(buffer)@, r),
                final(buffer)@.len() == old(buffer)@.len(),
        {
            bus.read(address, buffer)
        };
        self.mutex.lock(buffer, op)
    }
}

impl<'a, M: BusMutex> I2cWriteRead for I2cProxy<'a, M> where M::Bus: I2cWriteRead {
    type Error = <M::Bus as I2cWriteRead>::Error;

    /// The proxy is unchanged, and the buffer and `r` are what one write-read with the same
    /// arguments may leave and report on the shared handle: both phases run under one lock.
    open spec fn write_read_step(
        &self,
        post: &Self,
        address: u8,
        bytes: Seq<u8>,
        before: Seq<u8>,
        after: Seq<u8>,
        r: Result<(), Self::Error>,
    ) -> bool {
        &&& *post == *self
        &&& after.len() == before.len()
        &&& exists|pre: M::Bus, next: M::Bus| pre.write_read_step(&next, address, bytes, before, after, r)
    }

    fn write_read(&mut self, address: u8, bytes: &[u8], buffer: &mut [u8]) -> (r: Result<(), Self::Error>) {
        let op = |bus: &mut M::Bus, buffer: &mut [u8]| -> (r: Result<(), <M::Bus as I2cWriteRead>::Error>)
            ensures
                old(bus).write_read_step(final(bus), address, bytes@, old(buffer)@, final(buffer)@, r),
                final(buffer)@.len() == old(buffer)@.len(),
        {
            bus.write_read(address, bytes, buffer)
        };
        self.mutex.lock(buffer, op)
    }
}

/// Proxy for sharing an SPI bus within a single execution context.
///
/// SPI drivers assert their chip-select line before they take the lock, so two contexts sharing
/// the bus could interleave there.  The marker field makes the proxy neither `Send` nor `Sync`,
/// and a proxy can only be made for a [`SingleContextMutex`].  The caller still has to run the
/// transfer right after asserting chip-select, without yielding in between.
#[derive(Debug)]
pub struct SpiProxy<'a, M> {
    pub(crate) mutex: &'a M,
    pub(crate) _u: core::marker::PhantomData<std::rc::Rc<()>>,
}

impl<'a, M: BusMutex> SpiProxy<'a, M> {
    /// The lock through which this proxy reaches the bus.
    pub closed spec fn lock_ref(&self) -> &'a M {
        self.mutex
    }

    /// A proxy for the bus held by `mutex`, a lock used from one execution context only.
    pub fn new(mutex: &'a M) -> (r: Self)
        where M: SingleContextMutex,
        ensures
            r.lock_ref() == mutex,
    {
        SpiProxy { mutex, _u: core::marker::PhantomData }
    }
}

impl<'a, M: BusMutex> Clone for SpiProxy<'a, M> {
    /// Another proxy for the same lock.
    fn clone(&self) -> (r: Self)
        ensures
            r == *self,
    {
        SpiProxy { mutex: self.mutex, _u: core::marker::PhantomData }
    }
}

impl<'a, M: BusMutex> SpiTransfer for SpiProxy<'a, M> where M::Bus: SpiTransfer {
    type Error = <M::Bus as SpiTransfer>::Error;

    /// The proxy keeps its lock, and the words and `r` are what one transfer of the same words
    /// may leave and report on the shared handle.
    open spec fn transfer_step(
        &self,
        post: &Self,
        before: Seq<u8>,
        after: Seq<u8>,
        r: Result<Seq<u8>, Self::Error>,
    ) -> bool {
        &&& post.lock_ref() == self.lock_ref()
        &&& after.len() == before.len()
        &&& exists|pre: M::Bus, next: M::Bus| pre.transfer_step(&next, before, after, r)
    }

    fn transfer<'w>(&mut self, words: &'w mut [u8]) -> (r: Result<&'w [u8], Self::Error>) {
        let op = |bus: &mut M::Bus, words: &'w mut [u8]| -> (r: Result<&'w [u8], <M::Bus as SpiTransfer>::Error>)
            ensures
                old(bus).transfer_step(final(bus), old(words)@, final(words)@, transferred(r)),
                final(words)@.len() == old(words)@.len(),
        {
            bus.transfer(words)
        };
        self.mutex.lock(words, op)
    }
}

impl<'a, M: BusMutex> SpiWrite for SpiProxy<'a, M> where M::Bus: SpiWrite {
    type Error = <M::Bus as SpiWrite>::Error;

    /// The proxy keeps its lock, and `r` is what one write of the same words may report on the
    /// shared handle.
    open spec fn write_step(&self, post: &Self, words: Seq<u8>, r: Result<(), Self::Error>) -> bool {
        &&& post.lock_ref() == self.lock_ref()
        &&& exists|pre: M::Bus, next: M::Bus| pre.write_step(&next, words, r)
    }

    fn write(&mut self, words: &[u8]) -> (r: Result<(), Self::Error>) {
        let op = |bus: &mut M::Bus, words: &[u8]| -> (r: Result<(), <M::Bus as SpiWrite>::Error>)
            ensures
                old(bus).write_step(final(bus), words@, r),
        {
            bus.write(words)
        };
        self.mutex.lock(words, op)
    }
}

/// Proxy for sharing an ADC unit.
///
/// A one-shot read is non-blocking on the unit itself, but the lock can only run an operation to
/// its end.  So a read through the proxy polls the unit under the lock until the conversion
/// completes: it never answers `WouldBlock`, it may stall the caller for the whole conversion, and
/// no other user of the lock can proceed meanwhile.
#[derive(Debug)]
pub struct AdcProxy<'a, M> {
    pub(crate) mutex: &'a M,
}

impl<'a, M: BusMutex> AdcProxy<'a, M> {
    /// The lock through which this proxy reaches the unit.
    pub closed spec fn lock_ref(&self) -> &'a M {
        self.mutex
    }

    /// A proxy for the ADC unit held by `mutex`.
    pub fn new(mutex: &'a M) -> (r: Self)
        ensures
            r.lock_ref() == mutex,
    {
        AdcProxy { mutex }
    }
}

impl<'a, M: BusMutex> Clone for AdcProxy<'a, M> {
    /// Another proxy for the same lock.
    fn clone(&self) -> (r: Self)
        ensures
            r == *self,
    {
        AdcProxy { mutex: self.mutex }
    }
}

impl<'a, M: BusMutex, Adc, Word, Pin> AdcOneShot<Adc, Word, Pin> for AdcProxy<'a, M> where
    M::Bus: AdcOneShot<Adc, Word, Pin>,
 {
    type Error = <M::Bus as AdcOneShot<Adc, Word, Pin>>::Error;

    /// A read through the proxy always completes.
    open spec fn pending(&self) -> u64 {
        0
    }

    /// The proxy is unchanged, `r` is complete, and the channel and `r` are what polling the
    /// shared unit may leave and answer, with exactly one read more than the `WouldBlock` answers
    /// the unit still had to give.
    open spec fn read_step(&self, post: &Self, pin: Pin, pin_post: Pin, r: nb::Result<Word, Self::Error>) -> bool {
        &&& *post == *self
        &&& !is_would_block(r)
        &&& exists|pre: M::Bus, next: M::Bus|
            #[trigger] polled_reads::<Adc, Word, Pin, M::Bus>(pre, next, pin, pin_post, (pre.pending() + 1) as nat, r)
    }

    fn read(&mut self, pin: &mut Pin) -> (r: nb::Result<Word, Self::Error>) {
        let op = |adc: &mut M::Bus, pin: &mut Pin| -> (r: nb::Result<Word, <M::Bus as AdcOneShot<Adc, Word, Pin>>::Error>)
            ensures
                polled_reads::<Adc, Word, Pin, M::Bus>(*old(adc), *final(adc), *old(pin), *final(pin), (old(adc).pending() + 1) as nat, r),
        {
            read_until_complete(adc, pin)
        };
        self.mutex.lock(pin, op)
    }
}

/// Proxy for sharing a CAN interface.
///
/// Transmit and receive each take the lock on their own; they are not atomic with each other.
#[derive(Debug)]
pub struct CanProxy<'a, M> {
    pub(crate) mutex: &'a M,
}

impl<'a, M: BusMutex> CanProxy<'a, M> {
    /// The lock through which this proxy reaches the interface.
    pub closed spec fn lock_ref(&self) -> &'a M {
        self.mutex
    }

    /// A proxy for the CAN interface held by `mutex`.
    pub fn new(mutex: &'a M) -> (r: Self)
        ensures
            r.lock_ref() == mutex,
    {
        CanProxy { mutex }
    }
}

impl<'a, M: BusMutex> Clone for CanProxy<'a, M> {
    /// Another proxy for the same lock.
    fn clone(&self) -> (r: Self)
        ensures
            r == *self,
    {
        CanProxy { mutex: self.mutex }
    }
}

impl<'a, M: BusMutex> CanBus for CanProxy<'a, M> where M::Bus: CanBus {
    type Frame = <M::Bus as CanBus>::Frame;

    type Error = <M::Bus as CanBus>::Error;

    /// The proxy is unchanged, and `r` is what one transmission of the same frame may report on
    /// the shared interface.
    open spec fn transmit_step(&self, post: &Self, frame: Self::Frame, r: Result<(), Self::Error>) -> bool {
        &&& *post == *self
        &&& exists|pre: M::Bus, next: M::Bus| pre.transmit_step(&next, frame, r)
    }

    /// The proxy is unchanged, and `r` is what one reception may report on the shared interface.
    open spec fn receive_step(&self, post: &Self, r: Result<Self::Frame, Self::Error>) -> bool {
        &&& *post == *self
        &&& exists|pre: M::Bus, next: M::Bus| pre.receive_step(&next, r)
    }

    fn transmit(&mut self, frame: &Self::Frame) -> (r: Result<(), Self::Error>) {
        let op = |bus: &mut M::Bus, frame: &<M::Bus as CanBus>::Frame| -> (r: Result<(), <M::Bus as CanBus>::Error>)
            ensures
                old(bus).transmit_step(final(bus), *frame, r),
        {
            bus.transmit(frame)
        };
        self.mutex.lock(frame, op)
    }

    fn receive(&mut self) -> (r: Result<Self::Frame, Self::Error>) {
        let op = |bus: &mut M::Bus, unit: ()| -> (r: Result<<M::Bus as CanBus>::Frame, <M::Bus as CanBus>::Error>)
            ensures
                old(bus).receive_step(final(bus), r),
        {
            bus.receive()
        };
        self.mutex.lock((), op)
    }
}

} // verus!
