//! What a bus handle can do, one trait per capability.
//!
//! Each operation comes with a spec function that an implementation defines: it holds when one
//! call of the operation, with the given arguments, may take the handle from one state to another
//! and report the given result.  The proxies promise their results through these relations.  A
//! default relation allows every outcome, so a handle that does not define one promises nothing
//! through it.  The exception is an ADC unit's `pending`, which every unit defines: the promise that
//! a conversion completes after that many `WouldBlock` answers is what lets a proxy wait for it.
use vstd::prelude::*;

verus! {

/// `nb::Error`, the answer of a non-blocking operation: `WouldBlock` or `Other` with an error of
/// the device.  Declared with its two variants as nb defines them, so that verified code can
/// match on them; nothing else is assumed of it.
#[verifier::external_type_specification]
#[verifier::reject_recursive_types(E)]
pub struct ExNbError<E>(nb::Error<E>);

/// Whether a non-blocking operation answered that it is not done yet.
pub open spec fn is_would_block<T, E>(r: nb::Result<T, E>) -> bool {
    r is Err && r->Err_0 is WouldBlock
}

/// A blocking I2C write to a 7-bit address.
pub trait I2cWrite {
    type Error;

    /// One `write(address, bytes)` may take the handle from `self` to `post` and report `r`.
    open spec fn write_step(&self, post: &Self, address: u8, bytes: Seq<u8>, r: Result<(), Self::Error>) -> bool {
        true
    }

    fn write(&mut self, address: u8, bytes: &[u8]) -> (r: Result<(), Self::Error>)
        ensures
            old(self).write_step(final(self), address, bytes@, r),
    ;
}

/// A blocking I2C read from a 7-bit address into a buffer.
pub trait I2cRead {
    type Error;

    /// One `read(address, buffer)` may take the handle from `self` to `post` and the buffer from
    /// `before` to `after`, and report `r`.
    open spec fn read_step(
        &self,
        post: &Self,
        address: u8,
        before: Seq<u8>,
        after: Seq<u8>,
        r: Result<(), Self::Error>,
    ) -> bool {
        true
    }

    fn read(&mut self, address: u8, buffer: &mut [u8]) -> (r: Result<(), Self::Error>)
        ensures
            old(self).read_step(final(self), address, old(buffer)@, final(buffer)@, r),
            final(buffer)@.len() == old(buffer)@.len(),
    ;
}

/// A blocking I2C write followed by a read, to one 7-bit address, as one transaction.
pub trait I2cWriteRead {
    type Error;

    /// One `write_read(address, bytes, buffer)` may take the handle from `self` to `post` and the
    /// buffer from `before` to `after`, and report `r`.
    open spec fn write_read_step(
        &self,
        post: &Self,
        address: u8,
        bytes: Seq<u8>,
        before: Seq<u8>,
        after: Seq<u8>,
        r: Result<(), Self::Error>,
    ) -> bool {
        true
    }

    fn write_read(&mut self, address: u8, bytes: &[u8], buffer: &mut [u8]) -> (r: Result<(), Self::Error>)
        ensures
            old(self).write_read_step(final(self), address, bytes@, old(buffer)@, final(buffer)@, r),
            final(buffer)@.len() == old(buffer)@.len(),
    ;
}

/// The contents that a transfer reports: the received words on success.
pub open spec fn transferred<'w, E>(r: Result<&'w [u8], E>) -> Result<Seq<u8>, E> {
    match r {
        Ok(words) => Ok(words@),
        Err(e) => Err(e),
    }
}

/// A blocking full-duplex SPI transfer of bytes, in place.
pub trait SpiTransfer {
    type Error;

    /// One `transfer(words)` may take the handle from `self` to `post` and the words from
    /// `before` to `after`, and report `r` (on success, the received words).
    open spec fn transfer_step(
        &self,
        post: &Self,
        before: Seq<u8>,
        after: Seq<u8>,
        r: Result<Seq<u8>, Self::Error>,
    ) -> bool {
        true
    }

    fn transfer<'w>(&mut self, words: &'w mut [u8]) -> (r: Result<&'w [u8], Self::Error>)
        ensures
            old(self).transfer_step(final(self), old(words)@, final(words)@, transferred(r)),
            final(words)@.len() == old(words)@.len(),
    ;
}

/// A blocking SPI write of bytes.
pub trait SpiWrite {
    type Error;

    /// One `write(words)` may take the handle from `self` to `post` and report `r`.
    open spec fn write_step(&self, post: &Self, words: Seq<u8>, r: Result<(), Self::Error>) -> bool {
        true
    }

    fn write(&mut self, words: &[u8]) -> (r: Result<(), Self::Error>)
        ensures
            old(self).write_step(final(self), words@, r),
    ;
}

/// A one-shot conversion of an ADC unit on one channel, polled without blocking.
pub trait AdcOneShot<Adc, Word, Pin> {
    type Error;

    /// How many more times `read` answers `WouldBlock` before the conversion completes.
    spec fn pending(&self) -> u64;

    /// One `read(pin)` may take the unit from `self` to `post` and the channel from `pin` to
    /// `pin_post`, and answer `r`.
    open spec fn read_step(&self, post: &Self, pin: Pin, pin_post: Pin, r: nb::Result<Word, Self::Error>) -> bool {
        true
    }

    fn read(&mut self, pin: &mut Pin) -> (r: nb::Result<Word, Self::Error>)
        ensures
            old(self).read_step(final(self), *old(pin), *final(pin), r),
            is_would_block(r) <==> old(self).pending() > 0,
            is_would_block(r) ==> final(self).pending() + 1 == old(self).pending(),
    ;
}

/// `n` reads in a row, each answering `WouldBlock`, may take the unit from `pre` to `post` and the
/// channel from `pin` to `pin_post`.
pub open spec fn blocked_reads<Adc, Word, Pin, B: AdcOneShot<Adc, Word, Pin>>(
    pre: B,
    post: B,
    pin: Pin,
    pin_post: Pin,
    n: nat,
) -> bool
    decreases n,
{
    if n == 0 {
        post == pre && pin_post == pin
    } else {
        exists|mid: B, pin_mid: Pin|
            blocked_reads::<Adc, Word, Pin, B>(pre, mid, pin, pin_mid, (n - 1) as nat)
                && mid.read_step(&post, pin_mid, pin_post, Err(nb::Error::WouldBlock))
    }
}

/// Exactly `n` reads, the last of which completes with `r` and all others answer `WouldBlock`,
/// may take the unit from `pre` to `post` and the channel from `pin` to `pin_post`.
pub open spec fn polled_reads<Adc, Word, Pin, B: AdcOneShot<Adc, Word, Pin>>(
    pre: B,
    post: B,
    pin: Pin,
    pin_post: Pin,
    n: nat,
    r: nb::Result<Word, B::Error>,
) -> bool {
    &&& n > 0
    &&& !is_would_block(r)
    &&& exists|mid: B, pin_mid: Pin|
        blocked_reads::<Adc, Word, Pin, B>(pre, mid, pin, pin_mid, (n - 1) as nat)
            && mid.read_step(&post, pin_mid, pin_post, r)
}

/// Polls `adc.read(pin)` until the conversion completes, and returns the completed answer.
///
/// The unit is read exactly once more than it answers `WouldBlock`.
pub fn read_until_complete<Adc, Word, Pin, B: AdcOneShot<Adc, Word, Pin>>(
    adc: &mut B,
    pin: &mut Pin,
) -> (r: nb::Result<Word, B::Error>)
    ensures
        polled_reads::<Adc, Word, Pin, B>(*old(adc), *final(adc), *old(pin), *final(pin), (old(adc).pending() + 1) as nat, r),
{
    let ghost pre = *adc;
    let ghost pin_pre = *pin;
    let ghost mut n: nat = 0;
    loop
        invariant
            pre == *old(adc),
            pin_pre == *old(pin),
            blocked_reads::<Adc, Word, Pin, B>(pre, *adc, pin_pre, *pin, n),
            adc.pending() + n == pre.pending(),
        decreases adc.pending(),
    {
        let ghost mid = *adc;
        let ghost pin_mid = *pin;
        let r = adc.read(pin);
        match r {
            Err(nb::Error::WouldBlock) => {
                proof {
                    assert(blocked_reads::<Adc, Word, Pin, B>(pre, mid, pin_pre, pin_mid, n)
                        && mid.read_step(&*adc, pin_mid, *pin, Err(nb::Error::WouldBlock)));
                    n = n + 1;
                }
            },
            _ => {
                assert(blocked_reads::<Adc, Word, Pin, B>(pre, mid, pin_pre, pin_mid, n)
                    && mid.read_step(&*adc, pin_mid, *pin, r));
                return r;
            },
        }
    }
}

/// A blocking CAN interface that transmits and receives frames.
pub trait CanBus {
    type Frame;

    type Error;

    /// One `transmit(frame)` may take the handle from `self` to `post` and report `r`.
    open spec fn transmit_step(&self, post: &Self, frame: Self::Frame, r: Result<(), Self::Error>) -> bool {
        true
    }

    /// One `receive()` may take the handle from `self` to `post` and report `r`.
    open spec fn receive_step(&self, post: &Self, r: Result<Self::Frame, Self::Error>) -> bool {
        true
    }

    fn transmit(&mut self, frame: &Self::Frame) -> (r: Result<(), Self::Error>)
        ensures
            old(self).transmit_step(final(self), *frame, r),
    ;

    fn receive(&mut self) -> (r: Result<Self::Frame, Self::Error>)
        ensures
            old(self).receive_step(final(self), r),
    ;
}

} // verus!
