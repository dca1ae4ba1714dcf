//! Bus transaction layer: builds single exchanges in the write buffer and
//! keeps at most one of them outstanding.
//!
//! Every exchange answers with the chip's status in its first byte. A
//! register exchange is two bytes long. A frame exchange is one byte longer
//! than the number of frame bytes written or asked for: the opcode goes in
//! front of them, and the status comes back in front of them.

use vstd::prelude::*;
use crate::driver::{Model, RF233, BUFFER_SIZE};
use crate::outcome::{Outcome, OutcomeView, ReturnCode};
use crate::regs::{
    read_command, spec_read_command, spec_write_command, write_command, RF233Register,
    FRAME_READ, FRAME_WRITE,
};
use crate::state::InternalState;

verus! {

/// The write buffer of a frame write: the opcode, then the bytes of `buf`
/// as far as the buffer has room; the rest of `old` stays.
pub open spec fn frame_write_bytes(old: Seq<u8>, buf: Seq<u8>) -> Seq<u8> {
    Seq::new(
        BUFFER_SIZE as nat,
        |i: int|
            if i == 0 {
                FRAME_WRITE
            } else if i - 1 < buf.len() {
                buf[i - 1]
            } else {
                old[i]
            },
    )
}

/// The write buffer of a frame read of `len` bytes: the opcode, then zeros
/// up to position `len`, as far as the buffer goes; the rest of `old` stays.
pub open spec fn frame_read_bytes(old: Seq<u8>, len: u8) -> Seq<u8> {
    Seq::new(
        BUFFER_SIZE as nat,
        |i: int|
            if i == 0 {
                FRAME_READ
            } else if i < len {
                0u8
            } else {
                old[i]
            },
    )
}

/// The read buffer after a reply: the reply at the front, as far as the
/// buffer has room; the rest of `old` stays.
pub open spec fn reply_bytes(old: Seq<u8>, read: Seq<u8>) -> Seq<u8> {
    Seq::new(
        BUFFER_SIZE as nat,
        |i: int|
            if i < read.len() {
                read[i]
            } else {
                old[i]
            },
    )
}

/// Lays out a frame write in the write buffer.
fn fill_frame_write(dst: &mut [u8; 129], buf: &[u8])
    ensures
        final(dst)@ == frame_write_bytes(old(dst)@, buf@),
{
    dst[0] = FRAME_WRITE;
    let room: usize = BUFFER_SIZE - 1;
    let n: usize = if buf.len() < room { buf.len() } else { room };
    let mut i: usize = 0;
    while i < n
        invariant
            i <= n <= BUFFER_SIZE - 1,
            n <= buf@.len(),
            dst@[0] == FRAME_WRITE,
            forall|j: int|
                1 <= j < BUFFER_SIZE ==> dst@[j] == if j - 1 < i {
                    buf@[j - 1]
                } else {
                    old(dst)@[j]
                },
        decreases n - i,
    {
        dst[i + 1] = buf[i];
        i += 1;
    }
    assert(dst@ =~= frame_write_bytes(old(dst)@, buf@));
}

/// Lays out a frame read of `len` bytes in the write buffer.
fn fill_frame_read(dst: &mut [u8; 129], len: u8)
    ensures
        final(dst)@ == frame_read_bytes(old(dst)@, len),
{
    dst[0] = FRAME_READ;
    let n: usize = if (len as usize) < BUFFER_SIZE { len as usize } else { BUFFER_SIZE };
    let mut i: usize = 1;
    while i < n
        invariant
            1 <= i,
            i <= n || i == 1,
            n <= BUFFER_SIZE,
            dst@[0] == FRAME_READ,
            forall|j: int|
                1 <= j < BUFFER_SIZE ==> dst@[j] == if j < i {
                    0u8
                } else {
                    old(dst)@[j]
                },
        decreases n - i,
    {
        dst[i] = 0;
        i += 1;
    }
    assert(dst@ =~= frame_read_bytes(old(dst)@, len));
}

/// Puts a reply at the front of the read buffer.
fn fill_reply(dst: &mut [u8; 129], read: &[u8])
    ensures
        final(dst)@ == reply_bytes(old(dst)@, read@),
{
    let n: usize = if read.len() < BUFFER_SIZE { read.len() } else { BUFFER_SIZE };
    let mut i: usize = 0;
    while i < n
        invariant
            i <= n <= BUFFER_SIZE,
            n <= read@.len(),
            forall|j: int|
                0 <= j < BUFFER_SIZE ==> dst@[j] == if j < i {
                    read@[j]
                } else {
                    old(dst)@[j]
                },
        decreases n - i,
    {
        dst[i] = read[i];
        i += 1;
    }
    assert(dst@ =~= reply_bytes(old(dst)@, read@));
}

impl Model {
    /// Start an exchange of `len` bytes out of `write_buf`, unless one is
    /// outstanding.
    pub open spec fn exchange(self, write_buf: Seq<u8>, len: usize) -> (Model, OutcomeView) {
        if self.spi_busy {
            (self, OutcomeView::quiet(ReturnCode::Busy))
        } else {
            (Model { spi_busy: true, write_buf, ..self }, OutcomeView::bus(len))
        }
    }

    pub open spec fn register_write(self, reg: RF233Register, val: u8) -> (Model, OutcomeView) {
        self.exchange(self.write_buf.update(0, spec_write_command(reg)).update(1, val), 2)
    }

    pub open spec fn register_read(self, reg: RF233Register) -> (Model, OutcomeView) {
        self.exchange(self.write_buf.update(0, spec_read_command(reg)).update(1, 0u8), 2)
    }

    pub open spec fn frame_write(self, buf: Seq<u8>, len: u8) -> (Model, OutcomeView) {
        self.exchange(frame_write_bytes(self.write_buf, buf), (len + 1) as usize)
    }

    pub open spec fn frame_read(self, len: u8) -> (Model, OutcomeView) {
        self.exchange(frame_read_bytes(self.write_buf, len), (len + 1) as usize)
    }

    /// Enter `state` and write a register. The state is entered even where
    /// the bus is busy and the write does not happen.
    pub open spec fn state_transition_write(
        self,
        reg: RF233Register,
        val: u8,
        state: InternalState,
    ) -> (Model, Option<usize>) {
        let r = Model { state, ..self }.register_write(reg, val);
        (r.0, r.1.exchange)
    }

    /// Enter `state` and read a register. The state is entered even where
    /// the bus is busy and the read does not happen.
    pub open spec fn state_transition_read(self, reg: RF233Register, state: InternalState) -> (
        Model,
        Option<usize>,
    ) {
        let r = Model { state, ..self }.register_read(reg);
        (r.0, r.1.exchange)
    }

    /// The outstanding exchange has completed with the bytes `read`.
    pub open spec fn store_reply(self, read: Seq<u8>) -> Model {
        Model { spi_busy: false, read_buf: reply_bytes(self.read_buf, read), ..self }
    }
}

impl RF233 {
    /// Writes `val` to the register `reg`.
    ///
    /// Fails with `Busy`, and changes nothing, while an exchange is
    /// outstanding. Otherwise the write buffer starts with the command byte
    /// and the value, the bus is marked busy, and the outcome asks for an
    /// exchange of two bytes.
    pub fn register_write(&mut self, reg: RF233Register, val: u8) -> (out: Outcome)
        ensures
            old(self).wf() ==> final(self).wf(),
            final(self)@ == old(self)@.register_write(reg, val).0,
            out@ == old(self)@.register_write(reg, val).1,
    {
        if self.spi_busy {
            return Outcome::quiet(ReturnCode::Busy);
        }
        self.write_buf[0] = write_command(reg);
        self.write_buf[1] = val;
        self.spi_busy = true;
        Outcome::bus(2)
    }

    /// Reads the register `reg`; its value will be the second byte of the
    /// reply.
    ///
    /// Fails with `Busy`, and changes nothing, while an exchange is
    /// outstanding. Otherwise the write buffer starts with the command byte
    /// and a zero, the bus is marked busy, and the outcome asks for an
    /// exchange of two bytes.
    pub fn register_read(&mut self, reg: RF233Register) -> (out: Outcome)
        ensures
            old(self).wf() ==> final(self).wf(),
            final(self)@ == old(self)@.register_read(reg).0,
            out@ == old(self)@.register_read(reg).1,
    {
        if self.spi_busy {
            return Outcome::quiet(ReturnCode::Busy);
        }
        self.write_buf[0] = read_command(reg);
        self.write_buf[1] = 0;
        self.spi_busy = true;
        Outcome::bus(2)
    }

    /// Writes a packet of `len` bytes, which stands at the front of `buf`,
    /// into the chip's frame buffer.
    ///
    /// Fails with `Busy`, and changes nothing, while an exchange is
    /// outstanding. Otherwise the write buffer holds the opcode followed by
    /// the bytes of `buf`, the bus is marked busy, and the outcome asks for
    /// an exchange of `len + 1` bytes: the opcode and the packet. The chip
    /// appends the CRC itself.
    pub fn frame_write(&mut self, buf: &[u8], len: u8) -> (out: Outcome)
        ensures
            old(self).wf() ==> final(self).wf(),
            final(self)@ == old(self)@.frame_write(buf@, len).0,
            out@ == old(self)@.frame_write(buf@, len).1,
    {
        if self.spi_busy {
            return Outcome::quiet(ReturnCode::Busy);
        }
        fill_frame_write(&mut self.write_buf, buf);
        self.spi_busy = true;
        let total: usize = len as usize + 1;
        Outcome::bus(total)
    }

    /// Reads `len` bytes out of the chip's frame buffer; they will follow
    /// the status byte in the reply.
    ///
    /// Fails with `Busy`, and changes nothing, while an exchange is
    /// outstanding. Otherwise the write buffer holds the opcode followed by
    /// zeros, the bus is marked busy, and the outcome asks for an exchange
    /// of `len + 1` bytes.
    pub fn frame_read(&mut self, len: u8) -> (out: Outcome)
        ensures
            old(self).wf() ==> final(self).wf(),
            final(self)@ == old(self)@.frame_read(len).0,
            out@ == old(self)@.frame_read(len).1,
    {
        if self.spi_busy {
            return Outcome::quiet(ReturnCode::Busy);
        }
        fill_frame_read(&mut self.write_buf, len);
        self.spi_busy = true;
        let total: usize = len as usize + 1;
        Outcome::bus(total)
    }

    /// Enters `state` and writes `val` to the register `reg`. Returns the
    /// length of the exchange to start; none where the bus is busy, in
    /// which case the state is entered all the same.
    pub(crate) fn state_transition_write(
        &mut self,
        reg: RF233Register,
        val: u8,
        state: InternalState,
    ) -> (exchange: Option<usize>)
        ensures
            final(self)@ == old(self)@.state_transition_write(reg, val, state).0,
            exchange == old(self)@.state_transition_write(reg, val, state).1,
    {
        self.state = state;
        let out = self.register_write(reg, val);
        out.exchange
    }

    /// Enters `state` and reads the register `reg`. Returns the length of
    /// the exchange to start; none where the bus is busy, in which case the
    /// state is entered all the same.
    pub(crate) fn state_transition_read(
        &mut self,
        reg: RF233Register,
        state: InternalState,
    ) -> (exchange: Option<usize>)
        ensures
            final(self)@ == old(self)@.state_transition_read(reg, state).0,
            exchange == old(self)@.state_transition_read(reg, state).1,
    {
        self.state = state;
        let out = self.register_read(reg);
        out.exchange
    }

    /// Takes the reply of the outstanding exchange: the bus is idle again
    /// and the bytes of `read` stand at the front of the read buffer.
    pub(crate) fn store_reply(&mut self, read: &[u8])
        ensures
            final(self)@ == old(self)@.store_reply(read@),
    {
        self.spi_busy = false;
        fill_reply(&mut self.read_buf, read);
    }

    /// The bytes that the next exchange sends.
    pub fn write_buffer(&self) -> (buf: &[u8; 129])
        ensures
            buf@ == self@.write_buf,
    {
        &self.write_buf
    }

    /// The bytes that the last exchanges brought.
    pub fn read_buffer(&self) -> (buf: &[u8; 129])
        ensures
            buf@ == self@.read_buf,
    {
        &self.read_buf
    }
}

} // verus!
