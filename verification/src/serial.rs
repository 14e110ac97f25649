//! Serial port: an 8-bit shift register clocked at 8192 Hz internally, or
//! by the link partner externally.  Bytes sent during a poll are buffered
//! for the host in a small fixed-capacity vector.

use crate::ic::Irq;
use arrayvec::ArrayVec;
use vstd::prelude::*;

verus! {

#[verifier::external_type_specification]
#[verifier::external_body]
#[verifier::reject_recursive_types(T)]
pub struct ExArrayVec<T, const CAP: usize>(ArrayVec<T, CAP>);

/// The bytes a sent-byte buffer currently holds, oldest first.
pub uninterp spec fn sent_buf(v: ArrayVec<u8, 1>) -> Seq<u8>;

/// Relies on arrayvec::ArrayVec::new: a new vector holds nothing.
#[verifier::external_body]
fn new_sent_buf() -> (r: ArrayVec<u8, 1>)
    ensures
        sent_buf(r) == Seq::<u8>::empty(),
{
    ArrayVec::new()
}

/// Relies on arrayvec::ArrayVec::push: with spare capacity, the element
/// goes to the end.
#[verifier::external_body]
fn push_sent(v: &mut ArrayVec<u8, 1>, b: u8)
    requires
        sent_buf(*old(v)).len() < 1,
    ensures
        sent_buf(*final(v)) == sent_buf(*old(v)).push(b),
{
    v.push(b);
}

/// Relies on arrayvec::ArrayVec::clear: afterwards the vector holds
/// nothing.
#[verifier::external_body]
fn clear_sent(v: &mut ArrayVec<u8, 1>)
    ensures
        sent_buf(*final(v)) == Seq::<u8>::empty(),
{
    v.clear();
}

/// Relies on arrayvec::ArrayVec::len: the number of elements held.
#[verifier::external_body]
fn sent_len(v: &ArrayVec<u8, 1>) -> (r: usize)
    ensures
        r == sent_buf(*v).len(),
{
    v.len()
}

/// Relies on arrayvec::ArrayVec::as_slice: the elements held, in order.
#[verifier::external_body]
fn sent_to_vec(v: &ArrayVec<u8, 1>) -> (r: Vec<u8>)
    ensures
        r@ == sent_buf(*v),
{
    v.as_slice().to_vec()
}

/// One transfer takes 8 bits at 8192 Hz: 512 T-cycles per bit.
pub const TRANSFER_CYCLES: usize = 4096;

pub struct Serial {
    data: u8,
    recv: u8,
    ctrl: u8,
    clock: usize,
    sent_bytes: ArrayVec<u8, 1>,
}

impl Serial {
    /// The SB register.
    pub closed spec fn data_spec(&self) -> u8 {
        self.data
    }

    /// The SC register.
    pub closed spec fn ctrl_spec(&self) -> u8 {
        self.ctrl
    }

    /// T-cycles left in the running internally-clocked transfer.
    pub closed spec fn clock_spec(&self) -> usize {
        self.clock
    }

    /// The byte that will land in SB when the transfer completes.
    pub closed spec fn recv_spec(&self) -> u8 {
        self.recv
    }

    /// The bytes sent to the host since the last clear.
    pub closed spec fn sent_spec(&self) -> Seq<u8> {
        sent_buf(self.sent_bytes)
    }

    pub fn new() -> (r: Serial)
        ensures
            r.data_spec() == 0,
            r.ctrl_spec() == 0,
            r.sent_spec() == Seq::<u8>::empty(),
    {
        Serial { data: 0, recv: 0, ctrl: 0, clock: 0, sent_bytes: new_sent_buf() }
    }

    /// Advance a running transfer by `time` T-cycles.  An internally
    /// clocked transfer completes when its countdown elapses, moving the
    /// received byte into SB; an externally clocked one completes as soon
    /// as the host offers a byte, exchanging it with SB.  Completion
    /// clears SC bit 7 and raises the serial interrupt.
    pub fn step(&mut self, time: usize, irq: &mut Irq, serial_input: &mut Option<u8>)
        requires
            time <= 256,
        ensures
            final(irq).enable == old(irq).enable,
            old(self).ctrl_spec() & 0x80 == 0 ==> *final(self) == *old(self) && *final(serial_input) == *old(serial_input) && *final(irq) == *old(irq),
            (old(self).ctrl_spec() & 0x80 != 0 && old(self).ctrl_spec() & 0x01 != 0) ==> if old(self).clock_spec() < time {
                &&& final(self).data_spec() == old(self).recv_spec()
                &&& final(self).ctrl_spec() == old(self).ctrl_spec() & 0x7f
                &&& final(irq).request == old(irq).request | crate::ic::INT_SERIAL
            } else {
                &&& final(self).clock_spec() == old(self).clock_spec() - time
                &&& final(self).data_spec() == old(self).data_spec()
                &&& final(irq).request == old(irq).request
            },
            (old(self).ctrl_spec() & 0x80 != 0 && old(self).ctrl_spec() & 0x01 == 0) ==> match *old(serial_input) {
                Some(b) => {
                    &&& final(self).data_spec() == b
                    &&& final(self).ctrl_spec() == old(self).ctrl_spec() & 0x7f
                    &&& *final(serial_input) is None
                    &&& final(irq).request == old(irq).request | crate::ic::INT_SERIAL
                    // with the one-byte buffer full, the outgoing byte is
                    // dropped instead
                    &&& final(self).sent_spec() == if old(self).sent_spec().len() < 1 {
                        old(self).sent_spec().push(old(self).data_spec())
                    } else {
                        old(self).sent_spec()
                    }
                },
                None => *final(self) == *old(self) && final(irq).request == old(irq).request,
            },
    {
        if self.ctrl & 0x80 == 0 {
            // no transfer in flight
            return ;
        }
        if self.ctrl & 0x01 != 0 {
            if self.clock < time {
                self.data = self.recv;
                self.ctrl = self.ctrl & 0x7f;
                irq.serial(true);
            } else {
                self.clock = self.clock - time;
            }
        } else {
            let taken = serial_input.take();
            if let Some(b) = taken {
                if sent_len(&self.sent_bytes) < 1 {
                    let d = self.data;
                    push_sent(&mut self.sent_bytes, d);
                }
                self.data = b;
                self.ctrl = self.ctrl & 0x7f;
                irq.serial(true);
            }
        }
    }

    /// Read the SB register (0xff01).
    pub fn get_data(&self) -> (r: u8)
        ensures
            r == self.data_spec(),
    {
        self.data
    }

    /// Read the SC register (0xff02).
    pub fn get_ctrl(&self) -> (r: u8)
        ensures
            r == self.ctrl_spec(),
    {
        self.ctrl
    }

    /// Write the SB register (0xff01).
    pub fn set_data(&mut self, value: u8)
        ensures
            final(self).data_spec() == value,
            final(self).ctrl_spec() == old(self).ctrl_spec(),
            final(self).sent_spec() == old(self).sent_spec(),
    {
        self.data = value;
    }

    /// Write the SC register (0xff02).  Starting an internally clocked
    /// transfer (bits 7 and 0) sends SB at once: the byte joins the sent
    /// buffer (if it has room) and the host's offered byte, or 0xff, is
    /// latched for delivery when the countdown ends.
    pub fn set_ctrl(&mut self, value: u8, serial_input: &mut Option<u8>)
        ensures
            final(self).ctrl_spec() == value,
            (value & 0x80 != 0 && value & 0x01 != 0) ==> {
                &&& final(self).clock_spec() == TRANSFER_CYCLES
                &&& final(self).recv_spec() == (match *old(serial_input) {
                    Some(b) => b,
                    None => 0xff,
                })
                // with the one-byte buffer full, the outgoing byte is
                // dropped instead
                &&& final(self).sent_spec() == if old(self).sent_spec().len() < 1 {
                    old(self).sent_spec().push(old(self).data_spec())
                } else {
                    old(self).sent_spec()
                }
            },
            !(value & 0x80 != 0 && value & 0x01 != 0) ==> *final(serial_input) == *old(serial_input)
                && final(self).sent_spec() == old(self).sent_spec(),
    {
        self.ctrl = value;
        if value & 0x80 != 0 && value & 0x01 != 0 {
            self.clock = TRANSFER_CYCLES;
            if sent_len(&self.sent_bytes) < 1 {
                let d = self.data;
                push_sent(&mut self.sent_bytes, d);
            }
            self.recv = match serial_input.take() {
                Some(b) => b,
                None => 0xff,
            };
        }
    }

    /// Forget the bytes sent so far; called at the start of every poll.
    pub fn clear_sent_bytes(&mut self)
        ensures
            final(self).sent_spec() == Seq::<u8>::empty(),
            final(self).data_spec() == old(self).data_spec(),
            final(self).ctrl_spec() == old(self).ctrl_spec(),
            final(self).clock_spec() == old(self).clock_spec(),
            final(self).recv_spec() == old(self).recv_spec(),
    {
        clear_sent(&mut self.sent_bytes);
    }

    /// The bytes transmitted since the last clear, oldest first.
    pub fn get_sent_bytes(&self) -> (r: Vec<u8>)
        ensures
            r@ == self.sent_spec(),
    {
        sent_to_vec(&self.sent_bytes)
    }
}

} // verus!
