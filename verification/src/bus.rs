//! The bus-transport capability the driver is built on.
//!
//! A [`BusTransport`] performs raw byte transactions with a device addressed
//! by a 7-bit bus address. Each transport carries a ghost history: the
//! sequence of transactions completed on it so far. Every contract of the
//! driver is phrased over that history, so a caller knows exactly which bytes
//! a driver call puts on the wire and how the returned values relate to the
//! bytes the device answered.

use vstd::prelude::*;

verus! {

/// One completed bus transaction, as the ghost history records it.
pub enum BusOp {
    /// `data` was sent to the device at `addr`.
    Write { addr: u8, data: Seq<u8> },
    /// `data` was sent to the device at `addr`, which answered `resp`.
    WriteRead { addr: u8, data: Seq<u8>, resp: Seq<u8> },
}

/// The write transaction that stores `value` into register `reg` of the
/// device at `addr`: the two bytes `[reg, value]`.
pub open spec fn reg_write_op(addr: u8, reg: u8, value: u8) -> BusOp {
    BusOp::Write { addr, data: seq![reg, value] }
}

/// The transaction that selects register `reg` of the device at `addr` and
/// reads the single byte `resp` back.
pub open spec fn reg_read_op(addr: u8, reg: u8, resp: u8) -> BusOp {
    BusOp::WriteRead { addr, data: seq![reg], resp: seq![resp] }
}

/// The transaction that selects register `start` of the device at `addr` and
/// reads `resp` back; with register auto-increment enabled the device hands
/// out one byte per consecutive register starting at `start`.
pub open spec fn burst_read_op(addr: u8, start: u8, resp: Seq<u8>) -> BusOp {
    BusOp::WriteRead { addr, data: seq![start], resp }
}

/// A synchronous, blocking byte transport to devices on a two-wire bus.
///
/// Implementations decide what a transaction physically is; the driver only
/// relies on the ghost history told by `history`: a successful call appends
/// exactly one transaction, a failed call appends none.
pub trait BusTransport: Sized {
    /// The error value a failed transaction surfaces. It is propagated to
    /// the driver's caller unchanged.
    type BusError;

    /// All transactions completed on this transport so far, oldest first.
    /// An implementation outside the library that leaves this at its default
    /// has an unspecified history; nothing is proved about such a transport.
    open spec fn history(&self) -> Seq<BusOp> {
        arbitrary()
    }

    /// Send `data` to the device at `addr`.
    fn transmit(&mut self, addr: u8, data: &[u8]) -> (r: Result<(), Self::BusError>)
        ensures
            r is Ok ==> final(self).history() == old(self).history().push(
                (BusOp::Write { addr, data: data@ }),
            ),
            r is Err ==> final(self).history() == old(self).history(),
    ;

    /// Send `data` to the device at `addr`, then read exactly `read_len`
    /// bytes back from it within the same transaction.
    fn transmit_receive(&mut self, addr: u8, data: &[u8], read_len: usize) -> (r: Result<
        Vec<u8>,
        Self::BusError,
    >)
        ensures
            match r {
                Ok(resp) => resp@.len() == read_len && final(self).history() == old(
                    self,
                ).history().push((BusOp::WriteRead { addr, data: data@, resp: resp@ })),
                Err(_) => final(self).history() == old(self).history(),
            },
    ;
}

} // verus!
