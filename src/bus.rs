use vstd::prelude::*;

use crate::registers::Endpoint;

verus! {

/// Completion status reported by the bus transport.
#[derive(Clone, Copy, Debug, PartialEq, Eq, Structural)]
pub enum I2CError {
    AddressNak,
    DataNak,
    ArbitrationLost,
    Overrun,
    CommandComplete,
}

/// Direction of a bus transaction.
#[derive(Clone, Copy, Debug, PartialEq, Eq, Structural)]
pub enum BusOp {
    Write,
    Read,
}

/// One bus transaction to issue. It carries the scratch buffer: while the
/// transaction is outstanding the transport holds the buffer, and hands it
/// back with its completion.
#[derive(Debug)]
pub struct Transfer {
    pub endpoint: Endpoint,
    pub op: BusOp,
    pub buffer: Vec<u8>,
    pub len: usize,
}

/// What a transaction is, with the buffer's contents.
pub struct TransferView {
    pub endpoint: Endpoint,
    pub op: BusOp,
    pub buffer: Seq<u8>,
    pub len: usize,
}

impl View for Transfer {
    type V = TransferView;

    open spec fn view(&self) -> TransferView {
        TransferView { endpoint: self.endpoint, op: self.op, buffer: self.buffer@, len: self.len }
    }
}

} // verus!
