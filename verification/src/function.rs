//! The requests that a master may issue, and their function codes.
use vstd::prelude::*;

verus! {

/// Where a request starts.
pub type Address = u16;

/// How many coils or registers a request covers.
pub type Quantity = u16;

/// What a single write stores; for a coil, its wire value.
pub type Value = u16;

/// A request, with its addressing, its quantity and, for the writes of
/// several elements, the bytes to write. The bytes are borrowed, never
/// copied.
#[derive(Debug, Clone, Copy)]
pub enum Function<'a> {
    ReadCoils(Address, Quantity),
    ReadDiscreteInputs(Address, Quantity),
    ReadHoldingRegisters(Address, Quantity),
    ReadInputRegisters(Address, Quantity),
    WriteSingleCoil(Address, Value),
    WriteSingleRegister(Address, Value),
    WriteMultipleCoils(Address, Quantity, &'a [u8]),
    WriteMultipleRegisters(Address, Quantity, &'a [u8]),
    WriteReadMultipleRegisters(Address, Quantity, &'a [u8], Address, Quantity),
}

impl<'a> Function<'a> {
    /// The function code of each kind of request.
    pub open spec fn spec_code(self) -> u8 {
        match self {
            Function::ReadCoils(_, _) => 0x01,
            Function::ReadDiscreteInputs(_, _) => 0x02,
            Function::ReadHoldingRegisters(_, _) => 0x03,
            Function::ReadInputRegisters(_, _) => 0x04,
            Function::WriteSingleCoil(_, _) => 0x05,
            Function::WriteSingleRegister(_, _) => 0x06,
            Function::WriteMultipleCoils(_, _, _) => 0x0f,
            Function::WriteMultipleRegisters(_, _, _) => 0x10,
            Function::WriteReadMultipleRegisters(_, _, _, _, _) => 0x17,
        }
    }

    /// Whether two requests are of the same kind, whatever they carry.
    pub open spec fn same_kind(self, other: Function<'_>) -> bool {
        ||| self is ReadCoils && other is ReadCoils
        ||| self is ReadDiscreteInputs && other is ReadDiscreteInputs
        ||| self is ReadHoldingRegisters && other is ReadHoldingRegisters
        ||| self is ReadInputRegisters && other is ReadInputRegisters
        ||| self is WriteSingleCoil && other is WriteSingleCoil
        ||| self is WriteSingleRegister && other is WriteSingleRegister
        ||| self is WriteMultipleCoils && other is WriteMultipleCoils
        ||| self is WriteMultipleRegisters && other is WriteMultipleRegisters
        ||| self is WriteReadMultipleRegisters && other is WriteReadMultipleRegisters
    }

    /// The one-byte function code of the request. It depends on the kind of
    /// request alone, not on what the request carries.
    pub fn code(&self) -> (code: u8)
        ensures
            code == self.spec_code(),
    {
        match *self {
            Function::ReadCoils(_, _) => 0x01,
            Function::ReadDiscreteInputs(_, _) => 0x02,
            Function::ReadHoldingRegisters(_, _) => 0x03,
            Function::ReadInputRegisters(_, _) => 0x04,
            Function::WriteSingleCoil(_, _) => 0x05,
            Function::WriteSingleRegister(_, _) => 0x06,
            Function::WriteMultipleCoils(_, _, _) => 0x0f,
            Function::WriteMultipleRegisters(_, _, _) => 0x10,
            Function::WriteReadMultipleRegisters(_, _, _, _, _) => 0x17,
        }
    }
}

/// No two kinds of request share a function code: two requests have the same
/// code exactly when they are of the same kind.
pub proof fn lemma_code_injective(f: Function<'_>, g: Function<'_>)
    ensures
        f.spec_code() == g.spec_code() <==> f.same_kind(g),
{
}

} // verus!
