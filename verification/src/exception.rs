//! Exception codes that a server sends back in place of a normal response.
use vstd::prelude::*;

verus! {

/// Modbus exception codes returned from the server (slave).
#[derive(Debug, Clone, Copy, PartialEq, Eq, Structural)]
pub enum ExceptionCode {
    IllegalFunction,
    IllegalDataAddress,
    IllegalDataValue,
    SlaveOrServerFailure,
    Acknowledge,
    SlaveOrServerBusy,
    NegativeAcknowledge,
    MemoryParity,
    NotDefined,
    GatewayPath,
    GatewayTarget,
}

impl ExceptionCode {
    /// The byte that stands for this exception on the wire.
    pub open spec fn spec_code(self) -> u8 {
        match self {
            ExceptionCode::IllegalFunction => 0x01,
            ExceptionCode::IllegalDataAddress => 0x02,
            ExceptionCode::IllegalDataValue => 0x03,
            ExceptionCode::SlaveOrServerFailure => 0x04,
            ExceptionCode::Acknowledge => 0x05,
            ExceptionCode::SlaveOrServerBusy => 0x06,
            ExceptionCode::NegativeAcknowledge => 0x07,
            ExceptionCode::MemoryParity => 0x08,
            ExceptionCode::NotDefined => 0x09,
            ExceptionCode::GatewayPath => 0x0a,
            ExceptionCode::GatewayTarget => 0x0b,
        }
    }

    /// The exception that a wire byte stands for, if it stands for one.
    pub open spec fn spec_from_code(byte: u8) -> Option<ExceptionCode> {
        if byte == 0x01 {
            Some(ExceptionCode::IllegalFunction)
        } else if byte == 0x02 {
            Some(ExceptionCode::IllegalDataAddress)
        } else if byte == 0x03 {
            Some(ExceptionCode::IllegalDataValue)
        } else if byte == 0x04 {
            Some(ExceptionCode::SlaveOrServerFailure)
        } else if byte == 0x05 {
            Some(ExceptionCode::Acknowledge)
        } else if byte == 0x06 {
            Some(ExceptionCode::SlaveOrServerBusy)
        } else if byte == 0x07 {
            Some(ExceptionCode::NegativeAcknowledge)
        } else if byte == 0x08 {
            Some(ExceptionCode::MemoryParity)
        } else if byte == 0x09 {
            Some(ExceptionCode::NotDefined)
        } else if byte == 0x0a {
            Some(ExceptionCode::GatewayPath)
        } else if byte == 0x0b {
            Some(ExceptionCode::GatewayTarget)
        } else {
            None
        }
    }

    /// The variant's name, as it appears in rendered messages.
    pub open spec fn spec_name(self) -> Seq<char> {
        match self {
            ExceptionCode::IllegalFunction => "IllegalFunction"@,
            ExceptionCode::IllegalDataAddress => "IllegalDataAddress"@,
            ExceptionCode::IllegalDataValue => "IllegalDataValue"@,
            ExceptionCode::SlaveOrServerFailure => "SlaveOrServerFailure"@,
            ExceptionCode::Acknowledge => "Acknowledge"@,
            ExceptionCode::SlaveOrServerBusy => "SlaveOrServerBusy"@,
            ExceptionCode::NegativeAcknowledge => "NegativeAcknowledge"@,
            ExceptionCode::MemoryParity => "MemoryParity"@,
            ExceptionCode::NotDefined => "NotDefined"@,
            ExceptionCode::GatewayPath => "GatewayPath"@,
            ExceptionCode::GatewayTarget => "GatewayTarget"@,
        }
    }

    /// The wire byte of this exception.
    pub fn to_code(self) -> (byte: u8)
        ensures
            byte == self.spec_code(),
            0x01 <= byte <= 0x0b,
    {
        match self {
            ExceptionCode::IllegalFunction => 0x01,
            ExceptionCode::IllegalDataAddress => 0x02,
            ExceptionCode::IllegalDataValue => 0x03,
            ExceptionCode::SlaveOrServerFailure => 0x04,
            ExceptionCode::Acknowledge => 0x05,
            ExceptionCode::SlaveOrServerBusy => 0x06,
            ExceptionCode::NegativeAcknowledge => 0x07,
            ExceptionCode::MemoryParity => 0x08,
            ExceptionCode::NotDefined => 0x09,
            ExceptionCode::GatewayPath => 0x0a,
            ExceptionCode::GatewayTarget => 0x0b,
        }
    }

    /// Classifies a wire byte. Succeeds exactly on the eleven defined bytes,
    /// `0x01` to `0x0b`, and then gives the exception whose code the byte is.
    pub fn from_code(byte: u8) -> (found: Option<ExceptionCode>)
        ensures
            found == Self::spec_from_code(byte),
            found is Some <==> 0x01 <= byte <= 0x0b,
            found matches Some(c) ==> c.spec_code() == byte,
    {
        match byte {
            0x01 => Some(ExceptionCode::IllegalFunction),
            0x02 => Some(ExceptionCode::IllegalDataAddress),
            0x03 => Some(ExceptionCode::IllegalDataValue),
            0x04 => Some(ExceptionCode::SlaveOrServerFailure),
            0x05 => Some(ExceptionCode::Acknowledge),
            0x06 => Some(ExceptionCode::SlaveOrServerBusy),
            0x07 => Some(ExceptionCode::NegativeAcknowledge),
            0x08 => Some(ExceptionCode::MemoryParity),
            0x09 => Some(ExceptionCode::NotDefined),
            0x0a => Some(ExceptionCode::GatewayPath),
            0x0b => Some(ExceptionCode::GatewayTarget),
            _ => None,
        }
    }

    /// The variant's name.
    pub fn name(self) -> (text: &'static str)
        ensures
            text@ == self.spec_name(),
    {
        match self {
            ExceptionCode::IllegalFunction => "IllegalFunction",
            ExceptionCode::IllegalDataAddress => "IllegalDataAddress",
            ExceptionCode::IllegalDataValue => "IllegalDataValue",
            ExceptionCode::SlaveOrServerFailure => "SlaveOrServerFailure",
            ExceptionCode::Acknowledge => "Acknowledge",
            ExceptionCode::SlaveOrServerBusy => "SlaveOrServerBusy",
            ExceptionCode::NegativeAcknowledge => "NegativeAcknowledge",
            ExceptionCode::MemoryParity => "MemoryParity",
            ExceptionCode::NotDefined => "NotDefined",
            ExceptionCode::GatewayPath => "GatewayPath",
            ExceptionCode::GatewayTarget => "GatewayTarget",
        }
    }
}

/// Turning an exception into its byte and the byte back gives the exception
/// again.
pub proof fn lemma_code_round_trip(c: ExceptionCode)
    ensures
        ExceptionCode::spec_from_code(c.spec_code()) == Some(c),
{
}

/// A byte stands for an exception exactly when it lies in `0x01..=0x0b`, and
/// then for the one exception that has it as its code.
pub proof fn lemma_from_code_exact(byte: u8)
    ensures
        ExceptionCode::spec_from_code(byte) is Some <==> 0x01 <= byte <= 0x0b,
        forall|c: ExceptionCode|
            ExceptionCode::spec_from_code(byte) == Some(c) <==> c.spec_code() == byte,
{
}

} // verus!
