//! The errors that the operations return, and the text of each.

use vstd::prelude::*;
use crate::hex::HexError;
use crate::messages::{port_phrase, port_phrase_string};

verus! {

/// The step of a transfer at which the operating system refused.
#[derive(Clone, Copy, Debug, PartialEq, Eq, Structural)]
pub enum TransportStage {
    Open,
    Write,
    SetTimeout,
    Read,
}

/// Why an operation on a port failed.
#[derive(Debug)]
pub enum PortError {
    /// No open port has this name.
    NotFound { port_name: String },
    /// The payload was announced as hexadecimal and is not.
    InvalidInput { reason: HexError },
    /// The operating system refused; `detail` is its own description.
    TransportFailure { stage: TransportStage, detail: String },
}

/// A `PortError` with its strings taken as sequences of characters.
pub enum PortErrorView {
    NotFound { port_name: Seq<char> },
    InvalidInput { reason: HexError },
    TransportFailure { stage: TransportStage, detail: Seq<char> },
}

impl View for PortError {
    type V = PortErrorView;

    open spec fn view(&self) -> PortErrorView {
        match *self {
            PortError::NotFound { port_name } => PortErrorView::NotFound { port_name: port_name@ },
            PortError::InvalidInput { reason } => PortErrorView::InvalidInput { reason },
            PortError::TransportFailure { stage, detail } => PortErrorView::TransportFailure {
                stage,
                detail: detail@,
            },
        }
    }
}

/// The text of a rejected hexadecimal payload.
pub open spec fn hex_error_text(reason: HexError) -> Seq<char> {
    match reason {
        HexError::OddLength => "Hex string length must be even"@,
        HexError::InvalidDigit => "Invalid hex: invalid digit found in string"@,
    }
}

/// What opens the text of a transport failure.
pub open spec fn stage_text(stage: TransportStage) -> Seq<char> {
    match stage {
        TransportStage::Open => "Failed to open port: "@,
        TransportStage::Write => "Failed to write data: "@,
        TransportStage::SetTimeout => "Failed to set timeout: "@,
        TransportStage::Read => "Failed to read data: "@,
    }
}

/// The text of an error.
pub open spec fn error_text(error: PortErrorView) -> Seq<char> {
    match error {
        PortErrorView::NotFound { port_name } => port_phrase(port_name) + " not found"@,
        PortErrorView::InvalidInput { reason } => "Invalid hex string: "@ + hex_error_text(reason),
        PortErrorView::TransportFailure { stage, detail } => stage_text(stage) + detail,
    }
}

impl HexError {
    /// The text of this error.
    pub fn message(&self) -> (text: &'static str)
        ensures
            text@ == hex_error_text(*self),
    {
        match self {
            HexError::OddLength => "Hex string length must be even",
            HexError::InvalidDigit => "Invalid hex: invalid digit found in string",
        }
    }
}

impl TransportStage {
    /// What opens the text of a failure at this stage.
    pub fn message(&self) -> (text: &'static str)
        ensures
            text@ == stage_text(*self),
    {
        match self {
            TransportStage::Open => "Failed to open port: ",
            TransportStage::Write => "Failed to write data: ",
            TransportStage::SetTimeout => "Failed to set timeout: ",
            TransportStage::Read => "Failed to read data: ",
        }
    }
}

impl PortError {
    /// The text of this error, as it is shown to a user.
    pub fn message(&self) -> (text: String)
        ensures
            text@ == error_text(self@),
    {
        match self {
            PortError::NotFound { port_name } => port_phrase_string(port_name.as_str()).concat(
                " not found",
            ),
            PortError::InvalidInput { reason } => String::from_str("Invalid hex string: ").concat(
                reason.message(),
            ),
            PortError::TransportFailure { stage, detail } => String::from_str(
                stage.message(),
            ).concat(detail.as_str()),
        }
    }
}

} // verus!
