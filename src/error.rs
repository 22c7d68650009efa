//! Failures that reach the caller of the cube driver.
use vstd::prelude::*;

verus! {

/// `std::io::Error`, carried through unchanged from the transport.
#[verifier::external_type_specification]
#[verifier::external_body]
pub struct ExIoError(std::io::Error);

/// What can go wrong between the driver and the cube.
#[derive(Debug)]
pub enum CubeError {
    /// The serial port could not be opened.
    ConnectionError(std::io::Error),
    /// A write of the pattern failed or was short.
    IoError(IoFailure),
}

/// How a write of the pattern to the cube went wrong.
#[derive(Debug)]
pub enum IoFailure {
    /// The transport refused the write.
    Transport(std::io::Error),
    /// The transport took only this many bytes of the pattern.
    Short(usize),
}

} // verus!
