use vstd::prelude::*;

verus! {

#[verifier::external_type_specification]
#[verifier::external_body]
pub struct ExIoErrorKind(std::io::ErrorKind);

/// What can go wrong in an editor operation.
#[derive(Clone, Copy, Debug, PartialEq, Eq)]
pub enum Error {
    /// The user closed a file dialog without picking a file.
    DialogClosed,
    /// Reading a picked file failed.
    IoError(std::io::ErrorKind),
    /// An index named no layer of the canvas.
    IndexOutOfRange,
}

} // verus!
