//! What can go wrong.

use vstd::prelude::*;

verus! {

/// A value that the platform would refuse.
#[derive(Clone, Copy, Debug, PartialEq, Eq, Structural)]
pub enum ModelError {
    /// The texts of an embed are too long, by the given number of code points.
    EmbedTooLarge(usize),
    /// The content of a message is too long, by the given number of code points.
    MessageTooLong(usize),
    /// A message holds too many embeds.
    EmbedAmount,
    /// A channel is not of the kind that the operation is for.
    InvalidChannelType,
}

/// An error of this library.
#[derive(Debug, PartialEq, Eq)]
pub enum Error {
    /// A value that the platform would refuse.
    Model(ModelError),
    /// Text that is no address, or an address without a file name.
    Url(String),
    /// A file that cannot be used, with the reason.
    Io(String),
}

} // verus!
