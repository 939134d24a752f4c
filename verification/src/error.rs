use vstd::prelude::*;

verus! {

/// Why a strategy could not return an elementwise product.
#[derive(Debug, PartialEq, Eq)]
pub enum DotProductError {
    /// The system has no default compute device.
    NoDevice,
    /// The device could not load the kernel library; holds the device layer's message.
    Library(String),
    /// The kernel function could not be found in the library; holds the device layer's message.
    Function(String),
    /// The compute pipeline could not be built; holds the device layer's message.
    Pipeline(String),
    /// The two inputs differ in length.
    LengthMismatch { left: usize, right: usize },
    /// An input of this many words takes more bytes than a device buffer can have.
    InputTooLarge { length: usize },
    /// The device handed back `actual` words where `expected` were asked for.
    OutputLength { expected: usize, actual: usize },
    /// The host reported something other than the outcome of the pending command.
    UnexpectedEvent,
}

impl DotProductError {
    /// The text that describes this error: a fixed sentence, or, for a failure
    /// reported by the device layer, that layer's own message.
    pub open spec fn message_text(&self) -> Seq<char> {
        match self {
            DotProductError::NoDevice => "No device found"@,
            DotProductError::Library(text) => text@,
            DotProductError::Function(text) => text@,
            DotProductError::Pipeline(text) => text@,
            DotProductError::LengthMismatch { .. } => "Input lengths differ"@,
            DotProductError::InputTooLarge { .. } => "Input too large for a device buffer"@,
            DotProductError::OutputLength { .. } => "Device output has the wrong length"@,
            DotProductError::UnexpectedEvent => "Unexpected event from the host"@,
        }
    }

    /// Returns the text that describes this error.
    pub fn message(&self) -> (text: String)
        ensures
            text@ == self.message_text(),
    {
        match self {
            DotProductError::NoDevice => "No device found".to_owned(),
            DotProductError::Library(text) => text.clone(),
            DotProductError::Function(text) => text.clone(),
            DotProductError::Pipeline(text) => text.clone(),
            DotProductError::LengthMismatch { .. } => "Input lengths differ".to_owned(),
            DotProductError::InputTooLarge { .. } => "Input too large for a device buffer".to_owned(),
            DotProductError::OutputLength { .. } => "Device output has the wrong length".to_owned(),
            DotProductError::UnexpectedEvent => "Unexpected event from the host".to_owned(),
        }
    }
}

} // verus!
