//! Operations on an image: resizing and brightness.
//!
//! An operation here only says what it would do. It touches no file.

use crate::text::{decimal, push_decimal, signed_decimal, signed_decimal_string};
use vstd::prelude::*;
use vstd::string::StringExecFns;

verus! {

/// Why an operation could not be applied.
#[derive(Debug, Clone, PartialEq, Eq)]
pub enum OperationError {
    /// The operation makes no sense for the image.
    InvalidOperation(String),
    /// The operation was started and failed.
    ExecutionFailed(String),
}

/// The mathematical value of an [`OperationError`].
pub enum OperationFailure {
    InvalidOperation(Seq<char>),
    ExecutionFailed(Seq<char>),
}

impl View for OperationError {
    type V = OperationFailure;

    open spec fn view(&self) -> OperationFailure {
        match self {
            OperationError::InvalidOperation(message) => OperationFailure::InvalidOperation(
                message@,
            ),
            OperationError::ExecutionFailed(message) => OperationFailure::ExecutionFailed(message@),
        }
    }
}

impl OperationFailure {
    /// The failure as one line of text.
    pub open spec fn text(self) -> Seq<char> {
        match self {
            OperationFailure::InvalidOperation(message) => "Invalid operation: "@ + message,
            OperationFailure::ExecutionFailed(message) => "Operation execution failed: "@
                + message,
        }
    }
}

impl OperationError {
    /// The error as one line of text: what kind of failure it is, then its
    /// message.
    pub fn to_string(&self) -> (text: String)
        ensures
            text@ == self@.text(),
    {
        match self {
            OperationError::InvalidOperation(message) => String::from_str(
                "Invalid operation: ",
            ).concat(message.as_str()),
            OperationError::ExecutionFailed(message) => String::from_str(
                "Operation execution failed: ",
            ).concat(message.as_str()),
        }
    }
}

/// The value of the result of applying an operation.
pub open spec fn applied_view(result: Result<(), OperationError>) -> Result<(), OperationFailure> {
    match result {
        Ok(()) => Ok(()),
        Err(error) => Err(error@),
    }
}

/// Something that can be done to an image.
pub trait ImageOperation {
    /// What applying the operation to the image at `image_path` comes to.
    spec fn outcome(&self, image_path: Seq<char>) -> Result<(), OperationFailure>;

    /// The name of the operation.
    spec fn name(&self) -> Seq<char>;

    /// The description of the operation.
    spec fn description(&self) -> Seq<char>;

    /// Applies the operation to the image at `image_path`.
    fn apply(&self, image_path: &str) -> (result: Result<(), OperationError>)
        ensures
            applied_view(result) == self.outcome(image_path@),
    ;

    /// The name of the operation.
    fn get_name(&self) -> (name: &'static str)
        ensures
            name@ == self.name(),
    ;

    /// A description of the operation with its parameters.
    fn get_description(&self) -> (text: String)
        ensures
            text@ == self.description(),
    ;
}

/// Resizing to a width and a height.
pub struct ResizeOperation {
    width: u32,
    height: u32,
}

impl ResizeOperation {
    /// The width, in pixels.
    pub closed spec fn width(&self) -> u32 {
        self.width
    }

    /// The height, in pixels.
    pub closed spec fn height(&self) -> u32 {
        self.height
    }

    /// Resizing to `width` by `height` pixels.
    pub fn new(width: u32, height: u32) -> (operation: ResizeOperation)
        ensures
            operation.width() == width,
            operation.height() == height,
    {
        ResizeOperation { width, height }
    }
}

impl ImageOperation for ResizeOperation {
    open spec fn outcome(&self, image_path: Seq<char>) -> Result<(), OperationFailure> {
        Ok(())
    }

    open spec fn name(&self) -> Seq<char> {
        "Resize"@
    }

    /// `Resize image to <width>x<height>`.
    open spec fn description(&self) -> Seq<char> {
        "Resize image to "@ + decimal(self.width() as nat) + "x"@ + decimal(self.height() as nat)
    }

    fn apply(&self, image_path: &str) -> (result: Result<(), OperationError>) {
        Ok(())
    }

    fn get_name(&self) -> (name: &'static str) {
        "Resize"
    }

    fn get_description(&self) -> (text: String) {
        let mut text = String::from_str("Resize image to ");
        push_decimal(&mut text, self.width as u64);
        text.append("x");
        push_decimal(&mut text, self.height as u64);
        text
    }
}

/// The level nearest to `level` between -100 and 100.
pub open spec fn clamp_level(level: int) -> int {
    if level < -100 {
        -100
    } else if level > 100 {
        100
    } else {
        level
    }
}

/// A change of brightness by a level between -100 and 100.
pub struct BrightnessOperation {
    level: i32,
}

impl BrightnessOperation {
    /// The level, which lies between -100 and 100.
    pub closed spec fn level(&self) -> i32 {
        self.level
    }

    #[verifier::type_invariant]
    spec fn in_range(&self) -> bool {
        -100 <= self.level <= 100
    }

    /// A change of brightness by `level`, brought into the range from -100
    /// to 100.
    pub fn new(level: i32) -> (operation: BrightnessOperation)
        ensures
            operation.level() == clamp_level(level as int),
    {
        let level = if level < -100 {
            -100
        } else if level > 100 {
            100
        } else {
            level
        };
        BrightnessOperation { level }
    }
}

impl ImageOperation for BrightnessOperation {
    open spec fn outcome(&self, image_path: Seq<char>) -> Result<(), OperationFailure> {
        Ok(())
    }

    open spec fn name(&self) -> Seq<char> {
        "Brightness"@
    }

    /// `Adjust brightness by <level>`.
    open spec fn description(&self) -> Seq<char> {
        "Adjust brightness by "@ + signed_decimal(self.level() as int)
    }

    fn apply(&self, image_path: &str) -> (result: Result<(), OperationError>) {
        Ok(())
    }

    fn get_name(&self) -> (name: &'static str) {
        "Brightness"
    }

    fn get_description(&self) -> (text: String) {
        let mut text = String::from_str("Adjust brightness by ");
        text.append(signed_decimal_string(self.level as i64).as_str());
        text
    }
}

/// One of the operations that the library knows.
pub enum Operation {
    Resize(ResizeOperation),
    Brightness(BrightnessOperation),
}

impl ImageOperation for Operation {
    open spec fn outcome(&self, image_path: Seq<char>) -> Result<(), OperationFailure> {
        match self {
            Operation::Resize(operation) => operation.outcome(image_path),
            Operation::Brightness(operation) => operation.outcome(image_path),
        }
    }

    open spec fn name(&self) -> Seq<char> {
        match self {
            Operation::Resize(operation) => operation.name(),
            Operation::Brightness(operation) => operation.name(),
        }
    }

    open spec fn description(&self) -> Seq<char> {
        match self {
            Operation::Resize(operation) => operation.description(),
            Operation::Brightness(operation) => operation.description(),
        }
    }

    fn apply(&self, image_path: &str) -> (result: Result<(), OperationError>) {
        match self {
            Operation::Resize(operation) => operation.apply(image_path),
            Operation::Brightness(operation) => operation.apply(image_path),
        }
    }

    fn get_name(&self) -> (name: &'static str) {
        match self {
            Operation::Resize(operation) => operation.get_name(),
            Operation::Brightness(operation) => operation.get_name(),
        }
    }

    fn get_description(&self) -> (text: String) {
        match self {
            Operation::Resize(operation) => operation.get_description(),
            Operation::Brightness(operation) => operation.get_description(),
        }
    }
}

} // verus!
