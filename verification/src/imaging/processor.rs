//! Image formats, processors for them, and the service that applies a list
//! of operations before it hands an image to a processor.
//!
//! A processor here only says what it would do. It touches no file.

use crate::imaging::operations::{ImageOperation, Operation, OperationError, OperationFailure};
use crate::paths::{lowercase, lowercase_of};
use crate::text::{decimal, push_decimal, str_eq};
use vstd::prelude::*;
use vstd::string::StringExecFns;

verus! {

/// The image formats that are told apart.
#[derive(Debug, Clone, Copy, PartialEq, Eq, Structural)]
pub enum ImageFormat {
    JPEG,
    PNG,
    GIF,
    BMP,
    TIFF,
    WebP,
    Unknown,
}

/// The format that a lower-case extension stands for.
pub open spec fn format_of_extension(extension: Seq<char>) -> ImageFormat {
    if extension == "jpg"@ || extension == "jpeg"@ {
        ImageFormat::JPEG
    } else if extension == "png"@ {
        ImageFormat::PNG
    } else if extension == "gif"@ {
        ImageFormat::GIF
    } else if extension == "bmp"@ {
        ImageFormat::BMP
    } else if extension == "tiff"@ || extension == "tif"@ {
        ImageFormat::TIFF
    } else if extension == "webp"@ {
        ImageFormat::WebP
    } else {
        ImageFormat::Unknown
    }
}

impl ImageFormat {
    /// The extension that files of this format are given. The unknown
    /// format has the empty extension.
    pub open spec fn extension_text(self) -> Seq<char> {
        match self {
            ImageFormat::JPEG => "jpg"@,
            ImageFormat::PNG => "png"@,
            ImageFormat::GIF => "gif"@,
            ImageFormat::BMP => "bmp"@,
            ImageFormat::TIFF => "tiff"@,
            ImageFormat::WebP => "webp"@,
            ImageFormat::Unknown => ""@,
        }
    }

    /// The format that `extension`, in lower case, stands for.
    pub fn from_lowercase_extension(extension: &str) -> (format: ImageFormat)
        ensures
            format == format_of_extension(extension@),
    {
        if str_eq(extension, "jpg") || str_eq(extension, "jpeg") {
            ImageFormat::JPEG
        } else if str_eq(extension, "png") {
            ImageFormat::PNG
        } else if str_eq(extension, "gif") {
            ImageFormat::GIF
        } else if str_eq(extension, "bmp") {
            ImageFormat::BMP
        } else if str_eq(extension, "tiff") || str_eq(extension, "tif") {
            ImageFormat::TIFF
        } else if str_eq(extension, "webp") {
            ImageFormat::WebP
        } else {
            ImageFormat::Unknown
        }
    }

    /// The format that `ext` stands for, whatever its case.
    pub fn from_extension(ext: &str) -> (format: ImageFormat)
        ensures
            format == format_of_extension(lowercase_of(ext@)),
    {
        let lower = lowercase(ext);
        ImageFormat::from_lowercase_extension(lower.as_str())
    }

    /// The extension that files of this format are given.
    pub fn extension(&self) -> (text: &'static str)
        ensures
            text@ == self.extension_text(),
    {
        match self {
            ImageFormat::JPEG => "jpg",
            ImageFormat::PNG => "png",
            ImageFormat::GIF => "gif",
            ImageFormat::BMP => "bmp",
            ImageFormat::TIFF => "tiff",
            ImageFormat::WebP => "webp",
            ImageFormat::Unknown => "",
        }
    }
}

/// The value of the result of a processor.
pub open spec fn processed_view(result: Result<(), String>) -> Result<(), Seq<char>> {
    match result {
        Ok(()) => Ok(()),
        Err(reason) => Err(reason@),
    }
}

/// Something that writes an image in one format.
pub trait ImageProcessor {
    /// What processing `input` into `output` comes to: success, or the
    /// reason of the failure.
    spec fn outcome(&self, input: Seq<char>, output: Seq<char>) -> Result<(), Seq<char>>;

    /// The name of the processor.
    spec fn name(&self) -> Seq<char>;

    /// The format that the processor writes.
    spec fn format(&self) -> ImageFormat;

    /// The description of the processor.
    spec fn description(&self) -> Seq<char>;

    /// Processes the image at `input_path` into `output_path`.
    fn process_image(&self, input_path: &str, output_path: &str) -> (result: Result<(), String>)
        ensures
            processed_view(result) == self.outcome(input_path@, output_path@),
    ;

    /// The name of the processor.
    fn get_name(&self) -> (name: &'static str)
        ensures
            name@ == self.name(),
    ;

    /// The format that the processor writes.
    fn get_format(&self) -> (format: ImageFormat)
        ensures
            format == self.format(),
    ;

    /// A description of the processor with its settings.
    fn get_description(&self) -> (text: String)
        ensures
            text@ == self.description(),
    ;
}

/// The smaller of `value` and `limit`.
pub open spec fn at_most(value: u8, limit: u8) -> u8 {
    if value > limit {
        limit
    } else {
        value
    }
}

/// A processor that writes JPEG with a quality from 0 to 100.
pub struct JPEGProcessor {
    quality: u8,
}

impl JPEGProcessor {
    /// The quality, in percent.
    pub closed spec fn quality(&self) -> u8 {
        self.quality
    }

    #[verifier::type_invariant]
    spec fn in_range(&self) -> bool {
        self.quality <= 100
    }

    /// A processor with the given quality, or 100 if that is more.
    pub fn new(quality: u8) -> (processor: JPEGProcessor)
        ensures
            processor.quality() == at_most(quality, 100),
    {
        JPEGProcessor { quality: if quality > 100 { 100 } else { quality } }
    }
}

impl ImageProcessor for JPEGProcessor {
    open spec fn outcome(&self, input: Seq<char>, output: Seq<char>) -> Result<(), Seq<char>> {
        Ok(())
    }

    open spec fn name(&self) -> Seq<char> {
        "JPEG Processor"@
    }

    open spec fn format(&self) -> ImageFormat {
        ImageFormat::JPEG
    }

    /// `JPEG image processor (Quality: <quality>%)`.
    open spec fn description(&self) -> Seq<char> {
        "JPEG image processor (Quality: "@ + decimal(self.quality() as nat) + "%)"@
    }

    fn process_image(&self, input_path: &str, output_path: &str) -> (result: Result<(), String>) {
        Ok(())
    }

    fn get_name(&self) -> (name: &'static str) {
        "JPEG Processor"
    }

    fn get_format(&self) -> (format: ImageFormat) {
        ImageFormat::JPEG
    }

    fn get_description(&self) -> (text: String) {
        let mut text = String::from_str("JPEG image processor (Quality: ");
        push_decimal(&mut text, self.quality as u64);
        text.append("%)");
        text
    }
}

/// A processor that writes PNG with a compression level from 0 to 9.
pub struct PNGProcessor {
    compression_level: u8,
}

impl PNGProcessor {
    /// The compression level.
    pub closed spec fn compression_level(&self) -> u8 {
        self.compression_level
    }

    #[verifier::type_invariant]
    spec fn in_range(&self) -> bool {
        self.compression_level <= 9
    }

    /// A processor with the given compression level, or 9 if that is more.
    pub fn new(compression_level: u8) -> (processor: PNGProcessor)
        ensures
            processor.compression_level() == at_most(compression_level, 9),
    {
        PNGProcessor {
            compression_level: if compression_level > 9 {
                9
            } else {
                compression_level
            },
        }
    }
}

impl ImageProcessor for PNGProcessor {
    open spec fn outcome(&self, input: Seq<char>, output: Seq<char>) -> Result<(), Seq<char>> {
        Ok(())
    }

    open spec fn name(&self) -> Seq<char> {
        "PNG Processor"@
    }

    open spec fn format(&self) -> ImageFormat {
        ImageFormat::PNG
    }

    /// `PNG image processor (Compression: <level>)`.
    open spec fn description(&self) -> Seq<char> {
        "PNG image processor (Compression: "@ + decimal(self.compression_level() as nat) + ")"@
    }

    fn process_image(&self, input_path: &str, output_path: &str) -> (result: Result<(), String>) {
        Ok(())
    }

    fn get_name(&self) -> (name: &'static str) {
        "PNG Processor"
    }

    fn get_format(&self) -> (format: ImageFormat) {
        ImageFormat::PNG
    }

    fn get_description(&self) -> (text: String) {
        let mut text = String::from_str("PNG image processor (Compression: ");
        push_decimal(&mut text, self.compression_level as u64);
        text.append(")");
        text
    }
}

/// One of the processors that the library knows.
pub enum Processor {
    Jpeg(JPEGProcessor),
    Png(PNGProcessor),
}

impl ImageProcessor for Processor {
    open spec fn outcome(&self, input: Seq<char>, output: Seq<char>) -> Result<(), Seq<char>> {
        match self {
            Processor::Jpeg(processor) => processor.outcome(input, output),
            Processor::Png(processor) => processor.outcome(input, output),
        }
    }

    open spec fn name(&self) -> Seq<char> {
        match self {
            Processor::Jpeg(processor) => processor.name(),
            Processor::Png(processor) => processor.name(),
        }
    }

    open spec fn format(&self) -> ImageFormat {
        match self {
            Processor::Jpeg(processor) => processor.format(),
            Processor::Png(processor) => processor.format(),
        }
    }

    open spec fn description(&self) -> Seq<char> {
        match self {
            Processor::Jpeg(processor) => processor.description(),
            Processor::Png(processor) => processor.description(),
        }
    }

    fn process_image(&self, input_path: &str, output_path: &str) -> (result: Result<(), String>) {
        match self {
            Processor::Jpeg(processor) => processor.process_image(input_path, output_path),
            Processor::Png(processor) => processor.process_image(input_path, output_path),
        }
    }

    fn get_name(&self) -> (name: &'static str) {
        match self {
            Processor::Jpeg(processor) => processor.get_name(),
            Processor::Png(processor) => processor.get_name(),
        }
    }

    fn get_format(&self) -> (format: ImageFormat) {
        match self {
            Processor::Jpeg(processor) => processor.get_format(),
            Processor::Png(processor) => processor.get_format(),
        }
    }

    fn get_description(&self) -> (text: String) {
        match self {
            Processor::Jpeg(processor) => processor.get_description(),
            Processor::Png(processor) => processor.get_description(),
        }
    }
}

/// A maker of image processors.
pub trait ImageProcessorFactory {
    /// The name of the factory.
    spec fn name(&self) -> Seq<char>;

    /// The processor is one that this factory makes.
    spec fn makes(&self, processor: Processor) -> bool;

    /// A new processor with the settings of the factory.
    fn create_processor(&self) -> (processor: Processor)
        ensures
            self.makes(processor),
    ;

    /// A name for the factory with its settings.
    fn get_name(&self) -> (text: String)
        ensures
            text@ == self.name(),
    ;
}

/// A maker of [`JPEGProcessor`]s.
pub struct JPEGProcessorFactory {
    quality: u8,
}

impl JPEGProcessorFactory {
    /// The quality that the factory was given.
    pub closed spec fn quality(&self) -> u8 {
        self.quality
    }

    /// A factory for processors of the given quality. A quality over 100 is
    /// kept as it is here and brought down to 100 in the processors.
    pub fn new(quality: u8) -> (factory: JPEGProcessorFactory)
        ensures
            factory.quality() == quality,
    {
        JPEGProcessorFactory { quality }
    }
}

impl ImageProcessorFactory for JPEGProcessorFactory {
    /// `JPEG Processor (Quality: <quality>%)`.
    open spec fn name(&self) -> Seq<char> {
        "JPEG Processor (Quality: "@ + decimal(self.quality() as nat) + "%)"@
    }

    /// A JPEG processor with the quality of the factory, or 100 if that is
    /// more.
    open spec fn makes(&self, processor: Processor) -> bool {
        processor matches Processor::Jpeg(made) && made.quality() == at_most(self.quality(), 100)
    }

    fn create_processor(&self) -> (processor: Processor) {
        Processor::Jpeg(JPEGProcessor::new(self.quality))
    }

    fn get_name(&self) -> (text: String) {
        let mut text = String::from_str("JPEG Processor (Quality: ");
        push_decimal(&mut text, self.quality as u64);
        text.append("%)");
        text
    }
}

/// A maker of [`PNGProcessor`]s.
pub struct PNGProcessorFactory {
    compression_level: u8,
}

impl PNGProcessorFactory {
    /// The compression level that the factory was given.
    pub closed spec fn compression_level(&self) -> u8 {
        self.compression_level
    }

    /// A factory for processors of the given compression level. A level
    /// over 9 is kept as it is here and brought down to 9 in the
    /// processors.
    pub fn new(compression_level: u8) -> (factory: PNGProcessorFactory)
        ensures
            factory.compression_level() == compression_level,
    {
        PNGProcessorFactory { compression_level }
    }
}

impl ImageProcessorFactory for PNGProcessorFactory {
    /// `PNG Processor (Compression: <level>)`.
    open spec fn name(&self) -> Seq<char> {
        "PNG Processor (Compression: "@ + decimal(self.compression_level() as nat) + ")"@
    }

    /// A PNG processor with the compression level of the factory, or 9 if
    /// that is more.
    open spec fn makes(&self, processor: Processor) -> bool {
        processor matches Processor::Png(made) && made.compression_level() == at_most(
            self.compression_level(),
            9,
        )
    }

    fn create_processor(&self) -> (processor: Processor) {
        Processor::Png(PNGProcessor::new(self.compression_level))
    }

    fn get_name(&self) -> (text: String) {
        let mut text = String::from_str("PNG Processor (Compression: ");
        push_decimal(&mut text, self.compression_level as u64);
        text.append(")");
        text
    }
}

/// One of the factories that the library knows.
pub enum ProcessorFactory {
    Jpeg(JPEGProcessorFactory),
    Png(PNGProcessorFactory),
}

impl ImageProcessorFactory for ProcessorFactory {
    open spec fn name(&self) -> Seq<char> {
        match self {
            ProcessorFactory::Jpeg(factory) => factory.name(),
            ProcessorFactory::Png(factory) => factory.name(),
        }
    }

    open spec fn makes(&self, processor: Processor) -> bool {
        match self {
            ProcessorFactory::Jpeg(factory) => factory.makes(processor),
            ProcessorFactory::Png(factory) => factory.makes(processor),
        }
    }

    fn create_processor(&self) -> (processor: Processor) {
        match self {
            ProcessorFactory::Jpeg(factory) => factory.create_processor(),
            ProcessorFactory::Png(factory) => factory.create_processor(),
        }
    }

    fn get_name(&self) -> (text: String) {
        match self {
            ProcessorFactory::Jpeg(factory) => factory.get_name(),
            ProcessorFactory::Png(factory) => factory.get_name(),
        }
    }
}

/// Why an image could not be processed.
#[derive(Debug, Clone, PartialEq, Eq)]
pub enum ProcessingError {
    /// No factory is registered under the index that was asked for.
    NoProcessorAvailable,
    /// One of the operations failed.
    OperationFailed(OperationError),
    /// The processor failed; the text says why.
    ProcessingFailed(String),
}

/// The mathematical value of a [`ProcessingError`].
pub enum ProcessingFailure {
    NoProcessorAvailable,
    OperationFailed(OperationFailure),
    ProcessingFailed(Seq<char>),
}

impl View for ProcessingError {
    type V = ProcessingFailure;

    open spec fn view(&self) -> ProcessingFailure {
        match self {
            ProcessingError::NoProcessorAvailable => ProcessingFailure::NoProcessorAvailable,
            ProcessingError::OperationFailed(error) => ProcessingFailure::OperationFailed(error@),
            ProcessingError::ProcessingFailed(reason) => ProcessingFailure::ProcessingFailed(
                reason@,
            ),
        }
    }
}

impl ProcessingFailure {
    /// The failure as one line of text.
    pub open spec fn text(self) -> Seq<char> {
        match self {
            ProcessingFailure::NoProcessorAvailable => "No suitable image processor available"@,
            ProcessingFailure::OperationFailed(failure) => "Operation failed: "@ + failure.text(),
            ProcessingFailure::ProcessingFailed(reason) => "Processing failed: "@ + reason,
        }
    }
}

impl ProcessingError {
    /// The error as one line of text.
    pub fn to_string(&self) -> (text: String)
        ensures
            text@ == self@.text(),
    {
        match self {
            ProcessingError::NoProcessorAvailable => String::from_str(
                "No suitable image processor available",
            ),
            ProcessingError::OperationFailed(error) => String::from_str(
                "Operation failed: ",
            ).concat(error.to_string().as_str()),
            ProcessingError::ProcessingFailed(reason) => String::from_str(
                "Processing failed: ",
            ).concat(reason.as_str()),
        }
    }
}

/// The value of the result of the service.
pub open spec fn service_view(result: Result<(), ProcessingError>) -> Result<
    (),
    ProcessingFailure,
> {
    match result {
        Ok(()) => Ok(()),
        Err(error) => Err(error@),
    }
}

/// The failure of the first operation in `operations` that fails on
/// `image_path`, if any does.
pub open spec fn first_failure(
    operations: Seq<Operation>,
    image_path: Seq<char>,
) -> Option<OperationFailure>
    decreases operations.len(),
{
    if operations.len() == 0 {
        None
    } else {
        match operations[0].outcome(image_path) {
            Err(failure) => Some(failure),
            Ok(()) => first_failure(operations.skip(1), image_path),
        }
    }
}

/// None of the operations that the library knows fails.
pub proof fn lemma_no_operation_fails(operations: Seq<Operation>, image_path: Seq<char>)
    ensures
        first_failure(operations, image_path) is None,
    decreases operations.len(),
{
    if operations.len() > 0 {
        lemma_no_operation_fails(operations.skip(1), image_path);
    }
}

/// The processors that are on offer and the operations that are applied to
/// an image before it is processed.
pub struct ImageProcessingService {
    factories: Vec<ProcessorFactory>,
    operations: Vec<Operation>,
}

impl ImageProcessingService {
    /// The registered factories, in the order of their registration.
    pub closed spec fn factories(&self) -> Seq<ProcessorFactory> {
        self.factories@
    }

    /// The operations, in the order in which they were added.
    pub closed spec fn operations(&self) -> Seq<Operation> {
        self.operations@
    }

    /// What processing `input` into `output` with `processor` comes to. The
    /// operations are applied in order, and the first that fails ends the
    /// work with its failure. If none fails, the processor decides.
    pub open spec fn outcome_with(
        &self,
        processor: Processor,
        input: Seq<char>,
        output: Seq<char>,
    ) -> Result<(), ProcessingFailure> {
        match first_failure(self.operations(), input) {
            Some(failure) => Err(ProcessingFailure::OperationFailed(failure)),
            None => match processor.outcome(input, output) {
                Ok(()) => Ok(()),
                Err(reason) => Err(ProcessingFailure::ProcessingFailed(reason)),
            },
        }
    }

    /// A service without factories and without operations.
    pub fn new() -> (service: ImageProcessingService)
        ensures
            service.factories().len() == 0,
            service.operations().len() == 0,
    {
        ImageProcessingService { factories: Vec::new(), operations: Vec::new() }
    }

    /// Registers a factory behind those that are registered already.
    pub fn register_factory(&mut self, factory: ProcessorFactory)
        ensures
            final(self).factories() == old(self).factories().push(factory),
            final(self).operations() == old(self).operations(),
    {
        self.factories.push(factory);
    }

    /// Adds an operation behind those that were added already.
    pub fn add_operation(&mut self, operation: Operation)
        ensures
            final(self).operations() == old(self).operations().push(operation),
            final(self).factories() == old(self).factories(),
    {
        self.operations.push(operation);
    }

    /// Removes every operation.
    pub fn clear_operations(&mut self)
        ensures
            final(self).operations().len() == 0,
            final(self).factories() == old(self).factories(),
    {
        self.operations.clear();
    }

    /// The operations, in the order in which they were added.
    pub fn get_operations(&self) -> (operations: &[Operation])
        ensures
            operations@ == self.operations(),
    {
        self.operations.as_slice()
    }

    /// The registered factories, in the order of their registration.
    pub fn get_factories(&self) -> (factories: &[ProcessorFactory])
        ensures
            factories@ == self.factories(),
    {
        self.factories.as_slice()
    }

    /// Applies the operations to the image at `input_path` and has it
    /// processed into `output_path` by `processor`.
    pub fn process_with(&self, processor: &Processor, input_path: &str, output_path: &str) -> (result:
        Result<(), ProcessingError>)
        ensures
            service_view(result) == self.outcome_with(*processor, input_path@, output_path@),
    {
        let mut i: usize = 0;
        proof {
            assert(self.operations@.skip(0) == self.operations@);
        }
        while i < self.operations.len()
            invariant
                i <= self.operations.len(),
                first_failure(self.operations@, input_path@) == first_failure(
                    self.operations@.skip(i as int),
                    input_path@,
                ),
            decreases self.operations.len() - i,
        {
            let ghost rest = self.operations@.skip(i as int);
            proof {
                assert(rest[0] == self.operations@[i as int]);
                assert(rest.skip(1) == self.operations@.skip(i + 1));
            }
            match self.operations[i].apply(input_path) {
                Err(error) => {
                    return Err(ProcessingError::OperationFailed(error));
                },
                Ok(()) => {},
            }
            i += 1;
        }
        proof {
            assert(self.operations@.skip(i as int).len() == 0);
        }
        match processor.process_image(input_path, output_path) {
            Ok(()) => Ok(()),
            Err(reason) => Err(ProcessingError::ProcessingFailed(reason)),
        }
    }

    /// Applies the operations to the image at `input_path` and has it
    /// processed into `output_path` by a new processor of the factory at
    /// `factory_index`. Without such a factory nothing is done. With one,
    /// the work succeeds, as no operation and no processor of the library
    /// fails.
    pub fn process_image(&self, input_path: &str, output_path: &str, factory_index: usize) -> (result:
        Result<(), ProcessingError>)
        ensures
            factory_index >= self.factories().len() ==> service_view(result) == Err::<
                (),
                ProcessingFailure,
            >(ProcessingFailure::NoProcessorAvailable),
            factory_index < self.factories().len() ==> result is Ok,
            factory_index < self.factories().len() ==> exists|processor: Processor|
                {
                    &&& #[trigger] self.factories()[factory_index as int].makes(processor)
                    &&& service_view(result) == self.outcome_with(
                        processor,
                        input_path@,
                        output_path@,
                    )
                },
    {
        if factory_index >= self.factories.len() {
            return Err(ProcessingError::NoProcessorAvailable);
        }
        let processor = self.factories[factory_index].create_processor();
        proof {
            lemma_no_operation_fails(self.operations(), input_path@);
        }
        self.process_with(&processor, input_path, output_path)
    }
}

} // verus!
