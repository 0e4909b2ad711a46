use piimgproc::imaging::operations::{
    BrightnessOperation, ImageOperation, Operation, OperationError, ResizeOperation,
};
use piimgproc::imaging::processor::{
    ImageFormat, ImageProcessingService, ImageProcessor, ImageProcessorFactory, JPEGProcessor,
    JPEGProcessorFactory, PNGProcessor, PNGProcessorFactory, ProcessingError, Processor,
    ProcessorFactory,
};

#[test]
fn formats_from_extensions() {
    assert_eq!(ImageFormat::from_extension("jpg"), ImageFormat::JPEG);
    assert_eq!(ImageFormat::from_extension("JPEG"), ImageFormat::JPEG);
    assert_eq!(ImageFormat::from_extension("Png"), ImageFormat::PNG);
    assert_eq!(ImageFormat::from_extension("gif"), ImageFormat::GIF);
    assert_eq!(ImageFormat::from_extension("bmp"), ImageFormat::BMP);
    assert_eq!(ImageFormat::from_extension("tiff"), ImageFormat::TIFF);
    assert_eq!(ImageFormat::from_extension("TIF"), ImageFormat::TIFF);
    assert_eq!(ImageFormat::from_extension("webp"), ImageFormat::WebP);
    assert_eq!(ImageFormat::from_extension("svg"), ImageFormat::Unknown);
    assert_eq!(ImageFormat::from_extension(""), ImageFormat::Unknown);
    assert_eq!(ImageFormat::from_lowercase_extension("JPG"), ImageFormat::Unknown);
}

#[test]
fn extensions_of_formats() {
    assert_eq!(ImageFormat::JPEG.extension(), "jpg");
    assert_eq!(ImageFormat::PNG.extension(), "png");
    assert_eq!(ImageFormat::GIF.extension(), "gif");
    assert_eq!(ImageFormat::BMP.extension(), "bmp");
    assert_eq!(ImageFormat::TIFF.extension(), "tiff");
    assert_eq!(ImageFormat::WebP.extension(), "webp");
    assert_eq!(ImageFormat::Unknown.extension(), "");
    for format in [ImageFormat::JPEG, ImageFormat::PNG, ImageFormat::GIF, ImageFormat::BMP, ImageFormat::TIFF, ImageFormat::WebP] {
        assert_eq!(ImageFormat::from_extension(format.extension()), format);
    }
}

#[test]
fn processors_keep_their_settings_in_range() {
    assert_eq!(JPEGProcessor::new(85).get_description(), "JPEG image processor (Quality: 85%)");
    assert_eq!(JPEGProcessor::new(100).get_description(), "JPEG image processor (Quality: 100%)");
    assert_eq!(JPEGProcessor::new(101).get_description(), "JPEG image processor (Quality: 100%)");
    assert_eq!(JPEGProcessor::new(255).get_description(), "JPEG image processor (Quality: 100%)");
    assert_eq!(JPEGProcessor::new(0).get_description(), "JPEG image processor (Quality: 0%)");
    assert_eq!(PNGProcessor::new(6).get_description(), "PNG image processor (Compression: 6)");
    assert_eq!(PNGProcessor::new(9).get_description(), "PNG image processor (Compression: 9)");
    assert_eq!(PNGProcessor::new(10).get_description(), "PNG image processor (Compression: 9)");
    assert_eq!(JPEGProcessor::new(1).get_name(), "JPEG Processor");
    assert_eq!(PNGProcessor::new(1).get_name(), "PNG Processor");
    assert_eq!(JPEGProcessor::new(1).get_format(), ImageFormat::JPEG);
    assert_eq!(PNGProcessor::new(1).get_format(), ImageFormat::PNG);
    assert_eq!(JPEGProcessor::new(1).process_image("a", "b"), Ok(()));
    assert_eq!(PNGProcessor::new(1).process_image("a", "b"), Ok(()));
}

#[test]
fn factories_name_their_settings() {
    let jpeg = JPEGProcessorFactory::new(200);
    assert_eq!(jpeg.get_name(), "JPEG Processor (Quality: 200%)");
    assert_eq!(
        jpeg.create_processor().get_description(),
        "JPEG image processor (Quality: 100%)"
    );
    let png = PNGProcessorFactory::new(6);
    assert_eq!(png.get_name(), "PNG Processor (Compression: 6)");
    assert_eq!(
        png.create_processor().get_description(),
        "PNG image processor (Compression: 6)"
    );
    assert_eq!(png.create_processor().get_format(), ImageFormat::PNG);
}

#[test]
fn operations_describe_themselves() {
    let resize = ResizeOperation::new(800, 600);
    assert_eq!(resize.get_name(), "Resize");
    assert_eq!(resize.get_description(), "Resize image to 800x600");
    assert_eq!(resize.apply("a.jpg"), Ok(()));
    assert_eq!(ResizeOperation::new(0, u32::MAX).get_description(), "Resize image to 0x4294967295");
    let brightness = BrightnessOperation::new(20);
    assert_eq!(brightness.get_name(), "Brightness");
    assert_eq!(brightness.get_description(), "Adjust brightness by 20");
    assert_eq!(brightness.apply("a.jpg"), Ok(()));
    assert_eq!(BrightnessOperation::new(-20).get_description(), "Adjust brightness by -20");
    assert_eq!(BrightnessOperation::new(100).get_description(), "Adjust brightness by 100");
    assert_eq!(BrightnessOperation::new(101).get_description(), "Adjust brightness by 100");
    assert_eq!(BrightnessOperation::new(-101).get_description(), "Adjust brightness by -100");
    assert_eq!(BrightnessOperation::new(i32::MIN).get_description(), "Adjust brightness by -100");
    assert_eq!(BrightnessOperation::new(i32::MAX).get_description(), "Adjust brightness by 100");
    assert_eq!(BrightnessOperation::new(0).get_description(), "Adjust brightness by 0");
}

#[test]
fn service_keeps_factories_and_operations() {
    let mut service = ImageProcessingService::new();
    assert_eq!(service.get_factories().len(), 0);
    assert_eq!(service.get_operations().len(), 0);
    service.register_factory(ProcessorFactory::Jpeg(JPEGProcessorFactory::new(85)));
    service.register_factory(ProcessorFactory::Png(PNGProcessorFactory::new(6)));
    service.add_operation(Operation::Resize(ResizeOperation::new(1, 2)));
    service.add_operation(Operation::Brightness(BrightnessOperation::new(3)));
    let names: Vec<String> = service.get_factories().iter().map(|f| f.get_name()).collect();
    assert_eq!(names, vec!["JPEG Processor (Quality: 85%)", "PNG Processor (Compression: 6)"]);
    let names: Vec<&str> = service.get_operations().iter().map(|o| o.get_name()).collect();
    assert_eq!(names, vec!["Resize", "Brightness"]);
    service.clear_operations();
    assert_eq!(service.get_operations().len(), 0);
    assert_eq!(service.get_factories().len(), 2);
}

#[test]
fn service_processes_with_the_chosen_factory() {
    let mut service = ImageProcessingService::new();
    assert_eq!(service.process_image("a", "b", 0), Err(ProcessingError::NoProcessorAvailable));
    service.register_factory(ProcessorFactory::Jpeg(JPEGProcessorFactory::new(85)));
    service.register_factory(ProcessorFactory::Png(PNGProcessorFactory::new(6)));
    service.add_operation(Operation::Resize(ResizeOperation::new(1, 2)));
    service.add_operation(Operation::Brightness(BrightnessOperation::new(3)));
    assert_eq!(service.process_image("a", "b", 0), Ok(()));
    assert_eq!(service.process_image("a", "b", 1), Ok(()));
    assert_eq!(service.process_image("a", "b", 2), Err(ProcessingError::NoProcessorAvailable));
    assert_eq!(
        service.process_image("a", "b", usize::MAX),
        Err(ProcessingError::NoProcessorAvailable)
    );
    let processor = JPEGProcessorFactory::new(1).create_processor();
    assert_eq!(service.process_with(&processor, "a", "b"), Ok(()));
    service.clear_operations();
    assert_eq!(service.process_with(&processor, "a", "b"), Ok(()));
}

#[test]
fn processing_errors_as_text() {
    assert_eq!(
        ProcessingError::NoProcessorAvailable.to_string(),
        "No suitable image processor available"
    );
    assert_eq!(
        ProcessingError::ProcessingFailed("x".to_string()).to_string(),
        "Processing failed: x"
    );
    assert_eq!(
        ProcessingError::OperationFailed(OperationError::InvalidOperation("x".to_string()))
            .to_string(),
        "Operation failed: Invalid operation: x"
    );
    assert_eq!(
        OperationError::ExecutionFailed("x".to_string()).to_string(),
        "Operation execution failed: x"
    );
}

#[test]
fn closed_variants_answer_as_their_parts() {
    let operation = Operation::Brightness(BrightnessOperation::new(-5));
    assert_eq!(operation.get_name(), "Brightness");
    assert_eq!(operation.get_description(), "Adjust brightness by -5");
    assert_eq!(operation.apply("a"), Ok(()));
    let factory = ProcessorFactory::Png(PNGProcessorFactory::new(12));
    assert_eq!(factory.get_name(), "PNG Processor (Compression: 12)");
    let processor = factory.create_processor();
    assert!(matches!(processor, Processor::Png(_)));
    assert_eq!(processor.get_name(), "PNG Processor");
    assert_eq!(processor.get_format(), ImageFormat::PNG);
    assert_eq!(processor.get_description(), "PNG image processor (Compression: 9)");
    assert_eq!(processor.process_image("a", "b"), Ok(()));
}
