use piimgproc::files::file_type::{
    file_type_info_for, find_previewable_files, get_file_type_info, get_mime_type_for_path,
    is_code_file, is_document_file, is_image_file, is_text_file, mime_type_for_extension, FileType,
};
use piimgproc::files::preview::{
    check_preview_size, create_temp_file, get_preview_info, preview_kind, PreviewKind,
    MAX_TEXT_PREVIEW_SIZE,
};
use piimgproc::imaging::processor::ImageFormat;
use piimgproc::utils::error::AppError;
use piimgproc::utils::image::{generate_output_filename, get_image_format, output_file_name};

#[test]
fn image_files_by_extension() {
    for name in ["a.jpg", "a.JPG", "a.jpeg", "a.png", "a.gif", "a.bmp", "a.tiff", "a.tif", "a.webp", "a.svg", "/x/y.z/b.PnG"] {
        assert!(is_image_file(name), "{}", name);
    }
    for name in ["a", "a.txt", "jpg", ".jpg", "a.jpg.bak", "", "a.", "a.jpg/b"] {
        assert!(!is_image_file(name), "{}", name);
    }
    assert!(is_image_file("a.jpg/"));
}

#[test]
fn raster_image_files_leave_svg_out() {
    assert!(piimgproc::utils::image::is_image_file("a.JPEG"));
    assert!(piimgproc::utils::image::is_image_file("a.webp"));
    assert!(!piimgproc::utils::image::is_image_file("a.svg"));
    assert!(!piimgproc::utils::image::is_image_file("a"));
}

#[test]
fn other_kinds_by_extension() {
    for name in ["a.txt", "a.md", "a.csv", "a.json", "a.xml", "a.html", "a.css", "a.LOG"] {
        assert!(is_text_file(name), "{}", name);
    }
    for name in ["a.rs", "a.py", "a.js", "a.ts", "a.c", "a.cpp", "a.h", "a.hpp", "a.java", "a.sh", "a.toml", "a.yaml", "a.YML"] {
        assert!(is_code_file(name), "{}", name);
    }
    for name in ["a.pdf", "a.doc", "a.docx", "a.rtf", "a.odt", "a.xlsx", "a.PPTX"] {
        assert!(is_document_file(name), "{}", name);
    }
    assert!(!is_text_file("a.rs"));
    assert!(!is_code_file("a.txt"));
    assert!(!is_document_file("a.xls"));
}

#[test]
fn file_type_info() {
    let info = get_file_type_info("/home/pi/Photos/cat.JPG");
    assert!(info.previewable);
    assert_eq!(info.file_type, FileType::Image);
    assert_eq!(info.mime_type.as_deref(), Some("image/jpeg"));

    let info = get_file_type_info("notes.md");
    assert_eq!((info.previewable, info.file_type), (true, FileType::Text));
    assert_eq!(info.mime_type.as_deref(), Some("text/markdown"));

    let info = get_file_type_info("main.rs");
    assert_eq!((info.previewable, info.file_type), (true, FileType::Code));
    assert_eq!(info.mime_type.as_deref(), Some("text/x-rust"));

    let info = get_file_type_info("paper.pdf");
    assert_eq!((info.previewable, info.file_type), (true, FileType::Document));
    assert_eq!(info.mime_type.as_deref(), Some("application/pdf"));

    let info = get_file_type_info("backup.zip");
    assert_eq!((info.previewable, info.file_type), (false, FileType::Other));
    assert_eq!(info.mime_type.as_deref(), Some("application/zip"));

    let info = get_file_type_info("a.toml");
    assert_eq!((info.previewable, info.file_type), (true, FileType::Code));
    assert_eq!(info.mime_type, None);

    let info = get_file_type_info("Makefile");
    assert_eq!((info.previewable, info.file_type), (false, FileType::Other));
    assert_eq!(info.mime_type, None);

    let info = file_type_info_for(Some("json"));
    assert_eq!((info.previewable, info.file_type), (true, FileType::Text));
    assert_eq!(info.mime_type.as_deref(), Some("application/json"));
    let info = file_type_info_for(None);
    assert_eq!((info.previewable, info.file_type, info.mime_type), (false, FileType::Other, None));
}

#[test]
fn mime_types() {
    let table = [
        ("jpg", "image/jpeg"),
        ("jpeg", "image/jpeg"),
        ("png", "image/png"),
        ("gif", "image/gif"),
        ("bmp", "image/bmp"),
        ("tif", "image/tiff"),
        ("tiff", "image/tiff"),
        ("webp", "image/webp"),
        ("svg", "image/svg+xml"),
        ("txt", "text/plain"),
        ("md", "text/markdown"),
        ("html", "text/html"),
        ("htm", "text/html"),
        ("css", "text/css"),
        ("csv", "text/csv"),
        ("xml", "text/xml"),
        ("json", "application/json"),
        ("rs", "text/x-rust"),
        ("py", "text/x-python"),
        ("js", "text/javascript"),
        ("ts", "text/typescript"),
        ("sh", "text/x-sh"),
        ("pdf", "application/pdf"),
        ("doc", "application/msword"),
        ("docx", "application/vnd.openxmlformats-officedocument.wordprocessingml.document"),
        ("xls", "application/vnd.ms-excel"),
        ("xlsx", "application/vnd.openxmlformats-officedocument.spreadsheetml.sheet"),
        ("zip", "application/zip"),
        ("tar", "application/x-tar"),
        ("gz", "application/gzip"),
    ];
    for (extension, mime) in table {
        assert_eq!(mime_type_for_extension(extension).as_deref(), Some(mime));
        let path = format!("dir/file.{}", extension.to_uppercase());
        assert_eq!(get_mime_type_for_path(&path).as_deref(), Some(mime));
    }
    assert_eq!(mime_type_for_extension("JPG"), None);
    assert_eq!(mime_type_for_extension("log"), None);
    assert_eq!(get_mime_type_for_path("noextension"), None);
}

#[test]
fn previewable_files_keep_their_order() {
    let paths: Vec<String> = ["b.zip", "a.png", "x", "c.rs", "d.mp3", "e.PDF"]
        .iter()
        .map(|s| s.to_string())
        .collect();
    assert_eq!(find_previewable_files(&paths), vec!["a.png", "c.rs", "e.PDF"]);
    assert_eq!(find_previewable_files(&vec![]), Vec::<String>::new());
}

#[test]
fn preview_size_limit() {
    assert_eq!(MAX_TEXT_PREVIEW_SIZE, 5_242_880);
    assert_eq!(check_preview_size(0), Ok(()));
    assert_eq!(check_preview_size(5_242_880), Ok(()));
    assert_eq!(
        check_preview_size(5_242_881),
        Err("File too large for preview (5242881 bytes). Maximum size is 5242880 bytes.".to_string())
    );
}

#[test]
fn preview_info() {
    let info = get_preview_info("/tmp/a.png", 1234);
    assert_eq!(info.path, "/tmp/a.png");
    assert_eq!(info.size, 1234);
    assert_eq!(info.error, None);
    assert_eq!(info.file_type_info.file_type, FileType::Image);
    assert!(info.file_type_info.previewable);
}

#[test]
fn temporary_file_names() {
    assert_eq!(create_temp_file("/tmp", 1700000000123, ".png"), "/tmp/preview_1700000000123.png");
    assert_eq!(create_temp_file("/tmp/", 0, ""), "/tmp/preview_0");
}

#[test]
fn image_formats_of_paths() {
    assert_eq!(get_image_format("a.JPG"), Some(ImageFormat::JPEG));
    assert_eq!(get_image_format("a.tif"), Some(ImageFormat::TIFF));
    assert_eq!(get_image_format("a.svg"), Some(ImageFormat::Unknown));
    assert_eq!(get_image_format("a"), None);
}

#[test]
fn output_file_names() {
    assert_eq!(output_file_name(Some("cat"), ImageFormat::PNG, None), "cat.png");
    assert_eq!(output_file_name(Some("cat"), ImageFormat::JPEG, Some("small")), "cat_small.jpg");
    assert_eq!(output_file_name(None, ImageFormat::WebP, None), "output.webp");
    assert_eq!(output_file_name(None, ImageFormat::Unknown, Some("x")), "output_x.");
}

#[test]
fn output_paths() {
    assert_eq!(
        generate_output_filename("/home/pi/cat.jpg", ImageFormat::PNG, None),
        "/home/pi/cat.png"
    );
    assert_eq!(
        generate_output_filename("/home/pi/cat.tar.gz", ImageFormat::TIFF, Some("thumb")),
        "/home/pi/cat.tar_thumb.tiff"
    );
    assert_eq!(generate_output_filename("cat.jpg", ImageFormat::GIF, None), "cat.gif");
    assert_eq!(generate_output_filename("/", ImageFormat::BMP, None), "./output.bmp");
    assert_eq!(generate_output_filename("", ImageFormat::BMP, None), "./output.bmp");
}

#[test]
fn application_errors() {
    assert_eq!(AppError::ConfigError("x".to_string()).to_string(), "Configuration error: x");
    assert_eq!(AppError::FileError("x".to_string()).to_string(), "File error: x");
    assert_eq!(AppError::NetworkError("x".to_string()).to_string(), "Network error: x");
    assert_eq!(AppError::ProcessingError("x".to_string()).to_string(), "Processing error: x");
    assert_eq!(AppError::UIError("x".to_string()).to_string(), "UI error: x");
}

#[test]
fn preview_kinds() {
    assert_eq!(preview_kind(FileType::Image), PreviewKind::Image);
    assert_eq!(preview_kind(FileType::Text), PreviewKind::Text);
    assert_eq!(preview_kind(FileType::Code), PreviewKind::Text);
    assert_eq!(preview_kind(FileType::Document), PreviewKind::Text);
    assert_eq!(preview_kind(FileType::Archive), PreviewKind::Unsupported);
    assert_eq!(preview_kind(FileType::Media), PreviewKind::Unsupported);
    assert_eq!(preview_kind(FileType::Other), PreviewKind::Unsupported);
}
