use dialog_box::cli::{Args, ExtensionError, OutputFileExtension};

fn args(output: &str) -> Args {
    Args::new("hello".to_string(), output.to_string(), 8)
}

#[test]
fn getters_hand_back_what_was_given() {
    let args = Args::new("hello\nworld".to_string(), "./output.gif".to_string(), 12);
    assert_eq!(args.text(), "hello\nworld");
    assert_eq!(args.output_path(), "./output.gif");
    assert_eq!(args.speed(), 12);
}

#[test]
fn known_extensions_are_told_apart() {
    assert_eq!(args("./output.gif").output_file_extension(), Ok(OutputFileExtension::Gif));
    assert_eq!(args("out/frames.png").output_file_extension(), Ok(OutputFileExtension::Png));
    assert_eq!(args("movie.mp4").output_file_extension(), Ok(OutputFileExtension::Mp4));
    assert_eq!(args("archive.tar.gif").output_file_extension(), Ok(OutputFileExtension::Gif));
}

#[test]
fn missing_extension_is_an_error() {
    assert_eq!(args("output").output_file_extension(), Err(ExtensionError::Missing));
    assert_eq!(args("").output_file_extension(), Err(ExtensionError::Missing));
    assert_eq!(args(".gif").output_file_extension(), Err(ExtensionError::Missing));
    assert_eq!(args("dir.d/output").output_file_extension(), Err(ExtensionError::Missing));
}

#[test]
fn unknown_extension_is_an_error_that_names_it() {
    assert_eq!(
        args("output.webm").output_file_extension(),
        Err(ExtensionError::Unknown("webm".to_string()))
    );
    assert_eq!(
        args("output.GIF").output_file_extension(),
        Err(ExtensionError::Unknown("GIF".to_string()))
    );
    assert_eq!(
        args("output.").output_file_extension(),
        Err(ExtensionError::Unknown(String::new()))
    );
}

#[test]
fn extension_given_directly_is_classified() {
    assert_eq!(
        OutputFileExtension::from_extension(Some("gif".to_string())),
        Ok(OutputFileExtension::Gif)
    );
    assert_eq!(
        OutputFileExtension::from_extension(Some("png".to_string())),
        Ok(OutputFileExtension::Png)
    );
    assert_eq!(
        OutputFileExtension::from_extension(Some("mp4".to_string())),
        Ok(OutputFileExtension::Mp4)
    );
    assert_eq!(OutputFileExtension::from_extension(None), Err(ExtensionError::Missing));
    assert_eq!(
        OutputFileExtension::from_extension(Some("./output.gif".to_string())),
        Err(ExtensionError::Unknown("./output.gif".to_string()))
    );
}

#[test]
fn errors_are_put_in_words() {
    assert_eq!(ExtensionError::Missing.message(), "Output file must have an extension");
    assert_eq!(
        ExtensionError::Unknown("webm".to_string()).message(),
        "Unknown extension: webm"
    );
}
