//! The arguments of a run: what to say, where to write it, how fast.

use vstd::prelude::*;
use vstd::string::StringExecFns;

verus! {

/// The arguments of a run.
#[derive(Debug)]
pub struct Args {
    text: String,
    output: String,
    speed: u32,
}

/// What an `Args` holds, as plain values.
pub struct ArgsView {
    /// The text to display.
    pub text: Seq<char>,
    /// The path of the output file.
    pub output: Seq<char>,
    /// The speed of the animation.
    pub speed: u32,
}

impl View for Args {
    type V = ArgsView;

    closed spec fn view(&self) -> ArgsView {
        ArgsView { text: self.text@, output: self.output@, speed: self.speed }
    }
}

/// The kinds of output file that can be written.
#[derive(Debug, Clone, Copy, PartialEq, Eq, Structural)]
pub enum OutputFileExtension {
    Gif,
    Png,
    Mp4,
}

/// Why the output path names no kind of file that can be written.
#[derive(Debug, PartialEq, Eq)]
pub enum ExtensionError {
    /// The path has no extension.
    Missing,
    /// The path has the given extension, which is none of the known ones.
    Unknown(String),
}

/// What an `ExtensionError` holds, as plain values.
pub enum Refusal {
    /// The path has no extension.
    Missing,
    /// The path has the given extension, which is none of the known ones.
    Unknown(Seq<char>),
}

impl View for ExtensionError {
    type V = Refusal;

    open spec fn view(&self) -> Refusal {
        match *self {
            ExtensionError::Missing => Refusal::Missing,
            ExtensionError::Unknown(extension) => Refusal::Unknown(extension@),
        }
    }
}

/// The kind of output file that a path with the extension `found` asks
/// for: `gif`, `png` and `mp4` are known, in lower case only.
pub open spec fn kind_of(found: Option<Seq<char>>) -> Result<OutputFileExtension, Refusal> {
    match found {
        None => Err(Refusal::Missing),
        Some(extension) => if extension == "gif"@ {
            Ok(OutputFileExtension::Gif)
        } else if extension == "png"@ {
            Ok(OutputFileExtension::Png)
        } else if extension == "mp4"@ {
            Ok(OutputFileExtension::Mp4)
        } else {
            Err(Refusal::Unknown(extension))
        },
    }
}

/// The extension that was found, as plain text.
pub open spec fn text_of(found: Option<String>) -> Option<Seq<char>> {
    match found {
        Some(extension) => Some(extension@),
        None => None,
    }
}

/// An outcome as plain values.
pub open spec fn outcome_view(outcome: Result<OutputFileExtension, ExtensionError>) -> Result<
    OutputFileExtension,
    Refusal,
> {
    match outcome {
        Ok(kind) => Ok(kind),
        Err(error) => Err(error@),
    }
}

impl OutputFileExtension {
    /// Tells the kind of output file from the extension of its path.
    pub fn from_extension(found: Option<String>) -> (outcome: Result<
        OutputFileExtension,
        ExtensionError,
    >)
        ensures
            outcome_view(outcome) == kind_of(text_of(found)),
    {
        match found {
            None => Err(ExtensionError::Missing),
            Some(extension) => {
                if extension == String::from_str("gif") {
                    Ok(OutputFileExtension::Gif)
                } else if extension == String::from_str("png") {
                    Ok(OutputFileExtension::Png)
                } else if extension == String::from_str("mp4") {
                    Ok(OutputFileExtension::Mp4)
                } else {
                    Err(ExtensionError::Unknown(extension))
                }
            },
        }
    }
}

impl ExtensionError {
    /// The error in words.
    pub fn message(&self) -> (message: String)
        ensures
            message@ == match self@ {
                Refusal::Missing => "Output file must have an extension"@,
                Refusal::Unknown(extension) => "Unknown extension: "@ + extension,
            },
    {
        match self {
            ExtensionError::Missing => String::from_str("Output file must have an extension"),
            ExtensionError::Unknown(extension) => String::from_str("Unknown extension: ").concat(
                extension.as_str(),
            ),
        }
    }
}

/// `std::path::Path::extension` on the path written as `path`, as text:
/// the part of the path's file name after its last dot, if the path has
/// a file name and that name has a dot that is not its first character.
/// Which part of `path` is its file name depends on the platform, so the
/// contract says only that what comes back holds no dot.
#[verifier::external_body]
fn path_extension(path: &str) -> (found: Option<String>)
    ensures
        found matches Some(extension) ==> !extension@.contains('.'),
{
    std::path::Path::new(path).extension().and_then(|e| e.to_str()).map(|e| e.to_string())
}

impl Args {
    /// Puts the three arguments together.
    pub fn new(text: String, output: String, speed: u32) -> (args: Self)
        ensures
            args@ == (ArgsView { text: text@, output: output@, speed }),
    {
        Args { text, output, speed }
    }

    /// The text to display.
    pub fn text(&self) -> (text: &str)
        ensures
            text@ == self@.text,
    {
        self.text.as_str()
    }

    /// The path of the output file, as it was given.
    pub fn output_path(&self) -> (path: &str)
        ensures
            path@ == self@.output,
    {
        self.output.as_str()
    }

    /// The kind of output file that the output path asks for, told from
    /// the path's extension.
    pub fn output_file_extension(&self) -> (outcome: Result<OutputFileExtension, ExtensionError>)
        ensures
            exists|found: Option<Seq<char>>|
                {
                    &&& outcome_view(outcome) == #[trigger] kind_of(found)
                    &&& found matches Some(extension) ==> !extension.contains('.')
                },
    {
        OutputFileExtension::from_extension(path_extension(self.output.as_str()))
    }

    /// The speed of the animation.
    pub fn speed(&self) -> (speed: u32)
        ensures
            speed == self@.speed,
    {
        self.speed
    }
}

} // verus!
