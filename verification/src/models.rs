//! Text recognition: which models a request uses, where a downloaded model is
//! kept, and how the recognised lines are put together.
//!
//! Loading models, reading images and running the recognition are done by the
//! caller. This module holds the choices around them.

use vstd::prelude::*;
use vstd::string::*;

verus! {

/// The model that finds text, where a request names none.
pub const DEFAULT_DETECTION_MODEL: &'static str =
    "https://ocrs-models.s3-accelerate.amazonaws.com/text-detection.rten";

/// The model that reads text, where a request names none.
pub const DEFAULT_RECOGNITION_MODEL: &'static str =
    "https://ocrs-models.s3-accelerate.amazonaws.com/text-recognition.rten";

/// How the recognised characters are picked.
#[derive(Clone, Copy, Debug, PartialEq, Eq)]
pub enum DecodeMethod {
    Greedy,
    BeamSearch { width: u32 },
}

/// One recognition job, with every choice made.
#[derive(Clone, Debug, PartialEq, Eq)]
pub struct OcrJob {
    pub image_path: String,
    pub detection_model: String,
    pub recognition_model: String,
    pub alphabet: Option<String>,
    pub decode_method: DecodeMethod,
    pub allowed_chars: Option<String>,
}

/// What went wrong before a model could be fetched.
#[derive(Clone, Copy, Debug, PartialEq, Eq)]
pub enum ModelError {
    /// The user's home directory is not known.
    NoHomeDirectory,
    /// No file name was given and the address yields none.
    NoFilename,
}

/// The model to use: the one that was asked for, else the default.
pub open spec fn model_or(asked: Option<String>, default: Seq<char>) -> Seq<char> {
    match asked {
        Some(model) => model@,
        None => default,
    }
}

fn choose_model(asked: Option<String>, default: &str) -> (model: String)
    ensures
        model@ == model_or(asked, default@),
{
    match asked {
        Some(model) => model,
        None => String::from_str(default),
    }
}

/// Makes the job for a recognition request: the models that were asked for,
/// or the default ones, and greedy decoding. Everything else is taken over as
/// it is.
pub fn plan_ocr(
    image_path: String,
    detection_model: Option<String>,
    recognition_model: Option<String>,
    alphabet: Option<String>,
    allowed_chars: Option<String>,
) -> (job: OcrJob)
    ensures
        job.image_path == image_path,
        job.detection_model@ == model_or(detection_model, DEFAULT_DETECTION_MODEL@),
        job.recognition_model@ == model_or(recognition_model, DEFAULT_RECOGNITION_MODEL@),
        job.alphabet == alphabet,
        job.decode_method == DecodeMethod::Greedy,
        job.allowed_chars == allowed_chars,
{
    OcrJob {
        image_path,
        detection_model: choose_model(detection_model, DEFAULT_DETECTION_MODEL),
        recognition_model: choose_model(recognition_model, DEFAULT_RECOGNITION_MODEL),
        alphabet,
        decode_method: DecodeMethod::Greedy,
        allowed_chars,
    }
}

/// The lines that were recognised, in order, without the gaps.
pub open spec fn present_lines(lines: Seq<Option<String>>) -> Seq<Seq<char>>
    decreases lines.len(),
{
    if lines.len() == 0 {
        Seq::empty()
    } else {
        let before = present_lines(lines.drop_last());
        match lines.last() {
            Some(line) => before.push(line@),
            None => before,
        }
    }
}

/// The parts in order, with the separator between each two of them.
pub open spec fn joined(parts: Seq<Seq<char>>, separator: Seq<char>) -> Seq<char>
    decreases parts.len(),
{
    if parts.len() == 0 {
        Seq::empty()
    } else if parts.len() == 1 {
        parts[0]
    } else {
        joined(parts.drop_last(), separator) + separator + parts.last()
    }
}

/// Puts the recognised lines together: one line of text for each line that
/// was recognised, with a line feed between each two.
pub fn format_text_output(text_lines: &Vec<Option<String>>) -> (text: String)
    ensures
        text@ == joined(present_lines(text_lines@), "\n"@),
{
    let mut text = String::new();
    let mut any = false;
    let mut i: usize = 0;
    while i < text_lines.len()
        invariant
            i <= text_lines.len(),
            any == (present_lines(text_lines@.take(i as int)).len() > 0),
            text@ == joined(present_lines(text_lines@.take(i as int)), "\n"@),
        decreases text_lines.len() - i,
    {
        proof {
            assert(text_lines@.take(i + 1).drop_last() == text_lines@.take(i as int));
        }
        let ghost before = present_lines(text_lines@.take(i as int));
        match &text_lines[i] {
            Some(line) => {
                proof {
                    assert(before.push(line@).drop_last() == before);
                }
                if any {
                    text.append("\n");
                }
                text.append(line.as_str());
                any = true;
            },
            None => {},
        }
        i = i + 1;
    }
    proof {
        assert(text_lines@.take(text_lines.len() as int) == text_lines@);
    }
    text
}

/// The path of an address: what `Url::path` gives for the address that
/// `Url::parse` reads, and nothing where the address does not parse.
pub uninterp spec fn url_path(url: Seq<char>) -> Option<Seq<char>>;

/// Parses an absolute address with `url::Url::parse` and takes its path with
/// `Url::path`. The contract only names the result.
#[verifier::external_body]
fn parse_url_path(url: &str) -> (r: Option<String>)
    ensures
        match r {
            Some(path) => url_path(url@) == Some(path@),
            None => url_path(url@) is None,
        },
{
    match url::Url::parse(url) {
        Ok(parsed) => Some(parsed.path().to_string()),
        Err(_) => None,
    }
}

/// The last component of a path: what `std::path::Path::file_name` gives for
/// the path, read by the rules of the platform that the library is built for,
/// and nothing where the path has no such component.
pub uninterp spec fn path_file_name(path: Seq<char>) -> Option<Seq<char>>;

/// The file name that an address ends in.
///
/// The address is parsed and the last component of its path is taken. There
/// is a file name exactly where the address parses and its path has a last
/// component.
pub fn filename_from_url(url: &str) -> (r: Option<String>)
    ensures
        match r {
            Some(name) => spec_filename_from_url(url@) == Some(name@),
            None => spec_filename_from_url(url@) is None,
        },
{
    match parse_url_path(url) {
        Some(path) => last_component(path.as_str()),
        None => None,
    }
}

/// The file name that an address ends in: the last component of the path of
/// the address, and none where the address does not parse.
pub open spec fn spec_filename_from_url(url: Seq<char>) -> Option<Seq<char>> {
    match url_path(url) {
        Some(path) => path_file_name(path),
        None => None,
    }
}

/// Takes the last component of a path with `std::path::Path::file_name`. The
/// contract only names the result.
#[verifier::external_body]
fn last_component(path: &str) -> (r: Option<String>)
    ensures
        match r {
            Some(name) => path_file_name(path@) == Some(name@),
            None => path_file_name(path@) is None,
        },
{
    std::path::Path::new(path).file_name().map(|name| name.to_string_lossy().into_owned())
}

/// The name under which a download is kept, by the name that was given and
/// the name that the address yields: the given name where there is one, else
/// the name from the address, else no name.
pub open spec fn spec_pick_filename(given: Option<&str>, derived: Option<String>) -> Result<
    Seq<char>,
    ModelError,
> {
    match given {
        Some(name) => Ok(name@),
        None => match derived {
            Some(name) => Ok(name@),
            None => Err(ModelError::NoFilename),
        },
    }
}

/// Picks the name under which a download is kept.
pub fn pick_filename(given: Option<&str>, derived: Option<String>) -> (r: Result<
    String,
    ModelError,
>)
    ensures
        match r {
            Ok(name) => spec_pick_filename(given, derived) == Ok::<Seq<char>, ModelError>(name@),
            Err(e) => spec_pick_filename(given, derived) == Err::<Seq<char>, ModelError>(e),
        },
{
    match given {
        Some(name) => Ok(String::from_str(name)),
        None => match derived {
            Some(name) => Ok(name),
            None => Err(ModelError::NoFilename),
        },
    }
}

/// The name under which the download of an address is kept: the given name
/// where there is one, else the file name that the address ends in, else no
/// name.
pub open spec fn spec_destination_filename(url: Seq<char>, given: Option<&str>) -> Result<
    Seq<char>,
    ModelError,
> {
    match given {
        Some(name) => Ok(name@),
        None => match spec_filename_from_url(url) {
            Some(name) => Ok(name),
            None => Err(ModelError::NoFilename),
        },
    }
}

/// The name under which the download of an address is kept: the given name
/// where there is one, else the file name that the address ends in. The
/// address is looked at only where no name was given.
pub fn destination_filename(url: &str, given: Option<&str>) -> (r: Result<String, ModelError>)
    ensures
        match r {
            Ok(name) => spec_destination_filename(url@, given) == Ok::<Seq<char>, ModelError>(
                name@,
            ),
            Err(e) => spec_destination_filename(url@, given) == Err::<Seq<char>, ModelError>(e),
        },
{
    match given {
        Some(_) => pick_filename(given, None),
        None => pick_filename(None, filename_from_url(url)),
    }
}

/// The directory in which downloaded models are kept, as the components of
/// its path: `.cache/ocrs` below the home directory.
pub fn cache_dir(home: Option<String>) -> (r: Result<Vec<String>, ModelError>)
    ensures
        match home {
            Some(dir) => r is Ok && r->Ok_0@.len() == 3 && r->Ok_0@[0] == dir && r->Ok_0@[1]@
                == ".cache"@ && r->Ok_0@[2]@ == "ocrs"@,
            None => r == Err::<Vec<String>, ModelError>(ModelError::NoHomeDirectory),
        },
{
    match home {
        Some(dir) => {
            let mut components: Vec<String> = Vec::new();
            components.push(dir);
            components.push(String::from_str(".cache"));
            components.push(String::from_str("ocrs"));
            Ok(components)
        },
        None => Err(ModelError::NoHomeDirectory),
    }
}

impl ModelError {
    pub fn message(&self) -> (text: String)
        ensures
            text@ == match self {
                ModelError::NoHomeDirectory => "Failed to determine home directory"@,
                ModelError::NoFilename => "Could not get destination filename"@,
            },
    {
        match self {
            ModelError::NoHomeDirectory => String::from_str("Failed to determine home directory"),
            ModelError::NoFilename => String::from_str("Could not get destination filename"),
        }
    }
}

} // verus!
