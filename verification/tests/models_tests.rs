use sidecar_supervisor::models::{
    cache_dir, destination_filename, filename_from_url, format_text_output, pick_filename,
    plan_ocr, DecodeMethod, ModelError, OcrJob, DEFAULT_DETECTION_MODEL,
    DEFAULT_RECOGNITION_MODEL,
};

fn text(s: &str) -> Option<String> {
    Some(s.to_string())
}

#[test]
fn default_models() {
    assert_eq!(
        DEFAULT_DETECTION_MODEL,
        "https://ocrs-models.s3-accelerate.amazonaws.com/text-detection.rten"
    );
    assert_eq!(
        DEFAULT_RECOGNITION_MODEL,
        "https://ocrs-models.s3-accelerate.amazonaws.com/text-recognition.rten"
    );
}

#[test]
fn job_with_default_models() {
    let job = plan_ocr("/tmp/shot.png".to_string(), None, None, None, None);
    assert_eq!(
        job,
        OcrJob {
            image_path: "/tmp/shot.png".to_string(),
            detection_model: DEFAULT_DETECTION_MODEL.to_string(),
            recognition_model: DEFAULT_RECOGNITION_MODEL.to_string(),
            alphabet: None,
            decode_method: DecodeMethod::Greedy,
            allowed_chars: None,
        }
    );
}

#[test]
fn job_with_given_models() {
    let job = plan_ocr("a.png".to_string(), text("det.rten"), text("rec.rten"), text("abc"), text("ab"));
    assert_eq!(
        job,
        OcrJob {
            image_path: "a.png".to_string(),
            detection_model: "det.rten".to_string(),
            recognition_model: "rec.rten".to_string(),
            alphabet: text("abc"),
            decode_method: DecodeMethod::Greedy,
            allowed_chars: text("ab"),
        }
    );
    let mixed = plan_ocr("a.png".to_string(), None, text("rec.rten"), None, None);
    assert_eq!(mixed.detection_model, DEFAULT_DETECTION_MODEL);
    assert_eq!(mixed.recognition_model, "rec.rten");
}

#[test]
fn lines_are_joined_with_line_feeds() {
    assert_eq!(format_text_output(&vec![text("first"), text("second")]), "first\nsecond");
    assert_eq!(format_text_output(&vec![text("a"), text("b"), text("c")]), "a\nb\nc");
}

#[test]
fn gaps_between_lines_are_left_out() {
    assert_eq!(format_text_output(&vec![None, text("a"), None, None, text("b"), None]), "a\nb");
    assert_eq!(format_text_output(&vec![None, None]), "");
}

#[test]
fn no_lines_give_no_text() {
    assert_eq!(format_text_output(&Vec::new()), "");
}

#[test]
fn one_line_has_no_line_feed() {
    assert_eq!(format_text_output(&vec![text("only")]), "only");
    assert_eq!(format_text_output(&vec![None, text("only")]), "only");
}

#[test]
fn empty_lines_are_kept() {
    assert_eq!(format_text_output(&vec![text(""), text("x"), text("")]), "\nx\n");
    assert_eq!(format_text_output(&vec![text(""), text("")]), "\n");
}

#[test]
fn filename_is_the_last_segment_of_the_address() {
    assert_eq!(
        filename_from_url("https://models.com/text-detection.rten"),
        text("text-detection.rten")
    );
    assert_eq!(
        filename_from_url("https://example.com/a/b/model.bin?version=2#top"),
        text("model.bin")
    );
    assert_eq!(filename_from_url(DEFAULT_RECOGNITION_MODEL), text("text-recognition.rten"));
}

#[test]
fn address_without_a_file_has_no_filename() {
    assert_eq!(filename_from_url("https://example.com"), None);
    assert_eq!(filename_from_url("https://example.com/"), None);
}

#[test]
fn text_that_is_no_address_has_no_filename() {
    assert_eq!(filename_from_url("models/text-detection.rten"), None);
    assert_eq!(filename_from_url(""), None);
    assert_eq!(filename_from_url("not an address"), None);
}

#[test]
fn given_filename_wins() {
    assert_eq!(pick_filename(Some("mine.rten"), text("theirs.rten")), Ok("mine.rten".to_string()));
    assert_eq!(pick_filename(Some("mine.rten"), None), Ok("mine.rten".to_string()));
    assert_eq!(pick_filename(None, text("theirs.rten")), Ok("theirs.rten".to_string()));
    assert_eq!(pick_filename(None, None), Err(ModelError::NoFilename));
}

#[test]
fn destination_of_a_download() {
    assert_eq!(
        destination_filename("https://models.com/text-detection.rten", None),
        Ok("text-detection.rten".to_string())
    );
    assert_eq!(
        destination_filename("https://models.com/text-detection.rten", Some("local.rten")),
        Ok("local.rten".to_string())
    );
    assert_eq!(destination_filename("no address", Some("local.rten")), Ok("local.rten".to_string()));
    assert_eq!(destination_filename("no address", None), Err(ModelError::NoFilename));
    assert_eq!(destination_filename("https://models.com/", None), Err(ModelError::NoFilename));
}

#[test]
fn cache_directory_is_below_home() {
    assert_eq!(
        cache_dir(text("/home/ada")),
        Ok(vec!["/home/ada".to_string(), ".cache".to_string(), "ocrs".to_string()])
    );
    assert_eq!(cache_dir(None), Err(ModelError::NoHomeDirectory));
}

#[test]
fn model_error_messages() {
    assert_eq!(ModelError::NoHomeDirectory.message(), "Failed to determine home directory");
    assert_eq!(ModelError::NoFilename.message(), "Could not get destination filename");
}

#[test]
fn filename_is_found_before_a_trailing_slash() {
    assert_eq!(filename_from_url("https://example.com/models/latest/"), text("latest"));
    assert_eq!(
        destination_filename("https://example.com/models/latest/", None),
        Ok("latest".to_string())
    );
}
