use vstd::prelude::*;

verus! {

/// Relies on `pdf_extract::extract_text`: best-effort linear text
/// extraction of the document at `path`, in reading order; a failure the
/// extractor detects comes back as its error message. The result depends
/// on what is on disk, so nothing is stated of it. Beware: the extractor
/// aborts by panicking on some malformed or unusual documents instead of
/// returning an error, and no `requires` can exclude those since the
/// input is a path; the driver that runs a batch must contain that unwind
/// at the call so one file's abort cannot take the batch down.
#[verifier::external_body]
fn extract_pdf(path: &str) -> (r: Result<String, String>) {
    pdf_extract::extract_text(path).map_err(|e| e.to_string())
}

/// Extracts the textual content of the PDF document at `path`. Every
/// outcome comes straight from the extractor: the text in reading order
/// on success, its message on failure — and, as its doc says, a panic on
/// some malformed documents, which the caller must contain.
pub fn read_pdf(path: &str) -> (r: Result<String, String>) {
    extract_pdf(path)
}

} // verus!
