//! The `Download` struct is used to describe a file that is supposed to get
//! downloaded: its candidate source URLs (mirrors), the target file name,
//! the verification capability and an optional progress sink.

use vstd::prelude::*;
use crate::progress::Progress;
use crate::verify::Verify;

verus! {

/// The file name derived from a URL: the last segment of its path, or the
/// empty name when the URL does not parse or has no path segments. For given
/// URL text the value is fixed; it is computed by the `url` parser that
/// `reqwest` re-exports.
pub uninterp spec fn url_file_name(url: Seq<char>) -> Seq<char>;

/// Relies on `reqwest::Url::parse` and `reqwest::Url::path_segments`: both
/// are pure functions of the URL text, so the derived file name depends on
/// that text alone. Parse failure, a URL that cannot be a base, and an empty
/// last segment all yield the empty name.
#[verifier::external_body]
fn parsed_url_file_name(url: &str) -> (r: String)
    ensures
        r@ == url_file_name(url@),
{
    match reqwest::Url::parse(url) {
        Ok(u) => match u.path_segments() {
            Some(segments) => segments.last().unwrap_or("").to_string(),
            None => String::new(),
        },
        Err(_) => String::new(),
    }
}

/// The default file name for a download: empty for an empty URL, else the
/// last path segment of the parsed URL.
pub open spec fn spec_file_name_from_url(url: Seq<char>) -> Seq<char> {
    if url.len() == 0 {
        Seq::empty()
    } else {
        url_file_name(url)
    }
}

/// Derive the default file name for a download from its URL.
fn file_name_from_url(url: &str) -> (r: String)
    ensures
        r@ == spec_file_name_from_url(url@),
{
    if url.is_empty() {
        String::new()
    } else {
        parsed_url_file_name(url)
    }
}

/// A `Download`: the immutable description of one download job.
pub struct Download {
    /// A list of URLs that this file can be retrieved from; the engine picks
    /// the download URL from this list at random, never re-trying a URL that
    /// already failed for this job.
    pub urls: Vec<String>,
    /// A progress sink to report the download process with.
    pub progress: Option<Progress>,
    /// The file name to be used for the downloaded file.
    pub file_name: String,
    /// If `true`, a file already present at the final path at commit time is
    /// an error rather than being overwritten.
    pub check_file_name: bool,
    /// The output path used to write the file, overriding `file_name`.
    pub output_path: Option<String>,
    /// A callback used to verify the download with.
    pub verify_callback: Verify,
}

impl Download {
    /// The descriptor invariant the engine relies on: at least one source,
    /// and a non-empty target.
    pub open spec fn wf(&self) -> bool {
        &&& self.urls@.len() >= 1
        &&& self.spec_target_path()@.len() >= 1
    }

    /// The final target path: the explicit output path when one was set,
    /// else the file name.
    pub open spec fn spec_target_path(&self) -> String {
        match self.output_path {
            Some(p) => p,
            None => self.file_name,
        }
    }

    /// The final target path, as a fresh `String`.
    pub fn target_path(&self) -> (r: String)
        ensures
            r == self.spec_target_path(),
    {
        match &self.output_path {
            Some(p) => p.clone(),
            None => self.file_name.clone(),
        }
    }

    /// Create a new `Download` with a single download `url`.
    #[must_use]
    pub fn new(url: &str) -> (d: Download)
        ensures
            d.urls@.len() == 1,
            d.urls@[0]@ == url@,
            d.progress is None,
            d.file_name@ == spec_file_name_from_url(url@),
            d.check_file_name,
            d.output_path is None,
            d.verify_callback == Verify::Noop,
    {
        Download {
            urls: vec![url.to_owned()],
            progress: None,
            file_name: file_name_from_url(url),
            check_file_name: true,
            output_path: None,
            verify_callback: crate::verify::noop(),
        }
    }

    /// Create a new `Download` with a single download `url`, written to
    /// `output_path` instead of the derived file name.
    #[must_use]
    pub fn new_with_output(url: &str, output_path: &str) -> (d: Download)
        ensures
            d.urls@.len() == 1,
            d.urls@[0]@ == url@,
            d.progress is None,
            d.file_name@ == spec_file_name_from_url(url@),
            d.check_file_name,
            d.output_path matches Some(p) && p@ == output_path@,
            d.verify_callback == Verify::Noop,
    {
        Download {
            urls: vec![url.to_owned()],
            progress: None,
            file_name: file_name_from_url(url),
            check_file_name: true,
            output_path: Some(output_path.to_owned()),
            verify_callback: crate::verify::noop(),
        }
    }

    /// Create a new `Download` based on a list of mirror urls. The default
    /// file name is derived from the first URL of the list.
    #[must_use]
    pub fn new_mirrored(urls: &Vec<String>) -> (d: Download)
        ensures
            d.urls@ == urls@,
            d.progress is None,
            d.file_name@ == (if urls@.len() == 0 {
                Seq::<char>::empty()
            } else {
                spec_file_name_from_url(urls@[0]@)
            }),
            d.check_file_name,
            d.output_path is None,
            d.verify_callback == Verify::Noop,
    {
        let mut copied: Vec<String> = Vec::new();
        let n = urls.len();
        let mut j: usize = 0;
        while j < n
            invariant
                n == urls@.len(),
                j <= n,
                copied@.len() == j,
                forall|k: int| 0 <= k < j ==> copied@[k] == urls@[k],
            decreases n - j,
        {
            copied.push(urls[j].clone());
            j += 1;
        }
        proof {
            assert(copied@ =~= urls@);
        }
        let file_name = if urls.len() == 0 {
            String::new()
        } else {
            file_name_from_url(urls[0].as_str())
        };
        Download {
            urls: copied,
            progress: None,
            file_name,
            check_file_name: true,
            output_path: None,
            verify_callback: crate::verify::noop(),
        }
    }

    /// Set the name of the downloaded file.
    ///
    /// Default is the file name on the server side (if available).
    #[must_use]
    pub fn file_name(self, path: &str) -> (d: Download)
        ensures
            d.file_name@ == path@,
            d.urls == self.urls,
            d.progress == self.progress,
            d.check_file_name == self.check_file_name,
            d.output_path == self.output_path,
            d.verify_callback == self.verify_callback,
    {
        Download { file_name: path.to_owned(), ..self }
    }

    /// Register handling of progress information.
    ///
    /// Defaults to not recording any progress information.
    #[must_use]
    pub fn progress(self, progress: Progress) -> (d: Download)
        ensures
            d.progress == Some(progress),
            d.urls == self.urls,
            d.file_name == self.file_name,
            d.check_file_name == self.check_file_name,
            d.output_path == self.output_path,
            d.verify_callback == self.verify_callback,
    {
        Download { progress: Some(progress), ..self }
    }

    /// Register a callback to verify a download.
    ///
    /// Default is to assume the file was downloaded correctly.
    #[must_use]
    pub fn verify(self, func: Verify) -> (d: Download)
        ensures
            d.verify_callback == func,
            d.urls == self.urls,
            d.progress == self.progress,
            d.file_name == self.file_name,
            d.check_file_name == self.check_file_name,
            d.output_path == self.output_path,
    {
        Download { verify_callback: func, ..self }
    }
}

} // verus!
