use vstd::prelude::*;
use crate::text::same_text;

verus! {

/// What is kept of a directory listing: the directory and an optional extension that
/// the listed files must have.
pub struct FileNameIterator {
    pub directory: String,
    pub extension: Option<String>,
}

/// Whether a file with extension `file_extension` passes the filter `filter`.
pub open spec fn extension_matches(filter: Option<Seq<char>>, file_extension: Option<Seq<char>>) -> bool {
    match filter {
        None => true,
        Some(e) => match file_extension {
            Some(f) => f == e,
            None => false,
        },
    }
}

impl FileNameIterator {
    /// The extension filter as text.
    pub open spec fn filter(self) -> Option<Seq<char>> {
        match self.extension {
            Some(e) => Some(e@),
            None => None,
        }
    }

    /// A listing of `directory` with no extension filter.
    pub fn new(directory: &str) -> (it: FileNameIterator)
        ensures
            it.directory@ == directory@,
            it.extension is None,
    {
        FileNameIterator { directory: String::from_str(directory), extension: None }
    }

    /// The same listing, keeping only files with the given extension.
    pub fn has_extension(self, extension: &str) -> (it: FileNameIterator)
        ensures
            it.directory == self.directory,
            it.filter() == Some(extension@),
    {
        FileNameIterator { directory: self.directory, extension: Some(String::from_str(extension)) }
    }

    /// Whether a file whose extension is `file_extension` is listed.
    pub fn has_matching_extension(&self, file_extension: Option<&str>) -> (b: bool)
        ensures
            b == extension_matches(
                self.filter(),
                match file_extension {
                    Some(f) => Some(f@),
                    None => None,
                },
            ),
    {
        match &self.extension {
            Some(extension) => match file_extension {
                Some(file_extension) => same_text(file_extension, extension.as_str()),
                None => false,
            },
            None => true,
        }
    }
}

} // verus!
