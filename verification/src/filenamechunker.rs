use vstd::prelude::*;
use std::path::Path;
use crate::text::{decimal, push_decimal};

verus! {

/// The file stem of a path as `Path::file_stem` of std gives it (for the path syntax of the
/// platform the crate is built for).
pub uninterp spec fn path_file_stem(path: Seq<char>) -> Option<Seq<char>>;

/// The extension of a path as `Path::extension` of std gives it.
pub uninterp spec fn path_extension(path: Seq<char>) -> Option<Seq<char>>;

/// A path after `PathBuf::set_file_name` of std.
pub uninterp spec fn path_with_file_name(path: Seq<char>, name: Seq<char>) -> Seq<char>;

/// A path after `PathBuf::set_extension` of std.
pub uninterp spec fn path_with_extension(path: Seq<char>, extension: Seq<char>) -> Seq<char>;

/// `Path::file_stem` of std, as text. The stem of a path given as text is a piece of that
/// text, so the conversion back to text is exact. Its value is not described beyond its name.
#[verifier::external_body]
fn file_stem(path: &str) -> (r: Option<String>)
    ensures
        r matches Some(s) ==> path_file_stem(path@) == Some(s@),
        r is None ==> path_file_stem(path@) is None,
{
    match Path::new(path).file_stem() {
        Some(s) => Some(s.to_string_lossy().into_owned()),
        None => None,
    }
}

/// `Path::extension` of std, as text. An extension is a piece of one file name, so it
/// holds no path separator.
#[verifier::external_body]
pub(crate) fn extension(path: &str) -> (r: Option<String>)
    ensures
        r matches Some(s) ==> path_extension(path@) == Some(s@) && !s@.contains('/'),
        r is None ==> path_extension(path@) is None,
{
    match Path::new(path).extension() {
        Some(s) => Some(s.to_string_lossy().into_owned()),
        None => None,
    }
}

/// `PathBuf::set_file_name` of std, on a copy of `path`, as text.
#[verifier::external_body]
fn with_file_name(path: &str, name: &str) -> (r: String)
    ensures
        r@ == path_with_file_name(path@, name@),
{
    let mut p = Path::new(path).to_path_buf();
    p.set_file_name(name);
    p.to_string_lossy().into_owned()
}

/// `PathBuf::set_extension` of std, on a copy of `path`, as text. std panics when the
/// extension holds a path separator, so that is left out.
#[verifier::external_body]
pub(crate) fn with_extension(path: &str, extension: &str) -> (r: String)
    requires
        !extension@.contains('/'),
    ensures
        r@ == path_with_extension(path@, extension@),
{
    let mut p = Path::new(path).to_path_buf();
    p.set_extension(extension);
    p.to_string_lossy().into_owned()
}

/// `path` with its file name replaced by `name`, keeping the extension of `path`.
pub open spec fn spec_change_file_name(path: Seq<char>, name: Seq<char>) -> Seq<char> {
    match path_extension(path) {
        Some(ext) => path_with_extension(path_with_file_name(path, name), ext),
        None => path_with_file_name(path, name),
    }
}

/// `path` with its file name replaced by `name`, keeping the extension of `path`.
pub fn change_file_name(path: &str, name: &str) -> (r: String)
    ensures
        r@ == spec_change_file_name(path@, name@),
{
    let result = with_file_name(path, name);
    match extension(path) {
        Some(ext) => with_extension(result.as_str(), ext.as_str()),
        None => result,
    }
}

/// The file name of chunk `n` of a file whose stem is `stem`: `stem-(n)`.
pub open spec fn chunk_name(stem: Seq<char>, n: nat) -> Seq<char> {
    stem + seq!['-', '('] + decimal(n) + seq![')']
}

/// The path of chunk `n` of the file `base`.
pub open spec fn chunk_path(base: Seq<char>, stem: Seq<char>, n: nat) -> Seq<char> {
    spec_change_file_name(base, chunk_name(stem, n))
}

/// Pairs each item of an iterator with the path of a file of its own: the items are
/// numbered from 1 and item `n` of `dir/name.ext` goes to `dir/name-(n).ext`.
pub struct FileNameChunker<I> {
    iterator: I,
    count: u32,
    original_file_name: String,
    stem: Option<String>,
}

impl<I> FileNameChunker<I> {
    /// The iterator whose items are paired with paths.
    pub closed spec fn inner(self) -> I {
        self.iterator
    }

    /// The number of items handed out so far.
    pub closed spec fn handed_out(self) -> u32 {
        self.count
    }

    /// The path the chunk files are named after.
    pub closed spec fn base_path(self) -> Seq<char> {
        self.original_file_name@
    }

    /// The file stem of that path, if it has one.
    pub closed spec fn base_stem(self) -> Option<Seq<char>> {
        match self.stem {
            Some(s) => Some(s@),
            None => None,
        }
    }

    /// A chunker over `iterator` for files named after `original_file_name`.
    pub fn new(iterator: I, original_file_name: &str) -> (c: Self)
        ensures
            c.inner() == iterator,
            c.handed_out() == 0,
            c.base_path() == original_file_name@,
            c.base_stem() == path_file_stem(original_file_name@),
    {
        let stem = file_stem(original_file_name);
        FileNameChunker {
            iterator,
            count: 0,
            original_file_name: String::from_str(original_file_name),
            stem,
        }
    }

    /// The number of items handed out so far.
    pub fn count(&self) -> (n: u32)
        ensures
            n == self.handed_out(),
    {
        self.count
    }

    /// The iterator, to take its next item from.
    pub fn iterator_mut(&mut self) -> (r: &mut I)
        ensures
            *r == old(self).inner(),
            final(self).inner() == *final(r),
            final(self).handed_out() == old(self).handed_out(),
            final(self).base_path() == old(self).base_path(),
            final(self).base_stem() == old(self).base_stem(),
    {
        &mut self.iterator
    }

    /// Whether the base path has a file stem, which chunk names need.
    pub fn has_stem(&self) -> (b: bool)
        ensures
            b == (self.base_stem() is Some),
    {
        self.stem.is_some()
    }

    /// Pairs the next item of the iterator, if there is one, with the path of its chunk
    /// file, and counts it.
    pub fn next_chunk<T>(&mut self, item: Option<T>) -> (r: Option<(T, String)>)
        requires
            item is Some ==> old(self).base_stem() is Some && old(self).handed_out()
                < u32::MAX,
        ensures
            item is None ==> r is None && final(self).handed_out() == old(self).handed_out(),
            item matches Some(x) ==> r matches Some((y, p)) && y == x && final(self).handed_out()
                == old(self).handed_out() + 1 && p@ == chunk_path(
                old(self).base_path(),
                old(self).base_stem()->0,
                final(self).handed_out() as nat,
            ),
            final(self).base_path() == old(self).base_path(),
            final(self).base_stem() == old(self).base_stem(),
            final(self).inner() == old(self).inner(),
    {
        match item {
            None => None,
            Some(item) => {
                self.count = self.count + 1;
                let mut name = String::new();
                match &self.stem {
                    Some(stem) => name.append(stem.as_str()),
                    None => {},
                }
                name.append("-(");
                push_decimal(&mut name, self.count);
                name.append(")");
                proof {
                    reveal_strlit("-(");
                    reveal_strlit(")");
                }
                assert(name@ =~= chunk_name(self.base_stem()->0, self.count as nat));
                let modified_path = change_file_name(self.original_file_name.as_str(), name.as_str());
                Some((item, modified_path))
            },
        }
    }
}

} // verus!
