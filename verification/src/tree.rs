use vstd::prelude::*;
use crate::path::{apply, pieces, Parts};

verus! {

/// What is known of a regular file: the place where it is in truth, which is
/// another than the place where it is found if a link leads to it; and its
/// text, or none where it cannot be read.
pub struct FileView {
    pub canonical: Seq<Seq<char>>,
    pub text: Option<Seq<char>>,
}

/// What a file system holds, as far as resolving looks at it: the regular
/// files by the places where they are found.
pub type Files = Map<Seq<Seq<char>>, FileView>;

/// The place that the text `path` names, counted from the root.
pub open spec fn location(path: Seq<char>) -> Seq<Seq<char>> {
    apply(Seq::empty(), pieces(path))
}

/// The text of a file, if it can be read, as a plain value.
pub open spec fn text_view(t: Option<String>) -> Option<Seq<char>> {
    match t {
        Some(s) => Some(s@),
        None => None,
    }
}

/// A regular file at a place.
pub struct Entry {
    pub place: Parts,
    pub canonical: Parts,
    pub text: Option<String>,
}

impl View for Entry {
    type V = FileView;

    open spec fn view(&self) -> FileView {
        FileView { canonical: self.canonical@, text: text_view(self.text) }
    }
}

/// The files that a list of entries stands for: a later entry replaces an
/// earlier one of the same place.
pub open spec fn files_of(entries: Seq<Entry>) -> Files
    decreases entries.len(),
{
    if entries.len() == 0 {
        Map::empty()
    } else {
        files_of(entries.drop_last()).insert(entries.last().place@, entries.last()@)
    }
}

/// A file system held in memory.
pub struct FileTree {
    pub entries: Vec<Entry>,
}

impl View for FileTree {
    type V = Files;

    open spec fn view(&self) -> Files {
        files_of(self.entries@)
    }
}

impl FileTree {
    /// A file system without files.
    pub fn new() -> (t: FileTree)
        ensures
            t@ == Files::empty(),
    {
        FileTree { entries: Vec::new() }
    }

    fn put(&mut self, path: &str, canonical: &str, text: Option<String>)
        ensures
            final(self)@ == old(self)@.insert(
                location(path@),
                FileView { canonical: location(canonical@), text: text_view(text) },
            ),
    {
        let place = Parts::new().applied(&Parts::parse(path));
        let canonical = Parts::new().applied(&Parts::parse(canonical));
        self.entries.push(Entry { place, canonical, text });
        assert(self.entries@.drop_last() =~= old(self).entries@);
    }

    /// Adds a regular file whose text resolving never reads.
    pub fn add_file(&mut self, path: &str)
        ensures
            final(self)@ == old(self)@.insert(
                location(path@),
                FileView { canonical: location(path@), text: Some(Seq::empty()) },
            ),
    {
        self.put(path, path, Some(String::new()));
    }

    /// Adds a regular file with its text.
    pub fn add_text(&mut self, path: &str, text: &str)
        ensures
            final(self)@ == old(self)@.insert(
                location(path@),
                FileView { canonical: location(path@), text: Some(text@) },
            ),
    {
        self.put(path, path, Some(text.to_owned()));
    }

    /// Adds a regular file that cannot be read.
    pub fn add_unreadable(&mut self, path: &str)
        ensures
            final(self)@ == old(self)@.insert(
                location(path@),
                FileView { canonical: location(path@), text: None },
            ),
    {
        self.put(path, path, None);
    }

    /// Adds a regular file that is found at `path` through a link and is in
    /// truth the file `canonical`, with its text.
    pub fn add_alias(&mut self, path: &str, canonical: &str, text: &str)
        ensures
            final(self)@ == old(self)@.insert(
                location(path@),
                FileView { canonical: location(canonical@), text: Some(text@) },
            ),
    {
        self.put(path, canonical, Some(text.to_owned()));
    }

    /// The file that is found at `place`, if there is one.
    pub fn find(&self, place: &Parts) -> (r: Option<&Entry>)
        ensures
            match r {
                Some(e) => self@.contains_key(place@) && self@[place@] == e@,
                None => !self@.contains_key(place@),
            },
    {
        let mut i: usize = self.entries.len();
        assert(self.entries@.take(i as int) =~= self.entries@);
        while i > 0
            invariant
                i <= self.entries@.len(),
                self@.contains_key(place@) == files_of(self.entries@.take(i as int)).contains_key(
                    place@,
                ),
                self@.contains_key(place@) ==> self@[place@] == files_of(
                    self.entries@.take(i as int),
                )[place@],
            decreases i,
        {
            proof {
                let part = self.entries@.take(i as int);
                assert(part.drop_last() =~= self.entries@.take(i - 1));
                assert(part.last() == self.entries@[i - 1]);
            }
            i -= 1;
            if self.entries[i].place.same(place) {
                return Some(&self.entries[i]);
            }
        }
        None
    }

    /// Whether a regular file is found at `place`.
    pub fn is_file(&self, place: &Parts) -> (b: bool)
        ensures
            b == self@.contains_key(place@),
    {
        self.find(place).is_some()
    }
}

} // verus!
