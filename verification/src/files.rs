//! The directory browser: navigation state over one directory listing.
//!
//! Reading a directory is I/O and stays with the application; the browser
//! here owns the navigation policy. A path is a sequence of components, a
//! listing a sequence of [`Entry`] values (name plus file-or-directory
//! flag). After `move_back` or a successful `move_forwards` the application
//! reads the directory now named by `running_path` and hands the fresh
//! listing to [`FileSelector::set_contents`].

use vstd::prelude::*;

verus! {

/// One directory entry: its file name and whether it is a plain file.
#[derive(Debug)]
pub struct Entry {
    pub name: String,
    pub is_file: bool,
}

/// What the user asked to enqueue: a single file, or every track inside a
/// directory (which the application expands by reading that directory).
#[derive(Debug)]
pub enum QueueRequest {
    File(String),
    Folder(String),
}

/// The mathematical state of the browser.
pub ghost struct SelectorModel {
    /// Components of the directory currently listed.
    pub path: Seq<String>,
    /// The entries of that directory, as last handed in.
    pub entries: Seq<Entry>,
    /// Index of the highlighted entry.
    pub selected: int,
    /// Whether the highlighted entry was a plain file when last evaluated.
    pub is_file: bool,
}

/// The browser invariant: the highlight stays inside the listing, and an
/// empty listing pins the highlight to 0 and counts as "a file" so that
/// descending into nothing is impossible.
pub open spec fn wf_selector(m: SelectorModel) -> bool {
    if m.entries.len() == 0 {
        m.selected == 0 && m.is_file
    } else {
        0 <= m.selected < m.entries.len()
    }
}

/// Interactive selector over the contents of one directory.
pub struct FileSelector {
    running_path: Vec<String>,
    contents: Vec<Entry>,
    selected_entry: usize,
    is_file: bool,
}

impl View for FileSelector {
    type V = SelectorModel;

    closed spec fn view(&self) -> SelectorModel {
        SelectorModel {
            path: self.running_path@,
            entries: self.contents@,
            selected: self.selected_entry as int,
            is_file: self.is_file,
        }
    }
}

impl FileSelector {
    pub open spec fn wf(&self) -> bool {
        wf_selector(self@)
    }

    /// A browser positioned at the top of the given listing of `start_path`.
    /// Until the first movement the highlighted entry is treated as a file.
    pub fn new(start_path: Vec<String>, contents: Vec<Entry>) -> (s: FileSelector)
        ensures
            s.wf(),
            s@.path == start_path@,
            s@.entries == contents@,
            s@.selected == 0,
            s@.is_file,
    {
        FileSelector { running_path: start_path, contents, selected_entry: 0, is_file: true }
    }

    /// Re-reads whether the highlighted entry is a plain file.
    fn eval_selection(&mut self)
        requires
            old(self).wf(),
            old(self)@.entries.len() > 0,
        ensures
            final(self).wf(),
            final(self)@.path == old(self)@.path,
            final(self)@.entries == old(self)@.entries,
            final(self)@.selected == old(self)@.selected,
            final(self)@.is_file == old(self)@.entries[old(self)@.selected].is_file,
    {
        self.is_file = self.contents[self.selected_entry].is_file;
    }

    pub fn contents(&self) -> (r: &Vec<Entry>)
        ensures
            r@ == self@.entries,
    {
        &self.contents
    }

    pub fn selected_entry(&self) -> (r: usize)
        ensures
            r == self@.selected,
    {
        self.selected_entry
    }

    /// Components of the directory currently listed.
    pub fn running_path(&self) -> (r: &Vec<String>)
        ensures
            r@ == self@.path,
    {
        &self.running_path
    }

    /// Moves the highlight one entry up, staying at the top when already
    /// there, and re-evaluates the highlighted entry.
    pub fn move_up(&mut self)
        requires
            old(self).wf(),
        ensures
            final(self).wf(),
            final(self)@.path == old(self)@.path,
            final(self)@.entries == old(self)@.entries,
            old(self)@.selected == 0 ==> final(self)@ == old(self)@,
            old(self)@.selected > 0 ==> final(self)@.selected == old(self)@.selected - 1
                && final(self)@.is_file == old(self)@.entries[old(self)@.selected - 1].is_file,
    {
        if self.selected_entry == 0 {
            return;
        }
        self.selected_entry = self.selected_entry - 1;
        self.eval_selection();
    }

    /// Moves the highlight one entry down, staying on the last entry when
    /// already there, and re-evaluates the highlighted entry.
    pub fn move_down(&mut self)
        requires
            old(self).wf(),
        ensures
            final(self).wf(),
            final(self)@.path == old(self)@.path,
            final(self)@.entries == old(self)@.entries,
            old(self)@.selected + 1 >= old(self)@.entries.len() ==> final(self)@ == old(self)@,
            old(self)@.selected + 1 < old(self)@.entries.len() ==> final(self)@.selected == old(
                self,
            )@.selected + 1 && final(self)@.is_file == old(self)@.entries[old(self)@.selected
                + 1].is_file,
    {
        if self.contents.len() == 0 || self.selected_entry >= self.contents.len() - 1 {
            return;
        }
        self.selected_entry = self.selected_entry + 1;
        self.eval_selection();
    }

    /// Steps out of the current directory: drops the last path component (a
    /// no-op at the root) and rewinds the highlight. The caller then reads
    /// the directory at the new path and hands the listing to
    /// [`Self::set_contents`].
    pub fn move_back(&mut self)
        requires
            old(self).wf(),
        ensures
            final(self).wf(),
            old(self)@.path.len() > 0 ==> final(self)@.path == old(self)@.path.drop_last(),
            old(self)@.path.len() == 0 ==> final(self)@.path == old(self)@.path,
            final(self)@.entries == old(self)@.entries,
            final(self)@.selected == if old(self)@.entries.len() == 0 {
                0int
            } else {
                old(self)@.selected
            },
            final(self)@.is_file == old(self)@.is_file,
    {
        if self.running_path.len() > 0 {
            self.running_path.pop();
        }
    }

    /// Steps into the highlighted directory: pushes its name onto the path
    /// and rewinds the highlight, returning true. On a file (or an empty
    /// listing) nothing happens and false is returned. After a descent the
    /// caller reads the new directory and hands the listing to
    /// [`Self::set_contents`].
    pub fn move_forwards(&mut self) -> (descended: bool)
        requires
            old(self).wf(),
        ensures
            final(self).wf(),
            final(self)@.entries == old(self)@.entries,
            old(self)@.is_file ==> final(self)@ == old(self)@ && !descended,
            !old(self)@.is_file ==> descended && final(self)@.path == old(self)@.path.push(
                old(self)@.entries[old(self)@.selected].name,
            ) && final(self)@.selected == 0 && final(self)@.is_file == old(self)@.is_file,
    {
        if !self.is_file {
            let name = self.contents[self.selected_entry].name.clone();
            self.running_path.push(name);
            self.selected_entry = 0;
            true
        } else {
            false
        }
    }

    /// Replaces the listing after the application re-read the directory at
    /// `running_path`: highlight back to the top, and the first entry (or
    /// "file" for an empty directory) evaluated.
    pub fn set_contents(&mut self, entries: Vec<Entry>)
        ensures
            final(self).wf(),
            final(self)@.path == old(self)@.path,
            final(self)@.entries == entries@,
            final(self)@.selected == 0,
            final(self)@.is_file == if entries@.len() > 0 {
                entries@[0].is_file
            } else {
                true
            },
    {
        self.contents = entries;
        self.selected_entry = 0;
        if self.contents.len() > 0 {
            self.is_file = self.contents[0].is_file;
        } else {
            self.is_file = true;
        }
    }

    /// What the highlighted entry asks to enqueue: the file itself, or the
    /// whole directory for the application to expand. `None` only for an
    /// empty listing.
    pub fn queue_selection(&self) -> (r: Option<QueueRequest>)
        requires
            self.wf(),
        ensures
            self@.entries.len() == 0 ==> r is None,
            self@.entries.len() > 0 ==> r == Some(
                if self@.is_file {
                    QueueRequest::File(self@.entries[self@.selected].name)
                } else {
                    QueueRequest::Folder(self@.entries[self@.selected].name)
                },
            ),
    {
        if self.contents.len() == 0 {
            return None;
        }
        let name = self.contents[self.selected_entry].name.clone();
        if self.is_file {
            Some(QueueRequest::File(name))
        } else {
            Some(QueueRequest::Folder(name))
        }
    }
}

} // verus!
