//! The decisions of a run over the comic folders of a working directory.
//!
//! A `Run` says what to do next (list a folder's pages, note that it is
//! skipped, archive it, remove its pages, or finish) and is told how each
//! step went. The caller does the file work. Each folder is handled on its
//! own: whatever goes wrong in one, the run moves on to the next.
use crate::options::Options;
use vstd::prelude::*;

verus! {

/// The next piece of work of a run, for the folder at the given index of
/// the run's folder list.
#[derive(Clone, Copy, Debug, PartialEq, Eq, Structural)]
pub enum Action {
    /// List the pages of the folder.
    ListImages { folder: usize },
    /// Report that the folder has no pages and is skipped.
    Skip { folder: usize },
    /// Write the archive of the folder from the run's current pages.
    Archive { folder: usize },
    /// Remove the run's current pages, which are archived.
    Clean { folder: usize },
    /// Every folder has been handled.
    Finish,
}

/// How the last action went.
#[derive(Debug)]
pub enum Event {
    /// The folder was listed; these are its pages.
    Listed(Vec<String>),
    /// The folder could not be listed.
    ListFailed,
    /// The skip was reported.
    Skipped,
    /// The archive was written.
    Archived,
    /// The archive could not be written.
    ArchiveFailed,
    /// Removal of the pages was attempted for each of them.
    Cleaned,
}

/// A run in progress.
pub struct Run {
    n_folders: usize,
    clean_after: bool,
    current: usize,
    images: Vec<String>,
}

/// What a run is: how many folders it covers, whether pages are removed
/// after archiving, the folder at hand, and the pages listed for it.
pub struct RunModel {
    pub n_folders: usize,
    pub clean_after: bool,
    pub current: usize,
    pub images: Seq<String>,
}

impl View for Run {
    type V = RunModel;

    closed spec fn view(&self) -> RunModel {
        RunModel {
            n_folders: self.n_folders,
            clean_after: self.clean_after,
            current: self.current,
            images: self.images@,
        }
    }
}

/// Moving on to the folder after the current one, or finishing after the
/// last.
pub open spec fn advance(m: RunModel) -> (RunModel, Action) {
    if m.current + 1 < m.n_folders {
        let c = (m.current + 1) as usize;
        (RunModel { current: c, images: Seq::empty(), ..m }, Action::ListImages { folder: c })
    } else {
        (RunModel { current: m.n_folders, images: Seq::empty(), ..m }, Action::Finish)
    }
}

/// The state and action that follow an event.
pub open spec fn next(m: RunModel, e: Event) -> (RunModel, Action) {
    if m.current >= m.n_folders {
        (m, Action::Finish)
    } else {
        match e {
            Event::Listed(files) => if files@.len() == 0 {
                (RunModel { images: Seq::empty(), ..m }, Action::Skip { folder: m.current })
            } else {
                (RunModel { images: files@, ..m }, Action::Archive { folder: m.current })
            },
            Event::Archived => if m.clean_after {
                (m, Action::Clean { folder: m.current })
            } else {
                advance(m)
            },
            _ => advance(m),
        }
    }
}

/// A folder whose listing holds no page is skipped: the run reports it, then
/// moves on without archiving it.
pub proof fn lemma_empty_folder_is_skipped(m: RunModel, files: Vec<String>)
    requires
        m.current < m.n_folders,
        files@.len() == 0,
    ensures
        next(m, Event::Listed(files)).1 == (Action::Skip { folder: m.current }),
        next(next(m, Event::Listed(files)).0, Event::Skipped) == advance(m),
{
}

/// An archive is asked for only right after a listing of the folder at hand
/// that holds at least one page, and it is made of exactly those pages.
pub proof fn lemma_archive_only_after_pages(m: RunModel, e: Event)
    ensures
        next(m, e).1 matches Action::Archive { folder } ==> {
            &&& e matches Event::Listed(files)
            &&& files@.len() > 0
            &&& next(m, e).0.images == files@
            &&& folder == m.current
            &&& m.current < m.n_folders
        },
{
}

/// A folder whose listing holds a page gets exactly one archive: it is asked
/// for at once, and no outcome of it leads to a second one.
pub proof fn lemma_folder_with_pages_is_archived(m: RunModel, files: Vec<String>, e: Event)
    requires
        m.current < m.n_folders,
        files@.len() > 0,
        !(e is Listed),
    ensures
        next(m, Event::Listed(files)) == (RunModel { images: files@, ..m }, Action::Archive {
            folder: m.current,
        }),
        !(next(next(m, Event::Listed(files)).0, e).1 is Archive),
{
}

/// Once a folder's archive is written, exactly the pages it was made of are
/// removed when clean-after is set; otherwise the run moves on. No removal
/// is ever asked for without clean-after, which a run never changes.
pub proof fn lemma_clean_after_archive(m: RunModel, files: Vec<String>, e: Event)
    requires
        m.current < m.n_folders,
        files@.len() > 0,
    ensures
        ({
            let m1 = next(m, Event::Listed(files)).0;
            let m2 = next(m1, Event::Archived).0;
            let a2 = next(m1, Event::Archived).1;
            &&& m.clean_after ==> a2 == (Action::Clean { folder: m.current }) && m2.images
                == files@
            &&& !m.clean_after ==> (m2, a2) == advance(m)
        }),
        next(m, e).1 is Clean ==> m.clean_after,
        next(m, e).0.clean_after == m.clean_after,
{
}

/// A failure in a folder, to list it or to write its archive, moves the run
/// on to the next folder, or to the end after the last, just as a success
/// without clean-after does.
pub proof fn lemma_failure_moves_on(m: RunModel, e: Event)
    requires
        m.current < m.n_folders,
        e is ListFailed || e is ArchiveFailed,
    ensures
        next(m, e) == advance(m),
        !m.clean_after ==> next(m, e) == next(m, Event::Archived),
        next(m, e).1 == (if m.current + 1 < m.n_folders {
            Action::ListImages { folder: (m.current + 1) as usize }
        } else {
            Action::Finish
        }),
        next(m, e).0.current == (if m.current + 1 < m.n_folders {
            m.current + 1
        } else {
            m.n_folders as int
        }),
        next(m, e).0.n_folders == m.n_folders,
{
}

impl Run {
    /// A run over `n_folders` folders, and its first action.
    pub fn new(n_folders: usize, options: Options) -> (r: (Run, Action))
        ensures
            r.0@ == (RunModel {
                n_folders,
                clean_after: options.clean_after,
                current: 0,
                images: Seq::empty(),
            }),
            r.1 == (if n_folders > 0 { Action::ListImages { folder: 0 } } else { Action::Finish }),
    {
        let run = Run {
            n_folders,
            clean_after: options.clean_after,
            current: 0,
            images: Vec::new(),
        };
        let action = if n_folders > 0 { Action::ListImages { folder: 0 } } else { Action::Finish };
        (run, action)
    }

    /// The pages listed for the folder at hand: what `Archive` packs and
    /// `Clean` removes.
    pub fn images(&self) -> (r: &Vec<String>)
        ensures
            r@ == self@.images,
    {
        &self.images
    }

    fn advance(&mut self) -> (a: Action)
        ensures
            (final(self)@, a) == advance(old(self)@),
    {
        if self.current < self.n_folders && self.current + 1 < self.n_folders {
            self.current = self.current + 1;
            self.images = Vec::new();
            Action::ListImages { folder: self.current }
        } else {
            self.current = self.n_folders;
            self.images = Vec::new();
            Action::Finish
        }
    }

    /// Takes the outcome of the last action and gives the next one.
    pub fn step(&mut self, e: Event) -> (a: Action)
        ensures
            (final(self)@, a) == next(old(self)@, e),
    {
        if self.current >= self.n_folders {
            return Action::Finish;
        }
        match e {
            Event::Listed(files) => {
                if files.len() == 0 {
                    self.images = Vec::new();
                    Action::Skip { folder: self.current }
                } else {
                    self.images = files;
                    Action::Archive { folder: self.current }
                }
            },
            Event::Archived => {
                if self.clean_after {
                    Action::Clean { folder: self.current }
                } else {
                    self.advance()
                }
            },
            _ => self.advance(),
        }
    }
}

} // verus!
