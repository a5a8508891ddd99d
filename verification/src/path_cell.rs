//! The cell that holds the path of the one document the service edits.
//!
//! The path is decided at most once: at start-up, or by the first save that
//! picks one. After that it never changes. `try_init` is the whole
//! check-then-set step; a caller that shares the cell between tasks runs it
//! under its lock, so of any number of racing writers the first one wins and
//! the others see the winner's path.

use vstd::prelude::*;

verus! {

/// A set-at-most-once holder of the document's path.
#[derive(Debug)]
pub struct PathCell {
    path: Option<String>,
}

impl View for PathCell {
    type V = Option<Seq<char>>;

    closed spec fn view(&self) -> Option<Seq<char>> {
        match self.path {
            Some(p) => Some(p@),
            None => None,
        }
    }
}

/// The cell's state after a writer offers `path`: an unset cell takes it, a
/// set cell keeps what it has.
pub open spec fn offer(cell: Option<Seq<char>>, path: Seq<char>) -> Option<Seq<char>> {
    match cell {
        Some(held) => Some(held),
        None => Some(path),
    }
}

/// The cell's state after the writers of `paths` have offered theirs, in
/// the order in which they got hold of the cell.
pub open spec fn offer_all(cell: Option<Seq<char>>, paths: Seq<Seq<char>>) -> Option<Seq<char>>
    decreases paths.len(),
{
    if paths.len() == 0 {
        cell
    } else {
        offer_all(offer(cell, paths[0]), paths.drop_first())
    }
}

impl PathCell {
    /// An unset cell.
    pub fn new() -> (cell: PathCell)
        ensures
            cell@ is None,
    {
        PathCell { path: None }
    }

    /// The cell at start-up: set if a path was given on the command line.
    pub fn from_startup(path: Option<String>) -> (cell: PathCell)
        ensures
            match path {
                Some(p) => cell@ == Some(p@),
                None => cell@ is None,
            },
    {
        PathCell { path }
    }

    /// The path, if one has been decided.
    pub fn get(&self) -> (path: Option<&String>)
        ensures
            match path {
                Some(p) => self@ == Some(p@),
                None => self@ is None,
            },
    {
        self.path.as_ref()
    }

    /// Whether a path has been decided.
    pub fn is_set(&self) -> (set: bool)
        ensures
            set == (self@ is Some),
    {
        self.path.is_some()
    }

    /// Sets the path if none is set, and says whether this call set it. A
    /// cell that is set is left as it is.
    pub fn try_init(&mut self, path: String) -> (won: bool)
        ensures
            won == (old(self)@ is None),
            final(self)@ == offer(old(self)@, path@),
            old(self)@ is Some ==> final(self)@ == old(self)@,
    {
        if self.path.is_some() {
            false
        } else {
            self.path = Some(path);
            true
        }
    }

    /// Offers `path` and returns the path the cell holds afterwards: `path`
    /// itself if the cell was unset, the path already held otherwise.
    pub fn get_or_init(&mut self, path: String) -> (held: String)
        ensures
            final(self)@ == offer(old(self)@, path@),
            final(self)@ == Some(held@),
            old(self)@ is Some ==> final(self)@ == old(self)@,
    {
        match &self.path {
            Some(p) => p.clone(),
            None => {
                let held = path.clone();
                self.path = Some(path);
                held
            },
        }
    }
}

/// Once set, the cell is never unset and never holds another path, whatever
/// is offered to it afterwards.
pub proof fn lemma_set_is_final(cell: Option<Seq<char>>, paths: Seq<Seq<char>>)
    requires
        cell is Some,
    ensures
        offer_all(cell, paths) == cell,
    decreases paths.len(),
{
    if paths.len() > 0 {
        lemma_set_is_final(offer(cell, paths[0]), paths.drop_first());
    }
}

/// Of any number of writers racing for an unset cell, exactly the first to
/// reach it wins: the cell ends up with that writer's path, and every
/// writer, winner or not, finds that path in the cell after its own offer.
pub proof fn lemma_first_writer_wins(paths: Seq<Seq<char>>)
    requires
        paths.len() > 0,
    ensures
        offer_all(None, paths) == Some(paths[0]),
        forall|i: int|
            0 <= i < paths.len() ==> #[trigger] offer_all(None, paths.take(i + 1)) == Some(
                paths[0],
            ),
        forall|i: int|
            0 <= i < paths.len() ==> (#[trigger] offer_all(None, paths.take(i)) is None <==> i
                == 0),
{
    lemma_set_is_final(Some(paths[0]), paths.drop_first());
    assert forall|i: int| 0 <= i < paths.len() implies #[trigger] offer_all(
        None,
        paths.take(i + 1),
    ) == Some(paths[0]) by {
        let prefix = paths.take(i + 1);
        assert(prefix[0] == paths[0]);
        lemma_set_is_final(Some(paths[0]), prefix.drop_first());
    }
    assert forall|i: int| 0 <= i < paths.len() implies (#[trigger] offer_all(
        None,
        paths.take(i),
    ) is None <==> i == 0) by {
        if i > 0 {
            assert(paths.take(i) == paths.take((i - 1) + 1));
        }
    }
}

} // verus!
