//! The loader that takes the records of an import, and the account of what
//! was pushed to it. The account is written here and nowhere else: by
//! [`Sink::new`], which opens it empty, and by [`Sink::push`], which enters
//! each push as the loader answered it.

use vstd::prelude::*;
use crate::history::{History, HistoryView};

verus! {

/// The sink of an import: it takes the records one at a time, and answers
/// each with success or with an error of its own.
pub trait Loader {
    /// What the loader reports when it cannot take a record.
    type Error;

    /// Takes one record.
    fn push(&mut self, hist: History) -> Result<(), Self::Error>;
}

/// A loader together with the account of what was pushed to it: which
/// records it was offered, which of them it took, and the errors with which
/// it refused the others.
pub struct Sink<L: Loader> {
    loader: L,
    offered: Ghost<Seq<HistoryView>>,
    delivered: Ghost<Seq<HistoryView>>,
    refusals: Ghost<Seq<L::Error>>,
}

impl<L: Loader> Sink<L> {
    /// Every record pushed so far, taken or refused, in the order of the
    /// pushes.
    pub closed spec fn offered(&self) -> Seq<HistoryView> {
        self.offered@
    }

    /// The records that the loader took, in the order in which it took them.
    pub closed spec fn delivered(&self) -> Seq<HistoryView> {
        self.delivered@
    }

    /// The errors with which the loader refused records, in their order.
    pub closed spec fn refusals(&self) -> Seq<L::Error> {
        self.refusals@
    }

    /// The loader that the account is kept of, as its pushes have left it.
    pub closed spec fn loader(&self) -> L {
        self.loader
    }

    /// An account of `loader` to which nothing was pushed yet.
    pub fn new(loader: L) -> (sink: Sink<L>)
        ensures
            sink.loader() == loader,
            sink.offered() == Seq::<HistoryView>::empty(),
            sink.delivered() == Seq::<HistoryView>::empty(),
            sink.refusals() == Seq::<L::Error>::empty(),
    {
        Sink {
            loader,
            offered: Ghost(Seq::empty()),
            delivered: Ghost(Seq::empty()),
            refusals: Ghost(Seq::empty()),
        }
    }

    /// Pushes one record to the loader and hands its answer back. The record
    /// counts as offered; it counts as delivered where the loader answered
    /// with success, and else the loader's error joins the refusals.
    pub fn push(&mut self, hist: History) -> (r: Result<(), L::Error>)
        ensures
            final(self).offered() == old(self).offered().push(hist@),
            match r {
                Ok(_) => {
                    &&& final(self).delivered() == old(self).delivered().push(hist@)
                    &&& final(self).refusals() == old(self).refusals()
                },
                Err(e) => {
                    &&& final(self).delivered() == old(self).delivered()
                    &&& final(self).refusals() == old(self).refusals().push(e)
                },
            },
    {
        let ghost record = hist@;
        let answer = self.loader.push(hist);
        self.offered = Ghost(self.offered@.push(record));
        match answer {
            Ok(_) => {
                self.delivered = Ghost(self.delivered@.push(record));
                Ok(())
            },
            Err(e) => {
                self.refusals = Ghost(self.refusals@.push(e));
                Err(e)
            },
        }
    }

    /// Closes the account and gives the loader back, as the pushes have
    /// left it.
    pub fn into_loader(self) -> (loader: L)
        ensures
            loader == self.loader(),
    {
        self.loader
    }
}

} // verus!
