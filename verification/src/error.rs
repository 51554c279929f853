//! Failures, each with the chain of reasons behind it.
use vstd::prelude::*;

pub mod laws;

use crate::net::Cancelled;

verus! {

/// One link in the chain of reasons.
#[derive(Debug)]
pub enum Cause {
    /// the user stopped the work
    Cancelled(Cancelled),
    Message(String),
}

/// What a [`Cause`] says.
pub enum CauseView {
    Cancelled,
    Message(Seq<char>),
}

impl View for Cause {
    type V = CauseView;

    open spec fn view(&self) -> CauseView {
        match self {
            Cause::Cancelled(_) => CauseView::Cancelled,
            Cause::Message(text) => CauseView::Message(text@),
        }
    }
}

/// A failure: the outermost reason first, the root cause last.
#[derive(Debug)]
pub struct Error {
    pub causes: Vec<Cause>,
}

impl View for Error {
    type V = Seq<CauseView>;

    open spec fn view(&self) -> Seq<CauseView> {
        Seq::new(self.causes@.len(), |i: int| self.causes@[i]@)
    }
}

/// The failure whose only reason is `text`.
pub open spec fn failure(text: Seq<char>) -> Seq<CauseView> {
    seq![CauseView::Message(text)]
}

/// The text of a cause.
pub open spec fn cause_text(cause: CauseView) -> Seq<char> {
    match cause {
        CauseView::Cancelled => "cancelled"@,
        CauseView::Message(text) => text,
    }
}

/// What a failure says first: its outermost reason.
pub open spec fn headline(causes: Seq<CauseView>) -> Seq<char> {
    if causes.len() > 0 {
        cause_text(causes[0])
    } else {
        "unknown error"@
    }
}

impl Cause {
    /// What this cause says.
    pub fn text(&self) -> (text: String)
        ensures
            text@ == cause_text(self@),
    {
        match self {
            Cause::Cancelled(c) => c.message(),
            Cause::Message(text) => text.clone(),
        }
    }
}

impl Error {
    /// The failure whose only reason is `text`.
    pub fn new(text: String) -> (e: Error)
        ensures
            e@ == failure(text@),
    {
        let mut causes: Vec<Cause> = Vec::new();
        causes.push(Cause::Message(text));
        let e = Error { causes };
        assert(e@ =~= failure(text@));
        e
    }

    /// The failure whose only reason is `text`.
    pub fn says(text: &str) -> (e: Error)
        ensures
            e@ == failure(text@),
    {
        Error::new(text.to_owned())
    }

    /// The user stopped the work.
    pub fn cancelled() -> (e: Error)
        ensures
            e@ == seq![CauseView::Cancelled],
    {
        let mut causes: Vec<Cause> = Vec::new();
        causes.push(Cause::Cancelled(Cancelled));
        let e = Error { causes };
        assert(e@ =~= seq![CauseView::Cancelled]);
        e
    }

    /// What this failure says first.
    pub fn headline(&self) -> (text: String)
        ensures
            text@ == headline(self@),
    {
        if self.causes.len() > 0 {
            self.causes[0].text()
        } else {
            "unknown error".to_owned()
        }
    }

    /// The same failure with `text` as its outermost reason.
    pub fn context(self, text: String) -> (e: Error)
        ensures
            e@ == failure(text@) + self@,
    {
        let mut causes: Vec<Cause> = Vec::new();
        causes.push(Cause::Message(text));
        let mut rest = self.causes;
        causes.append(&mut rest);
        let e = Error { causes };
        assert(e@ =~= failure(text@) + self@);
        e
    }
}

/// What a fallible step came to.
pub open spec fn said<T: View>(r: Result<T, Error>) -> Result<T::V, Seq<CauseView>> {
    match r {
        Ok(t) => Ok(t@),
        Err(e) => Err(e@),
    }
}

/// What a step without a value came to.
pub open spec fn settled(r: Result<(), Error>) -> Result<(), Seq<CauseView>> {
    match r {
        Ok(_) => Ok(()),
        Err(e) => Err(e@),
    }
}

}
