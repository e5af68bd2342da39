//! The nested-tag bookkeeping shared by every parser: which element the next
//! text event belongs to, if any.
use vstd::prelude::*;
use crate::common::opt_view;

verus! {

/// How an opening tag bears on the text that follows it.
#[derive(PartialEq, Eq, Structural, Clone, Copy, Debug)]
pub enum TagRole {
    /// A container whose own text is skipped: its inner leaves carry the data.
    PassThrough,
    /// A cross-reference read from an attribute; its text is skipped.
    Reference,
    /// An element whose text is a field value.
    Leaf,
}

pub struct TagTracker {
    current: Option<String>,
    nested: bool,
    ignore_text: bool,
}

impl TagTracker {
    /// The element that a text event arriving now would be attributed to.
    pub closed spec fn target(&self) -> Option<Seq<char>> {
        if self.nested || self.ignore_text {
            None
        } else {
            opt_view(self.current)
        }
    }

    /// The innermost element opened since the last text was attributed.
    pub closed spec fn last_open(&self) -> Option<Seq<char>> {
        opt_view(self.current)
    }

    pub fn new() -> (r: TagTracker)
        ensures
            r.target() == None::<Seq<char>>,
            r.last_open() == None::<Seq<char>>,
    {
        TagTracker { current: None, nested: false, ignore_text: false }
    }

    /// Registers an opening tag: it becomes the current element, and its role
    /// decides whether text directly after it is attributed to it.
    pub fn open(&mut self, name: String, role: TagRole)
        ensures
            final(self).last_open() == Some(name@),
            final(self).target() == (if role == TagRole::Leaf {
                Some(name@)
            } else {
                None
            }),
    {
        self.current = Some(name);
        self.nested = role == TagRole::PassThrough;
        self.ignore_text = role == TagRole::Reference;
    }

    /// The element that a text event belongs to. Text that is attributed
    /// clears the current element, so that later text outside any element is
    /// skipped; text that is skipped leaves the state as it was.
    pub fn take_text_target(&mut self) -> (r: Option<String>)
        ensures
            opt_view(r) == old(self).target(),
            r.is_some() ==> final(self).target() == None::<Seq<char>> && final(self).last_open()
                == None::<Seq<char>>,
            r.is_none() ==> *final(self) == *old(self),
    {
        if self.nested || self.ignore_text {
            return None;
        }
        let mut taken: Option<String> = None;
        core::mem::swap(&mut taken, &mut self.current);
        taken
    }
}

} // verus!
