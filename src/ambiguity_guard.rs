//! A few tree-construction contexts decide whether a start tag switches the
//! tokenizer into a text parsing state (as `<script>` does) or is ignored.
//! Without full tree construction the tokenizer cannot tell these cases
//! apart, and markup could then be smuggled past a rewriter as text or as
//! tags. The guard follows just enough context (inside `<select>`, inside a
//! `<template>` nested in `<select>`, in or after `<frameset>`) and makes
//! tokenization bail out on every text parsing mode switching start tag it
//! cannot prove harmless. Conforming markup triggers no bailout, with one
//! exception: such a tag in a `<template>` inside `<select>`.
use vstd::prelude::*;

use crate::errors::Error;
use crate::tag_name::{
    FRAMESET, IFRAME, INPUT, KEYGEN, NOEMBED, NOFRAMES, NOSCRIPT, PLAINTEXT, SCRIPT, SELECT, STYLE,
    TEMPLATE, TEXTAREA, TITLE, XMP,
};

verus! {

/// The tree-construction context that the guard follows.
#[derive(Clone, Copy, Debug, PartialEq, Eq, Structural)]
pub enum State {
    Default,
    InSelect,
    /// The number of open `<template>` elements inside `<select>`.
    InTemplateInSelect(u8),
    InOrAfterFrameset,
}

impl State {
    /// A template depth exists only while a template is open.
    pub open spec fn wf(self) -> bool {
        match self {
            State::InTemplateInSelect(depth) => depth >= 1,
            _ => true,
        }
    }
}

/// Start tags that switch the tokenizer into a raw text or RCDATA state.
pub open spec fn is_mode_switching(t: u64) -> bool {
    t == TEXTAREA || t == TITLE || t == PLAINTEXT || t == SCRIPT || t == STYLE || t == IFRAME || t
        == XMP || t == NOEMBED || t == NOFRAMES || t == NOSCRIPT
}

/// Start tags that end the "in select" context early.
pub open spec fn closes_select(t: u64) -> bool {
    t == SELECT || t == TEXTAREA || t == INPUT || t == KEYGEN
}

/// The context after start tag `t`, or the error that stops the stream.
pub open spec fn on_start_tag(s: State, t: u64) -> Result<State, Error> {
    match s {
        State::Default => {
            if t == SELECT {
                Ok(State::InSelect)
            } else if t == FRAMESET {
                Ok(State::InOrAfterFrameset)
            } else {
                Ok(State::Default)
            }
        },
        State::InSelect => {
            if closes_select(t) {
                Ok(State::Default)
            } else if t == TEMPLATE {
                Ok(State::InTemplateInSelect(1))
            } else if t != SCRIPT && is_mode_switching(t) {
                Err(Error::TextParsingAmbiguity)
            } else {
                Ok(State::InSelect)
            }
        },
        State::InTemplateInSelect(depth) => {
            if t == TEMPLATE {
                if depth == 255 {
                    Err(Error::MaxTagNestingReached)
                } else {
                    Ok(State::InTemplateInSelect((depth + 1) as u8))
                }
            } else if is_mode_switching(t) {
                Err(Error::TextParsingAmbiguity)
            } else {
                Ok(s)
            }
        },
        State::InOrAfterFrameset => {
            if t != NOFRAMES && is_mode_switching(t) {
                Err(Error::TextParsingAmbiguity)
            } else {
                Ok(s)
            }
        },
    }
}

/// The context after end tag `t`.
pub open spec fn on_end_tag(s: State, t: u64) -> State {
    match s {
        State::InSelect => if t == SELECT {
            State::Default
        } else {
            s
        },
        State::InTemplateInSelect(depth) => if t == TEMPLATE {
            if depth == 1 {
                State::InSelect
            } else {
                State::InTemplateInSelect((depth - 1) as u8)
            }
        } else {
            s
        },
        _ => s,
    }
}

fn assert_not_ambigious_mode_switch(tag_name_hash: u64) -> (r: Result<(), Error>)
    ensures
        r == (if is_mode_switching(tag_name_hash) {
            Err::<(), Error>(Error::TextParsingAmbiguity)
        } else {
            Ok::<(), Error>(())
        }),
{
    let t = tag_name_hash;
    if t == TEXTAREA || t == TITLE || t == PLAINTEXT || t == SCRIPT || t == STYLE || t == IFRAME
        || t == XMP || t == NOEMBED || t == NOFRAMES || t == NOSCRIPT {
        Err(Error::TextParsingAmbiguity)
    } else {
        Ok(())
    }
}

/// Follows the tags of one stream and rejects the ambiguous ones.
pub struct AmbiguityGuard {
    state: State,
}

impl View for AmbiguityGuard {
    type V = State;

    closed spec fn view(&self) -> State {
        self.state
    }
}

impl Default for AmbiguityGuard {
    fn default() -> (g: Self)
        ensures
            g@ == State::Default,
    {
        AmbiguityGuard { state: State::Default }
    }
}

impl AmbiguityGuard {
    /// The context followed so far.
    pub fn context(&self) -> (s: State)
        ensures
            s == self@,
    {
        self.state
    }

    /// Takes the start tag `tag_name_hash`; `None` stands for a tag that the
    /// guard does not follow. On an error the context stays as it was.
    pub fn track_start_tag(&mut self, tag_name_hash: Option<u64>) -> (r: Result<(), Error>)
        requires
            old(self)@.wf(),
        ensures
            final(self)@.wf(),
            match tag_name_hash {
                None => r == Ok::<(), Error>(()) && final(self)@ == old(self)@,
                Some(t) => match on_start_tag(old(self)@, t) {
                    Ok(s) => r == Ok::<(), Error>(()) && final(self)@ == s,
                    Err(e) => r == Err::<(), Error>(e) && final(self)@ == old(self)@,
                },
            },
    {
        if let Some(t) = tag_name_hash {
            match self.state {
                State::Default => {
                    if t == SELECT {
                        self.state = State::InSelect;
                    } else if t == FRAMESET {
                        self.state = State::InOrAfterFrameset;
                    }
                },
                State::InSelect => {
                    // These start tags leave "in select" early.
                    if t == SELECT || t == TEXTAREA || t == INPUT || t == KEYGEN {
                        self.state = State::Default;
                    } else if t == TEMPLATE {
                        self.state = State::InTemplateInSelect(1);
                    }
                    // <script> keeps its text parsing in "in select".
                     else if t != SCRIPT {
                        if let Err(e) = assert_not_ambigious_mode_switch(t) {
                            return Err(e);
                        }
                    }
                },
                State::InTemplateInSelect(depth) => {
                    if t == TEMPLATE {
                        if depth == u8::MAX {
                            return Err(Error::MaxTagNestingReached);
                        }
                        self.state = State::InTemplateInSelect(depth + 1);
                    } else if let Err(e) = assert_not_ambigious_mode_switch(t) {
                        return Err(e);
                    }
                },
                State::InOrAfterFrameset => {
                    // <noframes> is allowed in and after <frameset>.
                    if t != NOFRAMES {
                        if let Err(e) = assert_not_ambigious_mode_switch(t) {
                            return Err(e);
                        }
                    }
                },
            }
        }
        Ok(())
    }

    /// Takes the end tag `tag_name_hash`; `None` stands for a tag that the
    /// guard does not follow. End tags are never rejected.
    pub fn track_end_tag(&mut self, tag_name_hash: Option<u64>)
        requires
            old(self)@.wf(),
        ensures
            final(self)@.wf(),
            match tag_name_hash {
                None => final(self)@ == old(self)@,
                Some(t) => final(self)@ == on_end_tag(old(self)@, t),
            },
    {
        if let Some(t) = tag_name_hash {
            match self.state {
                State::InSelect => {
                    if t == SELECT {
                        self.state = State::Default;
                    }
                },
                State::InTemplateInSelect(depth) => {
                    if t == TEMPLATE {
                        self.state = if depth == 1 {
                            State::InSelect
                        } else {
                            State::InTemplateInSelect(depth - 1)
                        };
                    }
                },
                _ => {},
            }
        }
    }
}

} // verus!
