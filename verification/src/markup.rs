//! The code-block interception pass over a stream of markup events.
//!
//! A renderer walks the parser's events once. Everything is passed through
//! except fenced code blocks whose language is known to the highlighter: their
//! start, text runs and end are withheld, and the collected text is handed out
//! as one unit to be highlighted.

use vstd::prelude::*;

verus! {

/// What the interception pass reads of one markup event.
#[derive(Debug)]
pub enum EventTag {
    /// Start of a fenced code block, with its language tag (possibly empty).
    FenceStart(String),
    /// End of a fenced code block.
    FenceEnd,
    /// A run of text.
    Text(String),
    /// Any other event.
    Other,
}

/// An event as a mathematical value.
pub enum EventTagView {
    FenceStart(Seq<char>),
    FenceEnd,
    Text(Seq<char>),
    Other,
}

impl View for EventTag {
    type V = EventTagView;

    open spec fn view(&self) -> EventTagView {
        match self {
            EventTag::FenceStart(language) => EventTagView::FenceStart(language@),
            EventTag::FenceEnd => EventTagView::FenceEnd,
            EventTag::Text(text) => EventTagView::Text(text@),
            EventTag::Other => EventTagView::Other,
        }
    }
}

/// What the pass hands out for one event.
#[derive(Debug)]
pub enum Emission {
    /// The event is withheld.
    Nothing,
    /// The event passes through unchanged.
    Keep,
    /// A whole code block is complete: `code` is to be highlighted as `language`.
    Highlight { language: String, code: String },
}

/// An emission as a mathematical value.
pub enum EmissionView {
    Nothing,
    Keep,
    Highlight { language: Seq<char>, code: Seq<char> },
}

impl View for Emission {
    type V = EmissionView;

    open spec fn view(&self) -> EmissionView {
        match self {
            Emission::Nothing => EmissionView::Nothing,
            Emission::Keep => EmissionView::Keep,
            Emission::Highlight { language, code } => EmissionView::Highlight {
                language: language@,
                code: code@,
            },
        }
    }
}

/// The state of the pass: the language being collected for, if any, and the
/// text collected so far.
#[derive(Debug)]
pub struct Interceptor {
    active: Option<String>,
    buffer: String,
}

/// The state of the pass as a mathematical value.
pub struct InterceptorView {
    pub active: Option<Seq<char>>,
    pub buffer: Seq<char>,
}

impl View for Interceptor {
    type V = InterceptorView;

    closed spec fn view(&self) -> InterceptorView {
        InterceptorView {
            active: match self.active {
                Some(language) => Some(language@),
                None => None,
            },
            buffer: self.buffer@,
        }
    }
}

/// The state before any event: nothing is being collected.
pub open spec fn initial_state() -> InterceptorView {
    InterceptorView { active: None, buffer: Seq::empty() }
}

/// The language collected for after a fence start. A non-empty tag decides
/// anew, by whether the highlighter knows it; an empty tag changes nothing.
pub open spec fn active_after_start(
    state: InterceptorView,
    language: Seq<char>,
    known: bool,
) -> Option<Seq<char>> {
    if language.len() > 0 {
        if known {
            Some(language)
        } else {
            None
        }
    } else {
        state.active
    }
}

/// The state after one event. `known` says whether the highlighter knows the
/// language of a fence start; it is not consulted for other events.
pub open spec fn next_state(state: InterceptorView, tag: EventTagView, known: bool) -> InterceptorView {
    match tag {
        EventTagView::FenceStart(language) => InterceptorView {
            active: active_after_start(state, language, known),
            buffer: state.buffer,
        },
        EventTagView::FenceEnd => if state.active is Some {
            initial_state()
        } else {
            state
        },
        EventTagView::Text(text) => if state.active is Some {
            InterceptorView { active: state.active, buffer: state.buffer + text }
        } else {
            state
        },
        EventTagView::Other => state,
    }
}

/// What is handed out for one event.
pub open spec fn emitted(state: InterceptorView, tag: EventTagView, known: bool) -> EmissionView {
    match tag {
        EventTagView::FenceStart(language) => if active_after_start(state, language, known) is Some {
            EmissionView::Nothing
        } else {
            EmissionView::Keep
        },
        EventTagView::FenceEnd => match state.active {
            Some(language) => EmissionView::Highlight { language, code: state.buffer },
            None => EmissionView::Keep,
        },
        EventTagView::Text(_) => if state.active is Some {
            EmissionView::Nothing
        } else {
            EmissionView::Keep
        },
        EventTagView::Other => EmissionView::Keep,
    }
}

impl Interceptor {
    /// A pass that has seen no event yet.
    pub fn new() -> (pass: Interceptor)
        ensures
            pass@ == initial_state(),
    {
        Interceptor { active: None, buffer: String::new() }
    }

    /// Whether a code block is being collected.
    pub fn is_collecting(&self) -> (collecting: bool)
        ensures
            collecting == (self@.active is Some),
    {
        self.active.is_some()
    }

    /// Feeds one event to the pass and says what to do with it.
    pub fn step(&mut self, tag: &EventTag, known: bool) -> (emission: Emission)
        ensures
            final(self)@ == next_state(old(self)@, tag@, known),
            emission@ == emitted(old(self)@, tag@, known),
    {
        match tag {
            EventTag::FenceStart(language) => {
                if !language.as_str().is_empty() {
                    if known {
                        self.active = Some(language.clone());
                    } else {
                        self.active = None;
                    }
                }
                if self.active.is_some() {
                    Emission::Nothing
                } else {
                    Emission::Keep
                }
            },
            EventTag::FenceEnd => {
                match self.active.take() {
                    Some(language) => {
                        let mut code = String::new();
                        std::mem::swap(&mut self.buffer, &mut code);
                        Emission::Highlight { language, code }
                    },
                    None => Emission::Keep,
                }
            },
            EventTag::Text(text) => {
                if self.active.is_some() {
                    self.buffer.append(text.as_str());
                    Emission::Nothing
                } else {
                    Emission::Keep
                }
            },
            EventTag::Other => Emission::Keep,
        }
    }
}

} // verus!
