//! The conversation between a handle and whoever does its outside work.
//!
//! A load is a short exchange. The handle asks for one step of outside work,
//! the driver performs it and reports how it ended, and the handle answers
//! with the next step, until the load is done or has failed.

use vstd::prelude::*;

verus! {

/// What the driver reports to the handle.
#[derive(Debug)]
pub enum Event<T> {
    /// A load is to begin.
    Begin,
    /// The request could not be sent, or its answer could not be read in
    /// full. The string is the transport's message.
    Failed(String),
    /// The service answered with this status code and this body.
    Responded { status: u16, body: String },
    /// The document decoded to this value.
    Decoded(T),
    /// The document is not valid JSON, or not of the expected shape. The
    /// string is the decoder's message.
    Undecodable(String),
}

/// What the handle asks of the driver next.
#[derive(Debug)]
pub enum Step {
    /// Send one GET request to this address and report the answer.
    Fetch(String),
    /// Decode this JSON text into the configuration type and report the
    /// result.
    Decode(String),
    /// Nothing: the load is complete and the new value is in place.
    Done,
}

/// An event, with its strings as sequences of characters.
pub ghost enum EventView<T> {
    Begin,
    Failed(Seq<char>),
    Responded { status: u16, body: Seq<char> },
    Decoded(T),
    Undecodable(Seq<char>),
}

/// A step, with its strings as sequences of characters.
pub ghost enum StepView {
    Fetch(Seq<char>),
    Decode(Seq<char>),
    Done,
}

impl<T> View for Event<T> {
    type V = EventView<T>;

    open spec fn view(&self) -> EventView<T> {
        match self {
            Event::Begin => EventView::Begin,
            Event::Failed(detail) => EventView::Failed(detail@),
            Event::Responded { status, body } => EventView::Responded {
                status: *status,
                body: body@,
            },
            Event::Decoded(value) => EventView::Decoded(*value),
            Event::Undecodable(detail) => EventView::Undecodable(detail@),
        }
    }
}

impl View for Step {
    type V = StepView;

    open spec fn view(&self) -> StepView {
        match self {
            Step::Fetch(url) => StepView::Fetch(url@),
            Step::Decode(text) => StepView::Decode(text@),
            Step::Done => StepView::Done,
        }
    }
}

} // verus!
