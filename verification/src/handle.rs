//! The configuration handle: three fixed names and one cached value.

use std::sync::Arc;
use vstd::prelude::*;

use crate::endpoint::{endpoint, endpoint_of, is_success, success};
use crate::error::SCCError;
use crate::protocol::{Event, EventView, Step, StepView};

verus! {

/// A handle on one configuration document of a Spring Cloud Config service.
///
/// The handle keeps the service root, the label and the application name it
/// was made with, and the value of the last load that succeeded; before the
/// first such load it keeps the default value of `T`. The cached value is
/// replaced as a whole or not at all.
pub struct SCC<T> {
    scc_service: String,
    label: String,
    application: String,
    configuration: Arc<T>,
}

/// What a handle is, to its contracts.
pub ghost struct SCCView<T> {
    /// The service root.
    pub service: Seq<char>,
    /// The label.
    pub label: Seq<char>,
    /// The application name.
    pub application: Seq<char>,
    /// The cached value.
    pub configuration: T,
}

impl<T> View for SCC<T> {
    type V = SCCView<T>;

    closed spec fn view(&self) -> SCCView<T> {
        SCCView {
            service: self.scc_service@,
            label: self.label@,
            application: self.application@,
            configuration: *self.configuration,
        }
    }
}

impl<T> SCCView<T> {
    /// The address that the handle's loads fetch.
    pub open spec fn endpoint(self) -> Seq<char> {
        endpoint_of(self.service, self.application, self.label)
    }

    /// The handle's answer to an event: the next step, or the detail of the
    /// error that ends the load.
    ///
    /// A load begins by fetching the handle's address. A transport failure
    /// ends it with the transport's message. An answer with a status outside
    /// 200 to 299 ends it with the answer's body as the detail; any other
    /// answer has its body decoded. A decoding failure ends the load with the
    /// decoder's message, and a decoded value completes it.
    pub open spec fn answer(self, event: EventView<T>) -> Result<StepView, Seq<char>> {
        match event {
            EventView::Begin => Ok(StepView::Fetch(self.endpoint())),
            EventView::Failed(detail) => Err(detail),
            EventView::Responded { status, body } => if success(status) {
                Ok(StepView::Decode(body))
            } else {
                Err(body)
            },
            EventView::Decoded(_) => Ok(StepView::Done),
            EventView::Undecodable(detail) => Err(detail),
        }
    }

    /// The handle after an event: a decoded value takes the place of the
    /// cached one, and nothing else changes anything.
    pub open spec fn after(self, event: EventView<T>) -> SCCView<T> {
        match event {
            EventView::Decoded(value) => SCCView { configuration: value, ..self },
            _ => self,
        }
    }
}

/// Whether `result` is what the contract `expected` asks for.
pub open spec fn answers(result: Result<Step, SCCError>, expected: Result<StepView, Seq<char>>) -> bool {
    match (result, expected) {
        (Ok(step), Ok(view)) => step@ == view,
        (Err(error), Err(detail)) => error.detail() == detail,
        _ => false,
    }
}

impl<T> SCC<T> {
    /// Makes a handle for the document of `app` under `label` at the service
    /// root `scc_service`. The cached value is a default value of `T`.
    /// Nothing is fetched, and the three names are not checked.
    pub fn new(scc_service: &str, label: &str, app: &str) -> (handle: SCC<T>) where T: Default
        ensures
            handle@.service == scc_service@,
            handle@.label == label@,
            handle@.application == app@,
            T::default.ensures((), handle@.configuration),
    {
        SCC {
            scc_service: scc_service.to_owned(),
            label: label.to_owned(),
            application: app.to_owned(),
            configuration: Arc::new(T::default()),
        }
    }

    /// Takes a load one step further.
    ///
    /// The driver of a load calls this first with `Event::Begin`, performs
    /// the step that comes back, and calls again with the event that tells
    /// how the step ended, until the answer is `Step::Done` or an error.
    /// Only `Event::Decoded` changes the handle, and it replaces the cached
    /// value in one move; a load that fails at any step leaves the cached
    /// value as it was.
    pub fn load(&mut self, event: Event<T>) -> (result: Result<Step, SCCError>)
        ensures
            answers(result, old(self)@.answer(event@)),
            final(self)@ == old(self)@.after(event@),
    {
        match event {
            Event::Begin => Ok(
                Step::Fetch(
                    endpoint(
                        self.scc_service.as_str(),
                        self.application.as_str(),
                        self.label.as_str(),
                    ),
                ),
            ),
            Event::Failed(detail) => Err(SCCError::SpringCloudConfigServiceError(detail)),
            Event::Responded { status, body } => {
                if is_success(status) {
                    Ok(Step::Decode(body))
                } else {
                    Err(SCCError::SpringCloudConfigServiceError(body))
                }
            },
            Event::Decoded(value) => {
                self.configuration = Arc::new(value);
                Ok(Step::Done)
            },
            Event::Undecodable(detail) => Err(SCCError::SpringCloudConfigServiceError(detail)),
        }
    }

    /// A snapshot of the cached value.
    ///
    /// The snapshot shares the value with the handle and stays as it is
    /// whatever is loaded afterwards.
    pub fn get_configuration(&self) -> (snapshot: Arc<T>)
        ensures
            *snapshot == self@.configuration,
    {
        self.configuration.clone()
    }

    /// Applies `f` to the cached value and returns what it gives.
    ///
    /// `f` sees one whole value: the default before the first load that
    /// succeeded, the value of the last such load after it.
    pub fn get<F, A>(&self, f: F) -> (part: A) where F: FnOnce(&T) -> A
        requires
            f.requires((&self@.configuration,)),
        ensures
            f.ensures((&self@.configuration,), part),
    {
        let snapshot = self.get_configuration();
        f(&*snapshot)
    }
}

} // verus!
