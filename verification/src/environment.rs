//! The handle of a ready environment.

use crate::phase::{PhaseEvent, PhaseEventView};
use vstd::prelude::*;

verus! {

/// Address and credential of an environment that has become ready.
///
/// The only way to one leads through a `Ready` event, so whoever holds a
/// handle holds what the build service announced.
#[derive(Debug, PartialEq, Eq)]
pub struct EnvironmentHandle {
    base_url: String,
    auth_token: String,
}

/// The mathematical value of an [`EnvironmentHandle`].
pub struct EnvironmentView {
    pub base_url: Seq<char>,
    pub auth_token: Seq<char>,
}

impl View for EnvironmentHandle {
    type V = EnvironmentView;

    closed spec fn view(&self) -> EnvironmentView {
        EnvironmentView { base_url: self.base_url@, auth_token: self.auth_token@ }
    }
}

/// The environment that an event announces, if it announces one.
pub open spec fn announced(event: PhaseEventView) -> Option<EnvironmentView> {
    match event {
        PhaseEventView::Ready { url, token } => Some(
            EnvironmentView { base_url: url, auth_token: token },
        ),
        _ => None,
    }
}

impl Clone for EnvironmentHandle {
    fn clone(&self) -> (copy: Self)
        ensures
            copy@ == self@,
    {
        EnvironmentHandle {
            base_url: self.base_url.clone(),
            auth_token: self.auth_token.clone(),
        }
    }
}

impl EnvironmentHandle {
    /// The handle of the environment that a `Ready` event announces; no
    /// other event gives one.
    pub fn from_event(event: PhaseEvent) -> (handle: Option<EnvironmentHandle>)
        ensures
            handle is Some == announced(event@) is Some,
            handle is Some ==> Some(handle->Some_0@) == announced(event@),
    {
        match event {
            PhaseEvent::Ready { url, token } => Some(
                EnvironmentHandle { base_url: url, auth_token: token },
            ),
            _ => None,
        }
    }

    /// The address under which the environment serves its interface.
    pub fn base_url(&self) -> (url: &str)
        ensures
            url@ == self@.base_url,
    {
        self.base_url.as_str()
    }

    /// The credential that the environment asks of every request.
    pub fn auth_token(&self) -> (token: &str)
        ensures
            token@ == self@.auth_token,
    {
        self.auth_token.as_str()
    }
}

} // verus!
