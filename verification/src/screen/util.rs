//! Loading states of screens.
use vstd::prelude::*;

use std::any::TypeId;

use crate::registry::{extends, App, Registration, ScreenKind};

verus! {

/// A type's identity, which tells the screens of the screen manager apart.
/// Its values are only carried through.
#[verifier::external_type_specification]
#[verifier::external_body]
pub struct ExTypeId(TypeId);

/// Where a screen, named by the identity of its type, is in its loading.
pub enum ScreenLoadingState {
    Loading(TypeId),
    Ready(TypeId),
    Unloaded(TypeId),
}

impl ScreenLoadingState {
    pub fn ready(screen: TypeId) -> (r: Self)
        ensures
            r == ScreenLoadingState::Ready(screen),
    {
        ScreenLoadingState::Ready(screen)
    }

    pub fn loading(screen: TypeId) -> (r: Self)
        ensures
            r == ScreenLoadingState::Loading(screen),
    {
        ScreenLoadingState::Loading(screen)
    }

    pub fn unloaded(screen: TypeId) -> (r: Self)
        ensures
            r == ScreenLoadingState::Unloaded(screen),
    {
        ScreenLoadingState::Unloaded(screen)
    }
}

/// Tracks the loading state of a screen: entering `Ready` finishes the
/// screen's loading, and its load and unload both set `Unloaded`.
pub trait ScreenLoadingExt {
    fn register_screen_loading_state(&mut self, screen: ScreenKind);
}

impl ScreenLoadingExt for App {
    fn register_screen_loading_state(&mut self, screen: ScreenKind)
        ensures
            extends(*old(self), *final(self), seq![Registration::ScreenLoadingState(screen)]),
    {
        self.add(Registration::ScreenLoadingState(screen));
    }
}

} // verus!
