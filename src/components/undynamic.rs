//! A component showing fixed text from the configuration.

use vstd::prelude::*;

use crate::components::{ComponentID, ComponentView, Kind};
use crate::config::ComponentSettings;

verus! {

/// Static text component; it never reports a change.
pub struct Undynamic {
    pub id: ComponentID,
    pub settings: ComponentSettings,
    pub text: String,
}

impl View for Undynamic {
    type V = ComponentView;

    open spec fn view(&self) -> ComponentView {
        ComponentView {
            id: self.id,
            settings: self.settings@,
            kind: Kind::Undynamic { text: self.text@ },
        }
    }
}

impl Undynamic {
    pub fn create(settings: ComponentSettings, text: String, id: ComponentID) -> (u: Undynamic)
        ensures
            u@ == (ComponentView { id, settings: settings@, kind: Kind::Undynamic { text: text@ } }),
    {
        Undynamic { id, settings, text }
    }

    pub fn id(&self) -> (id: ComponentID)
        ensures
            id == self@.id,
    {
        self.id
    }

    pub fn settings(&self) -> (s: &ComponentSettings)
        ensures
            s@ == self@.settings,
    {
        &self.settings
    }

    /// The stored text, verbatim.
    pub fn text(&self) -> (s: String)
        ensures
            self@.kind == (Kind::Undynamic { text: s@ }),
    {
        self.text.clone()
    }
}

} // verus!
