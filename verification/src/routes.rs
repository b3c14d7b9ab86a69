//! Navigation routes of the application shell.

use vstd::prelude::*;

verus! {

/// The screens the application can show.
#[derive(Clone, Debug, PartialEq, Eq)]
pub enum Route {
    Home,
    Menu,
    Settings,
}

impl Route {
    /// The URL path the route is reachable under.
    pub open spec fn path_spec(&self) -> Seq<char> {
        match self {
            Route::Home => "/"@,
            Route::Menu => "/menu"@,
            Route::Settings => "/settings"@,
        }
    }

    pub fn path(&self) -> (path: &'static str)
        ensures
            path@ == self.path_spec(),
    {
        match self {
            Route::Home => "/",
            Route::Menu => "/menu",
            Route::Settings => "/settings",
        }
    }
}

} // verus!
