//! The button that switches a request on and off.

use vstd::prelude::*;

verus! {

/// A button for one request.
#[derive(Debug)]
pub struct ToggleButton {
    pub name: String,
    pub url: String,
    pub method: String,
}

/// Whether a toggle button is on.
#[derive(Clone, Copy, Debug, PartialEq, Eq, Structural)]
pub struct ToggleButtonState {
    pub is_on: bool,
}

/// What a toggle button tells the client.
#[derive(Clone, Copy, Debug, PartialEq, Eq, Structural)]
pub enum ToggleMessage {
    Toggled,
}

impl Default for ToggleButtonState {
    fn default() -> (r: Self)
        ensures
            !r.is_on,
    {
        ToggleButtonState { is_on: false }
    }
}

impl ToggleButton {
    /// A button for the request with the given name, URL and method.
    pub fn new(name: &str, url: &str, method: &str) -> (r: Self)
        ensures
            r.name@ == name@,
            r.url@ == url@,
            r.method@ == method@,
    {
        ToggleButton {
            name: String::from_str(name),
            url: String::from_str(url),
            method: String::from_str(method),
        }
    }
}

} // verus!
