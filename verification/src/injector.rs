//! Text injection: which path a text takes into the focused field, and the
//! injection errors. Simulating the keys or the clipboard paste is left to
//! the caller.

use vstd::prelude::*;

verus! {

/// Errors that can occur during text injection.
#[derive(Debug)]
pub enum InjectionError {
    /// Failed to initialize the input simulator (on macOS typically a missing
    /// Accessibility permission).
    InitError(String),
    /// Failed to simulate keyboard input.
    InputError(String),
    /// Failed to access or write to the system clipboard.
    ClipboardError(String),
}

/// The user-facing message of an injection error.
pub open spec fn injection_error_message(e: InjectionError) -> Seq<char> {
    match e {
        InjectionError::InitError(m) => "Failed to initialize input simulator: "@ + m@,
        InjectionError::InputError(m) => "Failed to inject text: "@ + m@,
        InjectionError::ClipboardError(m) => "Clipboard error: "@ + m@,
    }
}

impl InjectionError {
    /// The user-facing message of the error.
    pub fn message(&self) -> (r: String)
        ensures
            r@ == injection_error_message(*self),
    {
        match self {
            InjectionError::InitError(m) => String::from_str(
                "Failed to initialize input simulator: ",
            ).concat(m.as_str()),
            InjectionError::InputError(m) => String::from_str("Failed to inject text: ").concat(
                m.as_str(),
            ),
            InjectionError::ClipboardError(m) => String::from_str("Clipboard error: ").concat(
                m.as_str(),
            ),
        }
    }
}

/// How a text reaches the focused input field.
#[derive(Clone, Copy, Debug, PartialEq, Eq, Structural)]
pub enum InjectRoute {
    /// Nothing to inject (empty text): succeed without touching anything.
    Nothing,
    /// Write the text to the clipboard, then simulate the paste shortcut.
    Clipboard,
    /// Simulate typing the text.
    Keys,
}

/// The route of direct injection: nothing for an empty text, typing
/// otherwise.
pub fn inject_route(text: &str) -> (r: InjectRoute)
    ensures
        r == (if text@.len() == 0 { InjectRoute::Nothing } else { InjectRoute::Keys }),
{
    if text.is_empty() {
        InjectRoute::Nothing
    } else {
        InjectRoute::Keys
    }
}

/// The route of smart injection: nothing for an empty text, the clipboard
/// paste for apps that need it, typing otherwise.
pub fn inject_smart_route(text: &str, use_clipboard: bool) -> (r: InjectRoute)
    ensures
        r == (if text@.len() == 0 {
            InjectRoute::Nothing
        } else if use_clipboard {
            InjectRoute::Clipboard
        } else {
            InjectRoute::Keys
        }),
{
    if text.is_empty() {
        InjectRoute::Nothing
    } else if use_clipboard {
        InjectRoute::Clipboard
    } else {
        InjectRoute::Keys
    }
}

} // verus!
