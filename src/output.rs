use crate::config::OutputMode;
use crate::error::LocaltypeError;
use vstd::prelude::*;

verus! {

/// A destination for the final text.
pub trait OutputSink {
    fn output_text(&self, text: &str) -> Result<(), LocaltypeError>;
}

/// Delivery through the system clipboard.
#[derive(Debug, Clone, Copy, PartialEq, Eq, Structural)]
pub struct ClipboardOutput;

/// Delivery by simulated typing.
#[derive(Debug, Clone, Copy, PartialEq, Eq, Structural)]
pub struct KeyboardOutput;

impl KeyboardOutput {
    pub fn new() -> (r: Result<Self, LocaltypeError>)
        ensures
            r is Ok,
    {
        Ok(KeyboardOutput)
    }
}

impl Default for KeyboardOutput {
    fn default() -> (r: Self) {
        KeyboardOutput
    }
}

/// Routes the final text to the clipboard, the keyboard, or both.
pub struct CombinedOutput {
    mode: OutputMode,
    clipboard: Option<ClipboardOutput>,
    keyboard: Option<KeyboardOutput>,
}

pub open spec fn uses_clipboard(m: OutputMode) -> bool {
    m == OutputMode::Clipboard || m == OutputMode::Both
}

pub open spec fn uses_keyboard(m: OutputMode) -> bool {
    m == OutputMode::Keyboard || m == OutputMode::Both
}

impl CombinedOutput {
    pub closed spec fn mode_spec(&self) -> OutputMode {
        self.mode
    }

    pub closed spec fn has_clipboard(&self) -> bool {
        self.clipboard is Some
    }

    pub closed spec fn has_keyboard(&self) -> bool {
        self.keyboard is Some
    }

    /// A router for `mode`, holding exactly the sinks that the mode names.
    pub fn new(mode: OutputMode) -> (r: Result<Self, LocaltypeError>)
        ensures
            r matches Ok(c) && c.mode_spec() == mode && c.has_clipboard() == uses_clipboard(mode)
                && c.has_keyboard() == uses_keyboard(mode),
    {
        let clipboard = match mode {
            OutputMode::Clipboard | OutputMode::Both => Some(ClipboardOutput),
            OutputMode::Keyboard => None,
        };
        let keyboard = match mode {
            OutputMode::Keyboard | OutputMode::Both => match KeyboardOutput::new() {
                Ok(k) => Some(k),
                Err(e) => {
                    return Err(e);
                },
            },
            OutputMode::Clipboard => None,
        };
        Ok(CombinedOutput { mode, clipboard, keyboard })
    }

    pub fn mode(&self) -> (r: OutputMode)
        ensures
            r == self.mode_spec(),
    {
        self.mode
    }

    pub fn has_clipboard_sink(&self) -> (r: bool)
        ensures
            r == self.has_clipboard(),
    {
        self.clipboard.is_some()
    }

    pub fn has_keyboard_sink(&self) -> (r: bool)
        ensures
            r == self.has_keyboard(),
    {
        self.keyboard.is_some()
    }
}

} // verus!
