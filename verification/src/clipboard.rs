//! The process clipboard.
use vstd::prelude::*;

verus! {

/// The clipboard format of plain text.
pub const CF_TEXT: u32 = 1;

/// The process clipboard (text only).
///
/// The clipboard is process-global but mutable (`WM_COPY` / `WM_CUT` write it,
/// `WM_CLEAR` empties it), so it lives in a shared state slot.
#[derive(Debug, Clone)]
pub struct ClipboardState {
    text: Option<String>,
}

impl View for ClipboardState {
    type V = Option<Seq<char>>;

    /// The characters on the clipboard, when it holds text.
    closed spec fn view(&self) -> Option<Seq<char>> {
        match self.text {
            Some(text) => Some(text@),
            None => None,
        }
    }
}

impl Default for ClipboardState {
    fn default() -> (state: Self)
        ensures
            state@ == None::<Seq<char>>,
    {
        ClipboardState { text: None }
    }
}

impl ClipboardState {
    /// The empty clipboard.
    pub open spec fn is_initial(&self) -> bool {
        self@ is None
    }

    /// The clipboard text, when the clipboard holds any.
    pub fn text(&self) -> (text: Option<&str>)
        ensures
            match text {
                Some(s) => self@ == Some(s@),
                None => self@ == None::<Seq<char>>,
            },
    {
        match &self.text {
            Some(text) => Some(text.as_str()),
            None => None,
        }
    }

    /// Whether the clipboard holds text.
    pub fn has_text(&self) -> (has: bool)
        ensures
            has == self@ is Some,
    {
        self.text.is_some()
    }

    /// Store text on the clipboard (`WM_CUT` / `WM_COPY`).
    pub fn set_text(&mut self, text: String)
        ensures
            final(self)@ == Some(text@),
    {
        self.text = Some(text);
    }

    /// Empty the clipboard (`WM_CLEAR`).
    pub fn clear(&mut self)
        ensures
            final(self)@ == None::<Seq<char>>,
    {
        self.text = None;
    }

    /// `IsClipboardFormatAvailable`: only text can be on the clipboard.
    pub fn is_format_available(&self, format: u32) -> (available: bool)
        ensures
            available == (format == CF_TEXT && self@ is Some),
    {
        format == CF_TEXT && self.has_text()
    }
}

} // verus!
