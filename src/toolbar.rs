//! The consumer's state: what the popup toolbar shows, as it follows the
//! events drained from the channel and the buttons pressed on it.
use crate::actions::{translate, translation_of};
use crate::event::{AppEvent, EventView};
use crate::text::trimmed;
use vstd::prelude::*;

verus! {

/// The popup toolbar: whether it is shown, where, for which text, and the
/// translation shown under it, if any.
pub struct Toolbar {
    pub visible: bool,
    pub position: (i32, i32),
    pub selected_text: String,
    pub translation: Option<String>,
}

/// The toolbar with its strings seen as character sequences.
pub struct ToolbarView {
    pub visible: bool,
    pub position: (i32, i32),
    pub selected_text: Seq<char>,
    pub translation: Option<Seq<char>>,
}

impl View for Toolbar {
    type V = ToolbarView;

    open spec fn view(&self) -> ToolbarView {
        ToolbarView {
            visible: self.visible,
            position: self.position,
            selected_text: self.selected_text@,
            translation: match self.translation {
                Some(t) => Some(t@),
                None => None,
            },
        }
    }
}

/// The toolbar after an event: a detection shows it at the event's position
/// for the new text with no translation; a clear hides it and drops the
/// translation; a translation is shown as it arrives.
pub open spec fn after_event(t: ToolbarView, e: EventView) -> ToolbarView {
    match e {
        EventView::Detected { text, position } => ToolbarView {
            visible: true,
            position,
            selected_text: text,
            translation: None,
        },
        EventView::Cleared => ToolbarView { visible: false, translation: None, ..t },
        EventView::TranslationReady { text } => ToolbarView { translation: Some(text), ..t },
    }
}

impl Toolbar {
    /// A hidden toolbar with no text.
    pub fn new() -> (r: Toolbar)
        ensures
            r@ == (ToolbarView {
                visible: false,
                position: (0, 0),
                selected_text: Seq::empty(),
                translation: None,
            }),
    {
        Toolbar { visible: false, position: (0, 0), selected_text: String::new(), translation: None }
    }

    /// Takes one event drained from the channel.
    pub fn apply(&mut self, event: AppEvent)
        ensures
            final(self)@ == after_event(old(self)@, event@),
    {
        match event {
            AppEvent::SelectionDetected { text, position } => {
                self.selected_text = text;
                self.position = position;
                self.visible = true;
                self.translation = None;
            },
            AppEvent::SelectionCleared => {
                self.visible = false;
                self.translation = None;
            },
            AppEvent::TranslationReceived(text) => {
                self.translation = Some(text);
            },
        }
    }

    /// Hides the toolbar after one of its actions (copy, paste, search).
    pub fn dismiss(&mut self)
        ensures
            final(self)@ == (ToolbarView { visible: false, ..old(self)@ }),
    {
        self.visible = false;
    }

    /// Shows the sample translation of the selected text; the toolbar stays.
    pub fn show_sample_translation(&mut self)
        ensures
            final(self)@ == (ToolbarView {
                translation: Some(translation_of(trimmed(old(self)@.selected_text))),
                ..old(self)@
            }),
    {
        let t = translate(self.selected_text.as_str());
        self.translation = Some(t);
    }
}

} // verus!
