//! The events that reach the consumer through the notification channel.
use vstd::prelude::*;

verus! {

/// A domain event delivered to the consumer.
#[derive(Debug)]
pub enum AppEvent {
    /// Text was selected; `position` is where the selecting button was released.
    SelectionDetected { text: String, position: (i32, i32) },
    /// A new press began: any shown selection is void.
    SelectionCleared,
    /// A translation that was asked for has arrived.
    TranslationReceived(String),
}

/// An event with its strings seen as character sequences.
pub enum EventView {
    Detected { text: Seq<char>, position: (i32, i32) },
    Cleared,
    TranslationReady { text: Seq<char> },
}

impl View for AppEvent {
    type V = EventView;

    open spec fn view(&self) -> EventView {
        match self {
            AppEvent::SelectionDetected { text, position } => EventView::Detected {
                text: text@,
                position: *position,
            },
            AppEvent::SelectionCleared => EventView::Cleared,
            AppEvent::TranslationReceived(text) => EventView::TranslationReady { text: text@ },
        }
    }
}

/// An optional string seen as an optional character sequence.
pub open spec fn text_view(s: Option<String>) -> Option<Seq<char>> {
    match s {
        Some(t) => Some(t@),
        None => None,
    }
}

/// An optional event seen through its view.
pub open spec fn event_view(e: Option<AppEvent>) -> Option<EventView> {
    match e {
        Some(ev) => Some(ev@),
        None => None,
    }
}

} // verus!
