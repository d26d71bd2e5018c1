//! The text extractor's decisions: the ordered fallback from the
//! accessibility tier to the clipboard tier, and the filter that turns what
//! was found into a `SelectionDetected` event or into silence.
use crate::event::{event_view, text_view, AppEvent, EventView};
use crate::notify::{notify, Notifier};
use crate::text::{has_content, has_text};
use vstd::prelude::*;

verus! {

/// Delay after a completed gesture before extraction starts, so that the
/// target application finishes updating its selection (milliseconds).
pub const SELECTION_SETTLE_MS: u64 = 50;

/// Delay between injecting the copy keys and reading the clipboard, so
/// that the target application fills it (milliseconds).
pub const CLIPBOARD_SETTLE_MS: u64 = 100;

/// An extraction strategy, in the order they are tried.
#[derive(Clone, Copy, Debug, PartialEq, Eq, Structural)]
pub enum Tier {
    /// Ask the focused element, through the accessibility service, for the
    /// text of its selection. Leaves no trace.
    Accessibility,
    /// Inject the copy keys, wait `CLIPBOARD_SETTLE_MS`, read the clipboard.
    /// Overwrites the clipboard.
    Clipboard,
}

/// What the extraction does next.
pub enum ExtractStep {
    /// Run this tier and hand its result to `get_selected_text`.
    Query(Tier),
    /// The extraction is over, with this result.
    Finished(Option<String>),
}

/// An extraction step with its text seen as a character sequence.
pub enum StepView {
    Query(Tier),
    Finished(Option<Seq<char>>),
}

impl View for ExtractStep {
    type V = StepView;

    open spec fn view(&self) -> StepView {
        match self {
            ExtractStep::Query(t) => StepView::Query(*t),
            ExtractStep::Finished(r) => StepView::Finished(text_view(*r)),
        }
    }
}

/// Whether a tier's result is a selection: present, and not only white space.
pub open spec fn is_found(found: Option<Seq<char>>) -> bool {
    found matches Some(t) && has_content(t)
}

/// The step after `tier` returned `found`: a tier that found a selection
/// ends the extraction with it; otherwise the next tier is tried, and the
/// last tier's result, whatever it is, ends the extraction.
pub open spec fn next_step(tier: Tier, found: Option<Seq<char>>) -> StepView {
    match tier {
        Tier::Accessibility => if is_found(found) {
            StepView::Finished(found)
        } else {
            StepView::Query(Tier::Clipboard)
        },
        Tier::Clipboard => StepView::Finished(found),
    }
}

/// The event reported for an extraction result at a release point: a
/// detection when the result is a selection, nothing otherwise.
pub open spec fn detection(found: Option<Seq<char>>, x: i32, y: i32) -> Option<EventView> {
    if is_found(found) {
        Some(EventView::Detected { text: found->0, position: (x, y) })
    } else {
        None
    }
}

impl ExtractStep {
    /// The first step of every extraction: the accessibility tier.
    pub fn start() -> (r: ExtractStep)
        ensures
            r@ == StepView::Query(Tier::Accessibility),
    {
        ExtractStep::Query(Tier::Accessibility)
    }
}

/// Whether an optional text holds a selection.
fn found_text(found: &Option<String>) -> (r: bool)
    ensures
        r == is_found(text_view(*found)),
{
    match found {
        Some(t) => has_text(t.as_str()),
        None => false,
    }
}

/// Decides the next step of the two-tier extraction once `tier` has
/// returned `found`. Runs of the tiers belong to the caller, which starts
/// from `ExtractStep::start()` and feeds each tier's result back here until
/// the step is `Finished`.
pub fn get_selected_text(tier: Tier, found: Option<String>) -> (r: ExtractStep)
    ensures
        r@ == next_step(tier, text_view(found)),
{
    match tier {
        Tier::Accessibility => if found_text(&found) {
            ExtractStep::Finished(found)
        } else {
            ExtractStep::Query(Tier::Clipboard)
        },
        Tier::Clipboard => ExtractStep::Finished(found),
    }
}

/// The event to report for an extraction result at (`x`, `y`): a
/// `SelectionDetected` carrying the text as found (untrimmed) when it holds
/// more than white space, none otherwise.
pub fn selection_event(found: Option<String>, x: i32, y: i32) -> (r: Option<AppEvent>)
    ensures
        event_view(r) == detection(text_view(found), x, y),
{
    if found_text(&found) {
        match found {
            Some(text) => Some(AppEvent::SelectionDetected { text, position: (x, y) }),
            None => None,
        }
    } else {
        None
    }
}

/// What reporting an extraction result at (`x`, `y`) hands to the channel.
pub open spec fn reported(found: Option<Seq<char>>, x: i32, y: i32) -> Seq<EventView> {
    match detection(found, x, y) {
        Some(e) => seq![e],
        None => Seq::empty(),
    }
}

/// Reports an extraction result at (`x`, `y`) on the channel: a selection
/// is handed over as `SelectionDetected`, anything else is dropped silently.
/// Returns whether an event was handed over and accepted.
pub fn report_selection(n: &mut Notifier, found: Option<String>, x: i32, y: i32) -> (sent: bool)
    ensures
        final(n).sender == old(n).sender,
        final(n).sent@ == old(n).sent@ + reported(text_view(found), x, y),
        sent ==> is_found(text_view(found)),
{
    let ghost before = n.sent@;
    match selection_event(found, x, y) {
        Some(event) => {
            let ghost ev = event@;
            let accepted = notify(n, event);
            assert(n.sent@ =~= before + seq![ev]);
            accepted
        },
        None => {
            assert(n.sent@ =~= before + Seq::<EventView>::empty());
            false
        },
    }
}

/// When the accessibility tier finds a selection, the extraction ends with
/// it: the clipboard tier is never run, and reporting the result hands
/// exactly that selection to the channel as `SelectionDetected`.
pub proof fn lemma_accessible_selection_skips_clipboard(found: Option<Seq<char>>, x: i32, y: i32)
    requires
        is_found(found),
    ensures
        next_step(Tier::Accessibility, found) == StepView::Finished(found),
        next_step(Tier::Accessibility, found) != StepView::Query(Tier::Clipboard),
        reported(found, x, y) == seq![EventView::Detected { text: found->0, position: (x, y) }],
{
}

/// When neither tier finds a selection, the clipboard tier is tried, its
/// result ends the extraction, and reporting it hands nothing to the channel.
pub proof fn lemma_nothing_found_nothing_reported(
    first: Option<Seq<char>>,
    second: Option<Seq<char>>,
    x: i32,
    y: i32,
)
    requires
        !is_found(first),
        !is_found(second),
    ensures
        next_step(Tier::Accessibility, first) == StepView::Query(Tier::Clipboard),
        next_step(Tier::Clipboard, second) == StepView::Finished(second),
        reported(second, x, y) == Seq::<EventView>::empty(),
{
}

} // verus!
