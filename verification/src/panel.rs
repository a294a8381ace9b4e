//! The search panel: how its upload progresses from page message to results, what it tells the
//! user on the way, and where its window, caption and controls go.

use crate::search::PageEvent;
use vstd::prelude::*;

verus! {

/// How far the panel has got with one search.
#[derive(Clone, Copy, Debug, PartialEq, Eq, Structural)]
pub struct PanelState {
    /// The image has been handed to the Lens upload form.
    pub submitted: bool,
    /// The results page was asked to switch to the image results tab.
    pub image_tab_requested: bool,
    /// The results are shown full size.
    pub showing_results: bool,
    /// The web page is visible (with a notice above it, unless results are shown).
    pub showing_web: bool,
}

/// A search that has just started.
pub fn fresh_state() -> (s: PanelState)
    ensures
        s == (PanelState {
            submitted: false,
            image_tab_requested: false,
            showing_results: false,
            showing_web: false,
        }),
{
    PanelState {
        submitted: false,
        image_tab_requested: false,
        showing_results: false,
        showing_web: false,
    }
}

/// What happens to the panel.
#[derive(Clone, Copy, Debug, PartialEq, Eq, Structural)]
pub enum PanelEvent {
    /// A message from the search page.
    Page(PageEvent),
    /// The upload script could not be run.
    ScriptFailed,
    /// Twenty seconds passed without results.
    Timeout,
    /// The user pressed Retry.
    Retry,
}

/// The panel event a page message stands for. Each search numbers its page with a
/// `generation`; a message `from` an earlier search's page is dropped.
pub fn page_message(event: PageEvent, from: usize, generation: usize) -> (r: Option<PanelEvent>)
    ensures
        r == (if from == generation {
            Some(PanelEvent::Page(event))
        } else {
            None
        }),
{
    if from == generation {
        Some(PanelEvent::Page(event))
    } else {
        None
    }
}

/// A problem the panel reports above the page.
#[derive(Clone, Copy, Debug, PartialEq, Eq, Structural)]
pub enum Notice {
    /// The upload could not start; try again shortly.
    ConnectLater,
    /// The page reported a failed upload; it is shown below.
    ConnectFailed,
    /// No results after the time limit; the page is shown below.
    Slow,
}

/// What the panel does next.
#[derive(Clone, Copy, Debug, PartialEq, Eq, Structural)]
pub enum PanelAction {
    Nothing,
    /// Show "Searching" and run the upload script with the image.
    Upload,
    /// Show "Searching".
    Searching,
    /// Show the notice's title and detail with Retry, Redraw and Close, and the page below.
    Report(Notice),
    /// Switch to the mobile user agent and follow the page's image results link.
    OpenImageTab,
    /// Hide the notice and controls and show the results page full size.
    ShowResults,
    /// Back to the desktop user agent, hide the page and load Lens again.
    Restart,
}

/// The state after a problem is reported: the page shows.
pub open spec fn reported(s: PanelState, submitted: bool) -> PanelState {
    PanelState { submitted, showing_web: true, ..s }
}

/// The panel's next state and action on `e`; `has_view` tells whether the web view exists.
pub open spec fn step_spec(s: PanelState, e: PanelEvent, has_view: bool) -> (PanelState, PanelAction) {
    match e {
        PanelEvent::Page(PageEvent::Ready) => if s.submitted || !has_view {
            (s, PanelAction::Nothing)
        } else {
            (PanelState { submitted: true, ..s }, PanelAction::Upload)
        },
        PanelEvent::Page(PageEvent::Submitted) => (s, PanelAction::Searching),
        PanelEvent::Page(PageEvent::Failed) => (
            reported(s, false),
            PanelAction::Report(Notice::ConnectFailed),
        ),
        PanelEvent::Page(PageEvent::ResultPage) => if !s.submitted {
            (s, PanelAction::Nothing)
        } else if !s.image_tab_requested && has_view {
            (PanelState { image_tab_requested: true, ..s }, PanelAction::OpenImageTab)
        } else {
            (
                PanelState {
                    image_tab_requested: true,
                    showing_results: true,
                    showing_web: true,
                    ..s
                },
                PanelAction::ShowResults,
            )
        },
        PanelEvent::ScriptFailed => (reported(s, false), PanelAction::Report(Notice::ConnectLater)),
        PanelEvent::Timeout => (reported(s, s.submitted), PanelAction::Report(Notice::Slow)),
        PanelEvent::Retry => (
            PanelState {
                submitted: false,
                image_tab_requested: false,
                showing_results: false,
                showing_web: false,
            },
            PanelAction::Restart,
        ),
    }
}

/// The panel's reaction to `e`: the upload runs once per page load; a results page first turns
/// into the image results tab, then is shown; failures and the time limit show the page with a
/// notice; Retry starts over.
pub fn panel_step(s: PanelState, e: PanelEvent, has_view: bool) -> (r: (PanelState, PanelAction))
    ensures
        r == step_spec(s, e, has_view),
{
    match e {
        PanelEvent::Page(PageEvent::Ready) => if s.submitted || !has_view {
            (s, PanelAction::Nothing)
        } else {
            (PanelState { submitted: true, ..s }, PanelAction::Upload)
        },
        PanelEvent::Page(PageEvent::Submitted) => (s, PanelAction::Searching),
        PanelEvent::Page(PageEvent::Failed) => (
            PanelState { submitted: false, showing_web: true, ..s },
            PanelAction::Report(Notice::ConnectFailed),
        ),
        PanelEvent::Page(PageEvent::ResultPage) => if !s.submitted {
            (s, PanelAction::Nothing)
        } else if !s.image_tab_requested && has_view {
            (PanelState { image_tab_requested: true, ..s }, PanelAction::OpenImageTab)
        } else {
            (
                PanelState {
                    image_tab_requested: true,
                    showing_results: true,
                    showing_web: true,
                    ..s
                },
                PanelAction::ShowResults,
            )
        },
        PanelEvent::ScriptFailed => (
            PanelState { submitted: false, showing_web: true, ..s },
            PanelAction::Report(Notice::ConnectLater),
        ),
        PanelEvent::Timeout => (
            PanelState { showing_web: true, ..s },
            PanelAction::Report(Notice::Slow),
        ),
        PanelEvent::Retry => (fresh_state(), PanelAction::Restart),
    }
}

/// A notice's title and detail, in Korean and English.
pub open spec fn notice_spec(n: Notice) -> (Seq<char>, Seq<char>, Seq<char>, Seq<char>) {
    match n {
        Notice::ConnectLater => (
            "연결하지 못했어요"@,
            "Couldn't connect"@,
            "잠시 후 다시 시도해 주세요"@,
            "Please try again in a moment"@,
        ),
        Notice::ConnectFailed => (
            "연결하지 못했어요"@,
            "Couldn't connect"@,
            "아래 화면을 확인하거나 다시 시도해 주세요"@,
            "Check the page below or try again"@,
        ),
        Notice::Slow => (
            "조금 오래 걸리고 있어요"@,
            "This is taking a while"@,
            "아래 화면을 확인하거나 다시 시도해 주세요"@,
            "Check the page below or try again"@,
        ),
    }
}

/// The title and detail of notice `n` in the UI language.
pub fn notice_text(english: bool, n: Notice) -> (r: (&'static str, &'static str))
    ensures
        r.0@ == (if english { notice_spec(n).1 } else { notice_spec(n).0 }),
        r.1@ == (if english { notice_spec(n).3 } else { notice_spec(n).2 }),
{
    match n {
        Notice::ConnectLater => (
            crate::i18n::t(english, "연결하지 못했어요", "Couldn't connect"),
            crate::i18n::t(english, "잠시 후 다시 시도해 주세요", "Please try again in a moment"),
        ),
        Notice::ConnectFailed => (
            crate::i18n::t(english, "연결하지 못했어요", "Couldn't connect"),
            crate::i18n::t(
                english,
                "아래 화면을 확인하거나 다시 시도해 주세요",
                "Check the page below or try again",
            ),
        ),
        Notice::Slow => (
            crate::i18n::t(english, "조금 오래 걸리고 있어요", "This is taking a while"),
            crate::i18n::t(
                english,
                "아래 화면을 확인하거나 다시 시도해 주세요",
                "Check the page below or try again",
            ),
        ),
    }
}

/// Retry always returns the panel to a fresh search, whatever state it was in.
pub proof fn law_retry_starts_over(s: PanelState, has_view: bool)
    ensures
        step_spec(s, PanelEvent::Retry, has_view) == (
            PanelState {
                submitted: false,
                image_tab_requested: false,
                showing_results: false,
                showing_web: false,
            },
            PanelAction::Restart,
        ),
{
}

/// The image is uploaded at most once per page load: once submitted, another "ready" message
/// changes nothing and uploads nothing.
pub proof fn law_upload_once(s: PanelState, has_view: bool)
    requires
        s.submitted,
    ensures
        step_spec(s, PanelEvent::Page(PageEvent::Ready), has_view) == (s, PanelAction::Nothing),
{
}

/// Results are only shown for a search whose image was submitted, and the first results page
/// is turned into the image results tab before anything is shown.
pub proof fn law_results_need_upload(s: PanelState, has_view: bool)
    ensures
        step_spec(s, PanelEvent::Page(PageEvent::ResultPage), has_view).1 == PanelAction::ShowResults
            ==> s.submitted && (s.image_tab_requested || !has_view),
        !s.submitted ==> step_spec(s, PanelEvent::Page(PageEvent::ResultPage), has_view) == (
            s,
            PanelAction::Nothing,
        ),
{
}

/// The panel switches to the mobile user agent only after the image was submitted: whatever
/// happens, the image tab is opened only from a results page of a submitted search, and only
/// once per search.
pub proof fn law_mobile_after_upload(s: PanelState, e: PanelEvent, has_view: bool)
    ensures
        step_spec(s, e, has_view).1 == PanelAction::OpenImageTab ==> s.submitted
            && !s.image_tab_requested && e == PanelEvent::Page(PageEvent::ResultPage)
            && step_spec(s, e, has_view).0.image_tab_requested,
{
}

} // verus!
