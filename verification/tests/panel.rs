use orbom::geometry::{
    bead_side, caption_command, panel_hit, panel_layout, panel_min_size, panel_window,
    CaptionCommand, PanelHit, Rect,
};
use orbom::panel::{
    fresh_state, notice_text, page_message, panel_step, Notice, PanelAction, PanelEvent, PanelState,
};
use orbom::search::PageEvent;

fn rect(left: i32, top: i32, right: i32, bottom: i32) -> Rect {
    Rect { left, top, right, bottom }
}

#[test]
fn search_goes_from_upload_to_image_results() {
    let s0 = fresh_state();
    let (s1, a1) = panel_step(s0, PanelEvent::Page(PageEvent::Ready), true);
    assert_eq!(a1, PanelAction::Upload);
    assert!(s1.submitted);
    let (s2, a2) = panel_step(s1, PanelEvent::Page(PageEvent::Submitted), true);
    assert_eq!((s2, a2), (s1, PanelAction::Searching));
    let (s3, a3) = panel_step(s2, PanelEvent::Page(PageEvent::ResultPage), true);
    assert_eq!(a3, PanelAction::OpenImageTab);
    assert!(s3.image_tab_requested && !s3.showing_results);
    let (s4, a4) = panel_step(s3, PanelEvent::Page(PageEvent::ResultPage), true);
    assert_eq!(a4, PanelAction::ShowResults);
    assert!(s4.showing_results && s4.showing_web);
}

#[test]
fn image_is_uploaded_once_per_page() {
    let s = PanelState { submitted: true, ..fresh_state() };
    assert_eq!(panel_step(s, PanelEvent::Page(PageEvent::Ready), true), (s, PanelAction::Nothing));
    // Without a web view nothing can be uploaded.
    let f = fresh_state();
    assert_eq!(panel_step(f, PanelEvent::Page(PageEvent::Ready), false), (f, PanelAction::Nothing));
}

#[test]
fn results_before_upload_are_ignored() {
    let s = fresh_state();
    assert_eq!(
        panel_step(s, PanelEvent::Page(PageEvent::ResultPage), true),
        (s, PanelAction::Nothing)
    );
}

#[test]
fn failures_show_the_page_with_a_notice() {
    let s = PanelState { submitted: true, ..fresh_state() };
    let (f, a) = panel_step(s, PanelEvent::Page(PageEvent::Failed), true);
    assert_eq!(a, PanelAction::Report(Notice::ConnectFailed));
    assert!(!f.submitted && f.showing_web);
    let (f, a) = panel_step(s, PanelEvent::ScriptFailed, true);
    assert_eq!(a, PanelAction::Report(Notice::ConnectLater));
    assert!(!f.submitted && f.showing_web);
    let (f, a) = panel_step(s, PanelEvent::Timeout, true);
    assert_eq!(a, PanelAction::Report(Notice::Slow));
    assert!(f.submitted && f.showing_web);
}

#[test]
fn retry_starts_over() {
    let s = PanelState {
        submitted: true,
        image_tab_requested: true,
        showing_results: true,
        showing_web: true,
    };
    assert_eq!(panel_step(s, PanelEvent::Retry, true), (fresh_state(), PanelAction::Restart));
}

#[test]
fn notices_read_in_both_languages() {
    assert_eq!(
        notice_text(true, Notice::Slow),
        ("This is taking a while", "Check the page below or try again")
    );
    assert_eq!(
        notice_text(false, Notice::ConnectLater),
        ("연결하지 못했어요", "잠시 후 다시 시도해 주세요")
    );
    assert_eq!(notice_text(true, Notice::ConnectFailed).0, "Couldn't connect");
}

#[test]
fn panel_opens_against_the_right_edge() {
    let monitor = rect(0, 0, 1920, 1040);
    assert_eq!(panel_window(monitor, 96), rect(1480, 0, 1920, 1040));
    assert_eq!(panel_window(monitor, 144), rect(1260, 0, 1920, 1040));
    assert_eq!(panel_window(rect(0, 0, 300, 500), 96), rect(0, 0, 300, 500));
    assert_eq!(panel_min_size(96), (380, 320));
    assert_eq!(panel_min_size(144), (570, 480));
}

#[test]
fn searching_layout_stacks_under_the_orb() {
    let l = panel_layout(440, 800, 96, false, false).unwrap();
    assert_eq!(l.status, rect(20, 454, 420, 484));
    assert_eq!(l.subtitle, rect(20, 492, 420, 526));
    assert_eq!(l.close, rect(164, 542, 276, 586));
    assert_eq!((l.retry, l.redraw), (None, None));
    assert_eq!((l.web_top, l.web_height), (36, 764));
}

#[test]
fn page_layout_puts_three_buttons_in_a_row() {
    let l = panel_layout(440, 800, 96, true, false).unwrap();
    assert_eq!(l.status, rect(88, 48, 424, 78));
    assert_eq!(l.subtitle, rect(88, 82, 424, 116));
    assert_eq!(l.retry, Some(rect(47, 136, 157, 180)));
    assert_eq!(l.redraw, Some(rect(165, 136, 275, 180)));
    assert_eq!(l.close, rect(283, 136, 393, 180));
    assert_eq!((l.web_top, l.web_height), (200, 600));
    let r = panel_layout(440, 800, 96, true, true).unwrap();
    assert_eq!((r.web_top, r.web_height), (36, 764));
}

#[test]
fn minimized_panel_has_no_layout() {
    assert_eq!(panel_layout(0, 800, 96, false, false), None);
    assert_eq!(panel_layout(440, -5, 96, true, true), None);
}

#[test]
fn caption_orbs_command_the_window() {
    assert_eq!(caption_command(0, false), CaptionCommand::Minimize);
    assert_eq!(caption_command(1, false), CaptionCommand::Maximize);
    assert_eq!(caption_command(1, true), CaptionCommand::Restore);
    assert_eq!(caption_command(2, true), CaptionCommand::Close);
    assert_eq!(panel_hit(false, 2, 4, 36, false), PanelHit::Top);
    assert_eq!(panel_hit(true, 2, 4, 36, false), PanelHit::Caption);
    assert_eq!(panel_hit(false, 10, 4, 36, true), PanelHit::Client);
    assert_eq!(panel_hit(false, 40, 4, 36, false), PanelHit::Client);
    assert_eq!(bead_side(28, false, false), (21, 3));
    assert_eq!(bead_side(28, true, false), (24, 2));
    assert_eq!(bead_side(28, true, true), (18, 5));
}

#[test]
fn messages_from_an_earlier_search_are_dropped() {
    assert_eq!(
        page_message(PageEvent::Ready, 3, 3),
        Some(PanelEvent::Page(PageEvent::Ready))
    );
    assert_eq!(page_message(PageEvent::ResultPage, 2, 3), None);
}
