use mediasnare::window::recording_bar::{
    bar_buttons, bar_position, placement_ok, position_outside_region, screen_size_or_default, BarButtons, BarState,
};
use mediasnare::window::region_selector::{
    drag_end_reaction, key_response, KeyAction, SelectorKey, SelectorKind,
};

#[test]
fn bar_button_sensitivity() {
    assert_eq!(bar_buttons(BarState::Ready), BarButtons { record: true, pause: false, stop: true });
    assert_eq!(bar_buttons(BarState::Recording), BarButtons { record: false, pause: true, stop: true });
    assert_eq!(bar_buttons(BarState::Paused), BarButtons { record: true, pause: false, stop: true });
}

fn overlaps(bar: (i32, i32), r: (i32, i32, i32, i32)) -> bool {
    let (bx, by, bw, bh) = (bar.0, bar.1, 180, 44);
    bx < r.0 + r.2 && r.0 < bx + bw && by < r.1 + r.3 && r.1 < by + bh
}

#[test]
fn bar_below_region() {
    let r = (100, 100, 400, 300);
    assert_eq!(position_outside_region(r, (1920, 1080)), (100, 410));
    assert!(!overlaps((100, 410), r));
}

#[test]
fn bar_left_aligned_is_clamped_to_screen() {
    assert_eq!(position_outside_region((1800, 10, 100, 100), (1920, 1080)), (1740, 120));
    assert_eq!(position_outside_region((-50, 10, 100, 100), (1920, 1080)), (0, 120));
}

#[test]
fn bar_above_left_right_and_fallback() {
    let screen = (1920, 1080);
    let above = (300, 600, 400, 460);
    assert_eq!(position_outside_region(above, screen), (300, 546));
    let left = (400, 20, 200, 1050);
    let p = position_outside_region(left, screen);
    assert_eq!(p, (210, 1026));
    assert!(!overlaps(p, left));
    let right = (100, 20, 200, 1050);
    let p = position_outside_region(right, screen);
    assert_eq!(p, (310, 1026));
    assert!(!overlaps(p, right));
    assert_eq!(position_outside_region((0, 0, 1920, 1080), screen), (20, 1016));
}

#[test]
fn bar_position_without_region() {
    assert_eq!(bar_position(None, (1920, 1080), (500, 700)), (500, 700));
    assert_eq!(bar_position(None, (1920, 1080), (-1, -1)), (20, 1020));
    assert_eq!(bar_position(None, (1920, 1080), (10, -1)), (20, 1020));
    assert_eq!(bar_position(Some((100, 100, 400, 300)), (1920, 1080), (5, 5)), (100, 410));
    assert_eq!(screen_size_or_default(None), (1920, 1080));
    assert_eq!(screen_size_or_default(Some((2560, 1440))), (2560, 1440));
}

#[test]
fn selector_keys() {
    assert_eq!(key_response(SelectorKind::Image, SelectorKey::Escape), (KeyAction::Cancel, true));
    assert_eq!(key_response(SelectorKind::Video, SelectorKey::Escape), (KeyAction::Cancel, true));
    assert_eq!(key_response(SelectorKind::Image, SelectorKey::Enter), (KeyAction::Confirm, true));
    assert_eq!(key_response(SelectorKind::Video, SelectorKey::Enter), (KeyAction::Nothing, true));
    assert_eq!(key_response(SelectorKind::Image, SelectorKey::Other), (KeyAction::Nothing, false));
}

#[test]
fn selector_drag_end() {
    let r = drag_end_reaction(SelectorKind::Image, true, false);
    assert_eq!(r.show_actions, Some(true));
    assert!(!r.announce_ready);
    let r = drag_end_reaction(SelectorKind::Image, false, false);
    assert_eq!(r.show_actions, Some(false));
    let first = drag_end_reaction(SelectorKind::Video, true, false);
    assert!(first.announce_ready);
    assert!(first.bar_shown);
    let second = drag_end_reaction(SelectorKind::Video, true, first.bar_shown);
    assert!(!second.announce_ready);
    let invalid = drag_end_reaction(SelectorKind::Video, false, false);
    assert!(!invalid.announce_ready);
    assert!(!invalid.bar_shown);
    assert_eq!(invalid.show_actions, None);
}

#[test]
fn bar_fallback_on_short_screen() {
    let r = (0, 0, 1000, 1000);
    assert!(placement_ok(r, (500, 30)));
    assert_eq!(position_outside_region(r, (500, 30)), (20, -34));
    assert!(!placement_ok(r, (100, 1080)));
    assert!(!placement_ok((400, 0, 100, 1000), (1920, 30)));
}

#[test]
fn selector_drag_sequence_announces_once() {
    let mut latch = false;
    let mut sent = Vec::new();
    for valid in [false, true, false, true] {
        let r = drag_end_reaction(SelectorKind::Video, valid, latch);
        latch = r.bar_shown;
        sent.push(r.announce_ready);
    }
    assert_eq!(sent, vec![false, true, false, false]);
}
