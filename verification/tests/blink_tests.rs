use editor_support::blink::{BlinkManager, BlinkTimerKind};
use std::time::Duration;

fn manager() -> BlinkManager {
    BlinkManager::new(Duration::from_millis(500))
}

#[test]
fn new_manager_shows_cursor_and_is_disabled() {
    let m = manager();
    assert!(m.visible());
    assert_eq!(m.blink_epoch(), 0);
}

#[test]
fn enable_shows_cursor_and_starts_blinking() {
    let mut m = manager();
    let fx = m.enable(true);
    assert!(m.visible());
    assert!(fx.notify);
    let timer = fx.timer.expect("a blink timer");
    assert_eq!(timer.kind, BlinkTimerKind::Blink);
    assert_eq!(timer.epoch, 1);
    assert_eq!(timer.delay, Duration::from_millis(500));
    assert_eq!(m.blink_epoch(), 1);
}

#[test]
fn enable_twice_does_nothing() {
    let mut m = manager();
    m.enable(true);
    let fx = m.enable(true);
    assert!(!fx.notify);
    assert!(fx.timer.is_none());
    assert_eq!(m.blink_epoch(), 1);
    assert!(m.visible());
}

#[test]
fn enable_with_setting_off_shows_cursor_without_timer() {
    let mut m = manager();
    let fx = m.enable(false);
    assert!(m.visible());
    assert!(fx.notify);
    assert!(fx.timer.is_none());
    assert_eq!(m.blink_epoch(), 0);
}

#[test]
fn live_blink_toggles_visibility() {
    let mut m = manager();
    m.enable(true);
    let fx = m.blink_cursors(1, true);
    assert!(!m.visible());
    assert!(fx.notify);
    let timer = fx.timer.unwrap();
    assert_eq!((timer.kind, timer.epoch), (BlinkTimerKind::Blink, 2));
    let fx = m.blink_cursors(2, true);
    assert!(m.visible());
    assert_eq!(fx.timer.unwrap().epoch, 3);
}

#[test]
fn stale_blink_is_ignored() {
    let mut m = manager();
    m.enable(true);
    let fx = m.blink_cursors(0, true);
    assert!(!fx.notify);
    assert!(fx.timer.is_none());
    assert!(m.visible());
    assert_eq!(m.blink_epoch(), 1);
}

#[test]
fn blink_with_setting_off_shows_cursor() {
    let mut m = manager();
    m.enable(true);
    m.blink_cursors(1, true);
    assert!(!m.visible());
    let fx = m.blink_cursors(7, false);
    assert!(m.visible());
    assert!(fx.notify);
    assert!(fx.timer.is_none());
}

#[test]
fn pause_shows_cursor_and_defers_blinking() {
    let mut m = manager();
    m.enable(true);
    m.blink_cursors(1, true);
    assert!(!m.visible());
    let fx = m.pause_blinking();
    assert!(m.visible());
    assert!(fx.notify);
    let timer = fx.timer.unwrap();
    assert_eq!((timer.kind, timer.epoch), (BlinkTimerKind::Resume, 3));
    assert_eq!(timer.delay, Duration::from_millis(500));
    // The blink timer started before the pause is now stale.
    let fx = m.blink_cursors(2, true);
    assert!(fx.timer.is_none());
    assert!(m.visible());
}

#[test]
fn pause_of_visible_cursor_does_not_repaint() {
    let mut m = manager();
    let fx = m.pause_blinking();
    assert!(!fx.notify);
    assert_eq!(fx.timer.unwrap().epoch, 1);
}

#[test]
fn resume_with_current_epoch_blinks_again() {
    let mut m = manager();
    m.enable(true);
    let pause = m.pause_blinking();
    let epoch = pause.timer.unwrap().epoch;
    let fx = m.resume_cursor_blinking(epoch, true);
    assert!(!m.visible());
    let timer = fx.timer.unwrap();
    assert_eq!((timer.kind, timer.epoch), (BlinkTimerKind::Blink, epoch + 1));
}

#[test]
fn resume_with_stale_epoch_is_ignored() {
    let mut m = manager();
    m.enable(true);
    m.pause_blinking();
    m.pause_blinking();
    let fx = m.resume_cursor_blinking(2, true);
    assert!(!fx.notify);
    assert!(fx.timer.is_none());
    assert!(m.visible());
    assert_eq!(m.blink_epoch(), 3);
}

#[test]
fn disable_hides_cursor_and_stops_blinking() {
    let mut m = manager();
    m.enable(true);
    m.disable();
    assert!(!m.visible());
    let fx = m.blink_cursors(1, true);
    assert!(fx.timer.is_none());
    assert!(!m.visible());
    let fx = m.resume_cursor_blinking(1, true);
    assert!(fx.timer.is_none());
    assert!(!m.visible());
}

#[test]
fn show_cursor_repaints_only_when_hidden() {
    let mut m = manager();
    let fx = m.show_cursor();
    assert!(!fx.notify);
    m.disable();
    let fx = m.show_cursor();
    assert!(fx.notify);
    assert!(m.visible());
}

#[test]
fn enable_after_disable_blinks_again() {
    let mut m = manager();
    m.enable(true);
    m.disable();
    let fx = m.enable(true);
    assert!(m.visible());
    assert_eq!(fx.timer.unwrap().epoch, 2);
}

#[test]
fn timers_get_consecutive_epochs_and_only_the_latest_is_live() {
    let mut m = manager();
    let mut issued = Vec::new();
    let steps = [
        m.enable(true),
        m.show_cursor(),
        m.blink_cursors(1, true),
        m.pause_blinking(),
        m.blink_cursors(2, true),
        m.resume_cursor_blinking(3, true),
    ];
    for fx in steps {
        if let Some(t) = fx.timer {
            issued.push(t.epoch);
        }
    }
    assert_eq!(issued, vec![1, 2, 3, 4]);
    assert_eq!(m.blink_epoch(), 4);
    for stale in &issued[..issued.len() - 1] {
        assert!(m.blink_cursors(*stale, true).timer.is_none());
        assert!(m.resume_cursor_blinking(*stale, true).timer.is_none());
    }
    assert_eq!(m.blink_epoch(), 4);
}
