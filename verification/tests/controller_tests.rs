use splash::controller::RunState;
use splash::controller::SplashController;
use splash::controller::SplashPlugin;
use splash::controller::SplashProgressController;
use splash::controller::SplashProgressPlugin;
use splash::fade::FadeItem;
use splash::skip::InputEvent;

const SPLASH: u64 = 1;
const MENU: u64 = 2;

#[test]
fn plugin_new_is_skippable_by_default() {
    let p = SplashPlugin::new(SPLASH, MENU);
    assert_eq!(p.state, SPLASH);
    assert_eq!(p.next, MENU);
    assert!(p.skippable);
    let q = SplashProgressPlugin::new(SPLASH);
    assert_eq!(q.state, SPLASH);
    assert!(q.skippable);
}

#[test]
fn autonomous_no_fire_while_unfinished_and_unskipped() {
    let mut c = SplashController::enter(&SplashPlugin::new(SPLASH, MENU));
    c.add_item(FadeItem::new(0, 0, 300, 0));
    let (_, req) = c.tick(100, &vec![]);
    assert_eq!(req, None);
    let (_, req) = c.tick(100, &vec![InputEvent::KeyRelease]);
    assert_eq!(req, None);
    assert_eq!(c.run_state, RunState::Active);
}

#[test]
fn autonomous_fires_exactly_once_when_done() {
    let mut c = SplashController::enter(&SplashPlugin::new(SPLASH, MENU));
    c.add_item(FadeItem::new(0, 0, 200, 0));
    let (_, req) = c.tick(100, &vec![]);
    assert_eq!(req, None);
    let (_, req) = c.tick(100, &vec![]);
    assert_eq!(req, Some(MENU));
    // Repeated ticks after the transition request nothing further.
    for _ in 0..3 {
        let (ops, req) = c.tick(100, &vec![]);
        assert_eq!(req, None);
        assert_eq!(ops.len(), 0);
    }
}

#[test]
fn autonomous_fires_exactly_once_on_skip() {
    let mut c = SplashController::enter(&SplashPlugin::new(SPLASH, MENU));
    c.add_item(FadeItem::new(0, 0, 10_000, 0));
    let (_, req) = c.tick(100, &vec![InputEvent::TouchStart]);
    assert_eq!(req, Some(MENU));
    let (_, req) = c.tick(100, &vec![InputEvent::TouchStart]);
    assert_eq!(req, None);
}

#[test]
fn autonomous_not_skippable_ignores_presses() {
    let plugin = SplashPlugin {
        state: SPLASH,
        next: MENU,
        skippable: false,
    };
    let mut c = SplashController::enter(&plugin);
    c.add_item(FadeItem::new(0, 0, 200, 0));
    let (_, req) = c.tick(100, &vec![InputEvent::KeyPress]);
    assert_eq!(req, None);
    let (_, req) = c.tick(100, &vec![InputEvent::KeyPress]);
    assert_eq!(req, Some(MENU)); // by completion, not by skip
}

#[test]
fn autonomous_exit_clears_for_reentry() {
    let mut c = SplashController::enter(&SplashPlugin::new(SPLASH, MENU));
    c.add_item(FadeItem::new(0, 0, 100, 0));
    let (_, req) = c.tick(100, &vec![]);
    assert_eq!(req, Some(MENU));
    c.exit();
    assert_eq!(c.run_state, RunState::Active);
    assert_eq!(c.aggregator.len(), 0);
    // A re-entered run starts clean: with fresh items it runs again.
    c.add_item(FadeItem::new(0, 0, 100, 0));
    let (_, req) = c.tick(50, &vec![]);
    assert_eq!(req, None);
    let (_, req) = c.tick(50, &vec![]);
    assert_eq!(req, Some(MENU));
}

#[test]
fn cooperative_report_turns_true_on_done_and_latches() {
    let mut c = SplashProgressController::enter(&SplashProgressPlugin::new(SPLASH));
    c.add_item(FadeItem::new(0, 0, 200, 0));
    let (_, report) = c.tick(100, &vec![]);
    assert!(!report);
    let (_, report) = c.tick(100, &vec![]);
    assert!(report);
    for _ in 0..3 {
        let (_, report) = c.tick(100, &vec![]);
        assert!(report);
    }
}

#[test]
fn cooperative_skip_only_accelerates_own_report() {
    let mut c = SplashProgressController::enter(&SplashProgressPlugin::new(SPLASH));
    c.add_item(FadeItem::new(0, 0, 10_000, 0));
    let (_, report) = c.tick(100, &vec![]);
    assert!(!report);
    let (_, report) = c.tick(100, &vec![InputEvent::MouseButtonPress]);
    assert!(report);
    // Latched true afterwards, even with empty batches.
    let (_, report) = c.tick(100, &vec![]);
    assert!(report);
    // Items keep advancing; the controller itself never transitions.
    assert!(c.aggregator.items[0].hold.elapsed == 300);
}

#[test]
fn cooperative_exit_resets_report() {
    let mut c = SplashProgressController::enter(&SplashProgressPlugin::new(SPLASH));
    c.add_item(FadeItem::new(0, 0, 0, 0));
    let (_, report) = c.tick(0, &vec![]);
    assert!(report);
    c.exit();
    assert!(!c.completed);
    assert_eq!(c.aggregator.len(), 0);
}

#[test]
fn end_to_end_two_items_transition_at_the_later_total() {
    // Items (wait=0, intro=1.25s, hold=1.5s, fade=0) and
    // (wait=0.25s, intro=0.75s, hold=0.25s, fade=1.75s), in milliseconds,
    // ticked by 0.25s: totals are 2.75s and 3.0s, so with no skip events
    // the transition fires at t = 3.0s, not at t = 2.75s.
    let mut c = SplashController::enter(&SplashPlugin::new(SPLASH, MENU));
    c.add_item(FadeItem::new(0, 1250, 1500, 0));
    c.add_item(FadeItem::new(250, 750, 250, 1750));
    let mut fired_at: Option<u64> = None;
    for tick in 1u64..=14 {
        let (_, req) = c.tick(250, &vec![]);
        if let Some(next) = req {
            assert_eq!(next, MENU);
            assert!(fired_at.is_none());
            fired_at = Some(tick * 250);
        }
    }
    assert_eq!(fired_at, Some(3000));
}
