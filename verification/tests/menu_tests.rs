use faculty_core::menu::{MenuClock, MenuDecision, MenuLog, MenuSchedule};

const SCHED: MenuSchedule = MenuSchedule { post_on_day: 0, post_at_hour: 9 };

fn monday_nine(date_key: u32) -> MenuClock {
    MenuClock { weekday: 0, hour: 9, date_key }
}

#[test]
fn publishing_twice_in_one_window_posts_once() {
    let mut log = MenuLog::new();
    let clock = monday_nine(20240715);
    let mut posts = 0;

    // First tick of the window: publish and mark.
    if log.tick(SCHED, clock) == MenuDecision::Publish {
        posts += 1;
        log.mark_posted(clock.date_key);
    }
    // Second tick, same window: the guard holds it back.
    if log.tick(SCHED, clock) == MenuDecision::Publish {
        posts += 1;
        log.mark_posted(clock.date_key);
    }
    assert_eq!(posts, 1, "one window, one visible post");
    assert_eq!(log.tick(SCHED, clock), MenuDecision::AlreadyPosted);
}

#[test]
fn outside_the_window_nothing_happens() {
    let log = MenuLog::new();
    assert_eq!(
        log.tick(SCHED, MenuClock { weekday: 0, hour: 10, date_key: 1 }),
        MenuDecision::NotDue,
        "wrong hour"
    );
    assert_eq!(
        log.tick(SCHED, MenuClock { weekday: 3, hour: 9, date_key: 1 }),
        MenuDecision::NotDue,
        "wrong weekday"
    );
}

#[test]
fn a_row_with_posted_false_does_not_block() {
    let mut log = MenuLog::new();
    let clock = monday_nine(20240722);
    log.set_flag(clock.date_key, false);
    assert_eq!(log.tick(SCHED, clock), MenuDecision::Publish);
}

#[test]
fn a_new_date_is_published_even_after_an_old_one() {
    let mut log = MenuLog::new();
    let first = monday_nine(20240715);
    log.mark_posted(first.date_key);
    let next = monday_nine(20240722);
    assert_eq!(log.tick(SCHED, next), MenuDecision::Publish);
}
