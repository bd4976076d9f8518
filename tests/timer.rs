use chat_application::event::ResendTimer;
use chat_application::timer::TimerRegistry;

#[test]
fn setting_timer() {
    let mut timers: TimerRegistry<ResendTimer> = TimerRegistry::new();
    timers.arm(ResendTimer(1), 0, 200);
    assert_eq!(timers.pop_due(199), None);
    assert_eq!(timers.next_deadline(), Some(200));
    assert_eq!(timers.pop_due(200), Some(ResendTimer(1)));
    assert_eq!(timers.len(), 0);
}

#[test]
fn fires_in_ascending_delay_order() {
    let mut timers: TimerRegistry<u32> = TimerRegistry::new();
    timers.arm(300, 0, 300);
    timers.arm(100, 0, 100);
    timers.arm(200, 0, 200);
    assert_eq!(timers.next_deadline(), Some(100));
    let mut fired: Vec<u32> = Vec::new();
    while let Some(p) = timers.pop_due(1000) {
        fired.push(p);
    }
    assert_eq!(fired, vec![100, 200, 300]);
}

#[test]
fn only_due_timers_fire() {
    let mut timers: TimerRegistry<&str> = TimerRegistry::new();
    timers.arm("late", 10, 50);
    timers.arm("soon", 10, 5);
    assert_eq!(timers.pop_due(14), None);
    assert_eq!(timers.pop_due(15), Some("soon"));
    assert_eq!(timers.pop_due(59), None);
    assert_eq!(timers.pop_due(60), Some("late"));
    assert_eq!(timers.pop_due(1000), None);
    assert_eq!(timers.next_deadline(), None);
}

#[test]
fn armed_between_polls_still_fires() {
    let mut timers: TimerRegistry<u8> = TimerRegistry::new();
    assert_eq!(timers.pop_due(0), None);
    assert_eq!(timers.pop_due(40), None);
    timers.arm(7, 40, 30);
    assert_eq!(timers.pop_due(69), None);
    assert_eq!(timers.pop_due(70), Some(7));
}

#[test]
fn equal_deadlines_fire_in_arming_order() {
    let mut timers: TimerRegistry<char> = TimerRegistry::new();
    timers.arm('a', 0, 10);
    timers.arm('b', 5, 5);
    assert_eq!(timers.pop_due(10), Some('a'));
    assert_eq!(timers.pop_due(10), Some('b'));
}
