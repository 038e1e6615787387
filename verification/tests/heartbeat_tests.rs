use tardis_rs::machine::heartbeat::{heartbeat_plan, ping_delay_after};

#[test]
fn plan_of_three_bursts_is_nine_paced_attempts() {
    let plan = heartbeat_plan(3);
    assert_eq!(
        plan,
        vec![0, 1000, 2000, 10000, 11000, 12000, 20000, 21000, 22000]
    );
}

#[test]
fn at_least_three_attempts_within_thirty_seconds() {
    let plan = heartbeat_plan(3);
    let within = plan.iter().filter(|&&t| t < 30_000).count();
    assert!(within >= 3);
}

#[test]
fn attempts_within_a_burst_are_a_second_apart() {
    let plan = heartbeat_plan(4);
    for burst in 0..4 {
        let base = 3 * burst;
        assert_eq!(plan[base + 1] - plan[base], 1000);
        assert_eq!(plan[base + 2] - plan[base + 1], 1000);
    }
}

#[test]
fn bursts_start_ten_seconds_apart() {
    let plan = heartbeat_plan(4);
    for burst in 0..3 {
        assert_eq!(plan[3 * (burst + 1)] - plan[3 * burst], 10_000);
    }
}

#[test]
fn delays_follow_the_schedule() {
    assert_eq!(ping_delay_after(0), 1000);
    assert_eq!(ping_delay_after(1), 1000);
    assert_eq!(ping_delay_after(2), 8000);
    assert_eq!(ping_delay_after(3), 1000);
    assert_eq!(ping_delay_after(5), 8000);
}
