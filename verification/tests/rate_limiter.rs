//! Rate limits.

use lunaris_notification_daemon::manager::RateLimiter;

#[test]
fn test_allows_normal_rate() {
    let mut rl = RateLimiter::new();
    for _ in 0..10 {
        assert!(rl.check("app"));
    }
}

#[test]
fn test_per_app_limit() {
    let mut rl = RateLimiter::new();
    for _ in 0..10 {
        assert!(rl.check("spammy"));
    }
    assert!(!rl.check("spammy"), "11th should be rejected");
    // Different app still allowed.
    assert!(rl.check("other"));
}

#[test]
fn test_global_limit() {
    let mut rl = RateLimiter::new();
    // Fill global with different apps (each under per-app limit).
    for i in 0..50 {
        assert!(rl.check_with_limits(&format!("app{i}"), 10, 50));
    }
    assert!(!rl.check_with_limits("app-extra", 10, 50));
}

#[test]
fn test_window_reset() {
    let mut rl = RateLimiter::new();
    // Exhaust limit.
    for _ in 0..10 {
        rl.check("app");
    }
    assert!(!rl.check("app"));

    // Time passes: everything recorded leaves the window.
    rl.prune(u64::MAX);

    assert!(rl.check("app"), "should allow after window reset");
}

#[test]
fn window_is_one_second() {
    let mut rl = RateLimiter::new();
    let second = 1_000_000_000;
    for i in 0..10 {
        assert!(rl.check_at("app", i));
    }
    assert!(!rl.check_at("app", 10));
    // The first attempt leaves the window exactly one second later.
    assert!(!rl.check_at("app", second - 1));
    assert!(rl.check_at("app", second));
    assert!(!rl.check_at("app", second));
    assert!(rl.check_at("app", second + 1));
}

#[test]
fn no_window_holds_more_than_the_limits() {
    let mut rl = RateLimiter::new();
    let mut allowed: Vec<(u64, u64)> = Vec::new();
    for step in 0..4000u64 {
        let now = step * 3_000_000;
        let app = step % 7;
        if rl.check_with_limits_at(&format!("app{app}"), now, 3, 8) {
            allowed.push((now, app));
        }
    }
    assert!(allowed.len() > 80);
    for &(start, app) in &allowed {
        let window = allowed.iter().filter(|a| start <= a.0 && a.0 < start + 1_000_000_000);
        assert!(window.clone().count() <= 8);
        assert!(window.filter(|a| a.1 == app).count() <= 3);
    }
}

#[test]
fn rejected_attempts_are_not_counted() {
    let mut rl = RateLimiter::new();
    for i in 0..10 {
        assert!(rl.check_at("app", i));
    }
    for i in 10..100 {
        assert!(!rl.check_at("app", i));
    }
    for i in 0..40 {
        assert!(rl.check_at(&format!("other{i}"), 100));
    }
    assert!(!rl.check_at("one more", 101));
    assert!(!rl.check_with_limits_at("app", 101, 0, 1000));
}

#[test]
fn admission_counts_the_allowed_attempts_in_the_window() {
    let mut rl = RateLimiter::new();
    let mut allowed: Vec<(u64, u64)> = Vec::new();
    for step in 0..600u64 {
        let now = step * step * 20_000;
        let app = step % 3;
        let recent = |t: &&(u64, u64)| t.0 + 1_000_000_000 > now;
        let expected = allowed.iter().filter(recent).count() < 5
            && allowed.iter().filter(recent).filter(|t| t.1 == app).count() < 2;
        assert_eq!(rl.check_with_limits_at(&format!("app{app}"), now, 2, 5), expected);
        if expected {
            allowed.push((now, app));
        }
    }
}
