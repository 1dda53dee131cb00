use screenruster::cookies::CookieJar;

#[test]
fn new_jar_is_empty() {
    let jar = CookieJar::new();
    assert!(jar.is_empty());
    assert!(jar.has_room());
    assert!(!jar.contains(0));
    assert!(!jar.contains(u32::MAX));
    assert_eq!(jar.lowest_free(), 0);
}

#[test]
fn offer_accepts_a_free_cookie_once() {
    let mut jar = CookieJar::new();
    assert!(jar.offer(7));
    assert!(jar.contains(7));
    assert!(!jar.is_empty());
    // The same candidate is rejected while it is held.
    assert!(!jar.offer(7));
    assert!(jar.contains(7));
    assert!(jar.release(7));
    assert!(jar.offer(7));
}

#[test]
fn issue_hands_out_cookies_that_nobody_holds() {
    let mut jar = CookieJar::new();
    let mut issued: Vec<u32> = Vec::new();
    for _ in 0..500 {
        let cookie = jar.issue();
        assert!(!issued.contains(&cookie));
        assert!(jar.contains(cookie));
        issued.push(cookie);
    }
    for cookie in &issued {
        assert!(jar.contains(*cookie));
    }
}

#[test]
fn issue_draws_at_random() {
    // Two jars that issued by counting, or by handing back one fixed value,
    // would agree on all sixteen cookies.
    let mut a = CookieJar::new();
    let mut b = CookieJar::new();
    let mut same = 0;
    for _ in 0..16 {
        if a.issue() == b.issue() {
            same += 1;
        }
    }
    assert!(same < 16);
}

#[test]
fn release_forgets_and_double_release_is_a_no_op() {
    let mut jar = CookieJar::new();
    let cookie = jar.issue();
    assert!(jar.release(cookie));
    assert!(!jar.contains(cookie));
    assert!(jar.is_empty());
    assert!(!jar.release(cookie));
    assert!(jar.is_empty());
}

#[test]
fn release_of_unknown_cookie_changes_nothing() {
    let mut jar = CookieJar::new();
    assert!(jar.offer(1));
    assert!(jar.offer(2));
    assert!(!jar.release(3));
    assert!(jar.contains(1));
    assert!(jar.contains(2));
    assert!(!jar.contains(3));
}

#[test]
fn lowest_free_skips_what_is_held() {
    let mut jar = CookieJar::new();
    assert!(jar.offer(0));
    assert!(jar.offer(1));
    assert!(jar.offer(3));
    assert_eq!(jar.lowest_free(), 2);
    assert!(jar.offer(2));
    assert_eq!(jar.lowest_free(), 4);
    assert!(jar.release(1));
    assert_eq!(jar.lowest_free(), 1);
}
