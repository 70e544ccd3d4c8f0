use token_cache::clock::{expiry_after, SAFETY_MARGIN, VALIDITY_WINDOW};
use token_cache::pool::{Reply, Schedule, TokenPool, STATUS_OK, STATUS_UNAVAILABLE};

#[test]
fn new_pool_is_empty_and_has_room() {
    let pool = TokenPool::new(4);
    assert_eq!(pool.capacity(), 4);
    assert_eq!(pool.len(), 0);
    assert!(pool.has_room());
}

#[test]
fn pool_of_capacity_zero_never_has_room() {
    let pool = TokenPool::new(0);
    assert_eq!(pool.len(), 0);
    assert!(!pool.has_room());
}

#[test]
fn pool_has_room_until_it_holds_its_capacity() {
    let mut pool = TokenPool::new(2);
    pool.store(10, String::from("a"));
    assert!(pool.has_room());
    pool.store(20, String::from("b"));
    assert_eq!(pool.len(), 2);
    assert!(!pool.has_room());
    pool.evict(10);
    assert!(pool.has_room());
}

#[test]
fn store_schedules_eviction_one_margin_before_expiry() {
    let mut pool = TokenPool::new(1);
    let expiry = expiry_after(5_000);
    let schedule = pool.store(expiry, String::from("t"));
    assert_eq!(schedule, Schedule { key: 900_000_005_000, deadline: 840_000_005_000 });
    assert_eq!(schedule.key - schedule.deadline, SAFETY_MARGIN);
    assert_eq!(schedule.key - 5_000, VALIDITY_WINDOW);
    assert_eq!(pool.len(), 1);
}

#[test]
fn store_under_a_present_expiry_keeps_one_entry_with_the_newer_token() {
    let mut pool = TokenPool::new(8);
    pool.store(70, String::from("first"));
    pool.store(70, String::from("second"));
    assert_eq!(pool.len(), 1);
    assert_eq!(pool.serve(0), Reply::Token { payload: String::from("second"), remaining: 70 });
    assert_eq!(pool.serve(0), Reply::Unavailable);
}

#[test]
fn serve_on_an_empty_pool_is_unavailable() {
    let mut pool = TokenPool::new(3);
    let reply = pool.serve(0);
    assert_eq!(reply, Reply::Unavailable);
    assert_eq!(reply.status(), 503);
    assert_eq!(pool.len(), 0);
}

#[test]
fn serve_hands_out_the_freshest_entry_with_its_remaining_validity() {
    let mut pool = TokenPool::new(3);
    pool.store(1_000, String::from("old"));
    pool.store(3_000, String::from("new"));
    pool.store(2_000, String::from("mid"));
    let reply = pool.serve(500);
    assert_eq!(reply, Reply::Token { payload: String::from("new"), remaining: 2_500 });
    assert_eq!(reply.status(), 200);
    assert_eq!(pool.len(), 2);
    assert_eq!(pool.serve(500), Reply::Token { payload: String::from("mid"), remaining: 1_500 });
    assert_eq!(pool.serve(500), Reply::Token { payload: String::from("old"), remaining: 500 });
    assert_eq!(pool.serve(500), Reply::Unavailable);
}

#[test]
fn serve_discards_an_expired_entry_and_is_unavailable() {
    let mut pool = TokenPool::new(3);
    pool.store(1_000, String::from("stale"));
    let reply = pool.serve(1_001);
    assert_eq!(reply, Reply::Unavailable);
    assert_eq!(pool.len(), 0);
    assert_eq!(pool.serve(0), Reply::Unavailable);
}

#[test]
fn serve_at_the_instant_of_expiry_still_hands_out_the_token() {
    let mut pool = TokenPool::new(3);
    pool.store(1_000, String::from("last-moment"));
    assert_eq!(
        pool.serve(1_000),
        Reply::Token { payload: String::from("last-moment"), remaining: 0 }
    );
}

#[test]
fn stale_freshest_entry_costs_the_request_even_if_none_other_is_tried() {
    let mut pool = TokenPool::new(3);
    pool.store(10, String::from("a"));
    pool.store(20, String::from("b"));
    assert_eq!(pool.serve(25), Reply::Unavailable);
    assert_eq!(pool.len(), 1);
}

#[test]
fn served_key_is_absent_from_every_later_request() {
    let mut pool = TokenPool::new(4);
    pool.store(400, String::from("d"));
    pool.store(300, String::from("c"));
    assert_eq!(pool.serve(0), Reply::Token { payload: String::from("d"), remaining: 400 });
    pool.store(500, String::from("e"));
    pool.store(200, String::from("b"));
    pool.evict(300);
    let mut seen: Vec<String> = Vec::new();
    loop {
        match pool.serve(0) {
            Reply::Token { payload, .. } => seen.push(payload),
            Reply::Unavailable => break,
        }
    }
    assert_eq!(seen, vec![String::from("e"), String::from("b")]);
}

#[test]
fn one_entry_and_many_requests_give_exactly_one_token() {
    let mut pool = TokenPool::new(1);
    pool.store(9_000, String::from("only"));
    let mut tokens = 0;
    let mut refusals = 0;
    for _ in 0..64 {
        match pool.serve(100) {
            Reply::Token { payload, remaining } => {
                assert_eq!(payload, "only");
                assert_eq!(remaining, 8_900);
                tokens += 1;
            }
            Reply::Unavailable => refusals += 1,
        }
    }
    assert_eq!(tokens, 1);
    assert_eq!(refusals, 63);
}

#[test]
fn evict_removes_the_key_whether_or_not_it_is_present() {
    let mut pool = TokenPool::new(2);
    pool.store(11, String::from("x"));
    pool.evict(12);
    assert_eq!(pool.len(), 1);
    pool.evict(11);
    assert_eq!(pool.len(), 0);
    pool.evict(11);
    assert_eq!(pool.len(), 0);
    assert_eq!(pool.serve(0), Reply::Unavailable);
}

#[test]
fn evict_after_serving_is_a_no_op() {
    let mut pool = TokenPool::new(2);
    let schedule = pool.store(expiry_after(0), String::from("x"));
    assert_eq!(
        pool.serve(1),
        Reply::Token { payload: String::from("x"), remaining: VALIDITY_WINDOW - 1 }
    );
    pool.evict(schedule.key);
    assert_eq!(pool.len(), 0);
}

#[test]
fn reply_status_is_200_with_a_token_and_503_without() {
    assert_eq!(STATUS_OK, 200);
    assert_eq!(STATUS_UNAVAILABLE, 503);
    assert_eq!(Reply::Unavailable.status(), 503);
    assert_eq!(Reply::Token { payload: String::new(), remaining: 0 }.status(), 200);
}
