use dotilim::config::Order;
use dotilim::select::{pick_random, select, EmptyPoolError};

#[test]
fn pick_random_simple() {
    assert_eq!(
        pick_random(&vec![String::from("test/sources-fixture/a.jpg")]),
        String::from("test/sources-fixture/a.jpg")
    )
}

#[test]
fn pick_random_singleton_repeated() {
    let pool = vec![String::from("only.jpg")];
    for _ in 0..20 {
        assert_eq!(pick_random(&pool), String::from("only.jpg"));
    }
}

#[test]
fn select_random_member_of_pool() {
    let pool = vec![
        String::from("one.jpg"),
        String::from("two.jpg"),
        String::from("three.jpg"),
    ];
    for _ in 0..20 {
        let choice = select(&pool, Order::random).unwrap();
        assert!(pool.contains(&choice));
    }
}

#[test]
fn select_empty_pool_fails() {
    let pool: Vec<String> = vec![];
    assert_eq!(select(&pool, Order::random), Err(EmptyPoolError));
    assert_eq!(select(&pool, Order::alphabetical), Err(EmptyPoolError));
}

#[test]
fn select_alphabetical_first() {
    let pool = vec![String::from("first.jpg"), String::from("second.jpg")];
    assert_eq!(
        select(&pool, Order::alphabetical),
        Ok(String::from("first.jpg"))
    );
}

#[test]
fn select_alphabetical_is_construction_order() {
    // The policy keeps the pool's construction order: it does not sort, so a
    // lexicographically later path in front stays in front.
    let pool = vec![String::from("zeta.jpg"), String::from("alpha.jpg")];
    assert_eq!(
        select(&pool, Order::alphabetical),
        Ok(String::from("zeta.jpg"))
    );
}
