use access_time::contract::AccessTime;
use access_time::model::{Error, Principal, Session};

const ADMIN: Principal = 1;
const USER: Principal = 2;
const TOKEN: Principal = 100;

/// A token ledger that stands in for the real one: it holds balances and
/// refuses a transfer that the sender cannot cover.
struct Token {
    balances: Vec<(Principal, i128)>,
}

impl Token {
    fn new() -> Token {
        Token { balances: Vec::new() }
    }

    fn balance(&self, who: Principal) -> i128 {
        let mut total: i128 = 0;
        for (p, amount) in self.balances.iter() {
            if *p == who {
                total += *amount;
            }
        }
        total
    }

    fn mint(&mut self, who: Principal, amount: i128) {
        self.balances.push((who, amount));
    }

    fn transfer(&mut self, from: Principal, to: Principal, amount: i128) {
        if self.balance(from) < amount {
            panic!("balance is not sufficient to spend");
        }
        self.balances.push((from, -amount));
        self.balances.push((to, amount));
    }
}

/// The whole purchase as the application runs it: ask what is due, settle
/// it on the token ledger, record the order.
fn buy_order(c: &mut AccessTime, token: &mut Token, owner: Principal, package_id: u32) -> u128 {
    let due = match c.payment_due(owner, package_id) {
        Ok(t) => t,
        Err(e) => panic!("Error(Contract, #{})", e.code()),
    };
    assert_eq!(due.token, TOKEN);
    token.transfer(due.from, due.to, due.amount);
    match c.buy_order(owner, package_id) {
        Ok(id) => id,
        Err(e) => panic!("Error(Contract, #{})", e.code()),
    }
}

fn grant(c: &mut AccessTime, caller: Principal, owner: Principal, order_id: u128) {
    match c.grant(caller, owner, order_id) {
        Ok(()) => {}
        Err(e) => panic!("Error(Contract, #{})", e.code()),
    }
}

fn setup(id: u32, price: i128, duration_secs: u32) -> AccessTime {
    let mut c = AccessTime::new();
    assert_eq!(c.init(ADMIN, TOKEN), Ok(()));
    assert_eq!(c.set_package(id, price, duration_secs), Ok(()));
    c
}

#[test]
fn test_buy_order_and_grant_flow() {
    let mut c = setup(2, 50, 7200);
    let mut token = Token::new();
    token.mint(USER, 1000);

    let order_id = buy_order(&mut c, &mut token, USER, 2);
    assert!(order_id > 0);

    let session = c.get_session(USER);
    assert_eq!(session.remaining_secs, 0);
    assert_eq!(session.started_at, 0);

    grant(&mut c, USER, USER, order_id);

    let session_after_grant = c.get_session(USER);
    assert_eq!(session_after_grant.remaining_secs, 7200);
    assert_eq!(session_after_grant.started_at, 0);

    let user_balance = token.balance(USER);
    assert_eq!(user_balance, 950);
}

#[test]
#[should_panic]
fn test_buy_order_insufficient_balance() {
    let mut c = setup(1, 100, 3600);
    let mut token = Token::new();
    token.mint(USER, 50);

    buy_order(&mut c, &mut token, USER, 1);
}

#[test]
#[should_panic(expected = "Error(Contract, #4)")]
fn test_buy_order_package_not_found() {
    let mut c = AccessTime::new();
    assert_eq!(c.init(ADMIN, TOKEN), Ok(()));
    let mut token = Token::new();
    token.mint(USER, 1000);

    buy_order(&mut c, &mut token, USER, 99);
}

#[test]
#[should_panic(expected = "Error(Contract, #7)")]
fn test_grant_twice_should_fail() {
    let mut c = setup(1, 25, 1800);
    let mut token = Token::new();
    token.mint(USER, 1000);

    let order_id = buy_order(&mut c, &mut token, USER, 1);
    grant(&mut c, USER, USER, order_id);

    grant(&mut c, USER, USER, order_id);
}

#[test]
fn test_admin_can_grant_user_order() {
    let mut c = setup(1, 30, 2400);
    let mut token = Token::new();
    token.mint(USER, 1000);

    let order_id = buy_order(&mut c, &mut token, USER, 1);

    grant(&mut c, ADMIN, USER, order_id);

    let session = c.get_session(USER);
    assert_eq!(session.remaining_secs, 2400);
}

#[test]
fn test_debug_buy_order_package_2() {
    let alice: Principal = 3;
    let mut c = setup(2, 100, 3600);
    let mut token = Token::new();
    token.mint(alice, 1000);

    let balance_before = token.balance(alice);
    assert!(balance_before > 0);

    let order_id = buy_order(&mut c, &mut token, alice, 2);
    assert!(order_id > 0);

    let balance_after = token.balance(alice);
    assert!(balance_after < balance_before);
}

#[test]
fn buy_start_pause_flow() {
    let mut clock: u64 = 1000000;
    let mut c = setup(1, 10, 3600);
    let mut token = Token::new();
    token.mint(USER, 100);

    let order_id = buy_order(&mut c, &mut token, USER, 1);
    grant(&mut c, USER, USER, order_id);

    let mut s: Session = c.get_session(USER);
    assert_eq!(s.started_at, 0);
    assert_eq!(s.remaining_secs, 3600);

    c.start(USER, clock);
    s = c.get_session(USER);
    assert!(s.started_at > 0);

    let t0 = clock;
    clock = t0 + 120;

    let now = clock;
    let remaining = c.remaining(USER, now);
    assert!(remaining <= 3600 - 120);

    c.pause(USER, clock);
    s = c.get_session(USER);
    assert_eq!(s.started_at, 0);
    let frozen = s.remaining_secs;

    clock = now + 600;
    let still = c.remaining(USER, now + 600);
    assert_eq!(still, frozen);

    let order_id2 = buy_order(&mut c, &mut token, USER, 1);
    grant(&mut c, USER, USER, order_id2);
    s = c.get_session(USER);
    assert_eq!(s.started_at, 0);
    assert!(s.remaining_secs >= frozen + 3600);

    c.start(USER, clock);
    let now2 = clock;
    assert!(c.is_active(USER, now2));
}

#[test]
fn test_debug_buy_order_step_by_step() {
    let timestamp: u64 = 1000000;
    let mut c = AccessTime::new();
    assert_eq!(c.init(ADMIN, TOKEN), Ok(()));
    assert_eq!(c.set_package(2, 50, 7200), Ok(()));

    let mut token = Token::new();
    token.mint(USER, 1000);

    let balance = token.balance(USER);
    assert_eq!(balance, 1000);

    assert!(timestamp > 0);

    let order_id = buy_order(&mut c, &mut token, USER, 2);

    assert!(order_id > 0, "order_id was {}, expected > 0", order_id);
}

#[test]
fn test_minimal_buy_order() {
    let mut c = setup(2, 50, 7200);
    let mut token = Token::new();
    token.mint(USER, 1000);

    let order_id = buy_order(&mut c, &mut token, USER, 2);
    assert!(order_id > 0, "order_id was {}", order_id);
}

#[test]
fn payment_goes_from_owner_to_admin_at_the_package_price() {
    let mut c = setup(2, 50, 7200);
    let mut token = Token::new();
    token.mint(USER, 1000);
    buy_order(&mut c, &mut token, USER, 2);
    assert_eq!(token.balance(USER), 950);
    assert_eq!(token.balance(ADMIN), 50);
}

#[test]
fn refused_payment_records_nothing() {
    let c = setup(1, 100, 3600);
    let due = c.payment_due(USER, 1).unwrap();
    assert_eq!(due.amount, 100);
    assert_eq!(due.from, USER);
    assert_eq!(due.to, ADMIN);
    assert_eq!(c.order_count(USER), 0);
    assert_eq!(c.get_order(USER, 1), Err(Error::OrderNotFound));
}
