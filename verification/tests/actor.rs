use aimd_semaphore::actor::Actor;

struct Counter {
    total: u64,
}

impl Actor for Counter {
    type Req = u64;
    type Reply = u64;

    fn handle(&mut self, msg: u64) -> u64 {
        self.total += msg;
        self.total
    }
}

#[test]
fn actor_answers_requests_in_turn() {
    let mut counter = Counter { total: 0 };
    assert_eq!(counter.handle(2), 2);
    assert_eq!(counter.handle(5), 7);
    assert_eq!(counter.handle(0), 7);
}
