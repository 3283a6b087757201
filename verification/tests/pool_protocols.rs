use connpool::{
    Checkout, Config, ConnectionManager, Deadline, ErrorHandler, GetTimeout, InitStep,
    InitializationError, NoopErrorHandler, Pool, PooledConnection, Work, RETRY_DELAY,
};
use std::sync::{Arc, Mutex};

/// What the test tells its manager to do.
struct Script {
    next_id: u32,
    connect_fails: bool,
    invalid: Vec<u32>,
    broken: Vec<u32>,
    connects: u32,
}

#[derive(Clone)]
struct Scripted {
    script: Arc<Mutex<Script>>,
}

impl Scripted {
    fn new() -> Scripted {
        Scripted {
            script: Arc::new(Mutex::new(Script {
                next_id: 1,
                connect_fails: false,
                invalid: Vec::new(),
                broken: Vec::new(),
                connects: 0,
            })),
        }
    }

    fn fail_connect(&self, fails: bool) {
        self.script.lock().unwrap().connect_fails = fails;
    }

    fn invalidate(&self, id: u32) {
        self.script.lock().unwrap().invalid.push(id);
    }

    fn break_conn(&self, id: u32) {
        self.script.lock().unwrap().broken.push(id);
    }

    fn connects(&self) -> u32 {
        self.script.lock().unwrap().connects
    }
}

impl ConnectionManager for Scripted {
    type Connection = u32;
    type Error = String;

    fn connect(&self) -> Result<u32, String> {
        let mut script = self.script.lock().unwrap();
        script.connects += 1;
        if script.connect_fails {
            return Err(format!("connect refused"));
        }
        let id = script.next_id;
        script.next_id += 1;
        Ok(id)
    }

    fn is_valid(&self, conn: &mut u32) -> Result<(), String> {
        if self.script.lock().unwrap().invalid.contains(conn) {
            Err(format!("connection {} is stale", conn))
        } else {
            Ok(())
        }
    }

    fn has_broken(&self, conn: &mut u32) -> bool {
        self.script.lock().unwrap().broken.contains(conn)
    }
}

/// Keeps every error it is given.
#[derive(Clone)]
struct Recorder {
    seen: Arc<Mutex<Vec<String>>>,
}

impl Recorder {
    fn new() -> Recorder {
        Recorder { seen: Arc::new(Mutex::new(Vec::new())) }
    }

    fn count(&self) -> usize {
        self.seen.lock().unwrap().len()
    }

    fn last(&self) -> Option<String> {
        self.seen.lock().unwrap().last().cloned()
    }
}

impl ErrorHandler<String> for Recorder {
    fn handle_error(&self, error: String) {
        self.seen.lock().unwrap().push(error);
    }
}

fn config(pool_size: u32, timeout: u64, test_on_check_out: bool, fail_fast: bool) -> Config {
    Config::new(pool_size, 1, timeout, test_on_check_out, fail_fast).unwrap()
}

/// One look at a start that has not failed: the pool comes back with the word.
fn look(pool: Pool<Scripted>, now: u64) -> (Pool<Scripted>, InitStep) {
    match pool.initialized(now) {
        Ok(pair) => pair,
        Err(_) => panic!("the start failed"),
    }
}

fn open_all(pool: &mut Pool<Scripted>, now: u64) {
    while pool.run_task(now) == Work::Opened {}
}

fn ready(step: Result<Checkout<u32>, GetTimeout>) -> PooledConnection<u32> {
    match step {
        Ok(Checkout::Ready(handle)) => handle,
        Ok(Checkout::Wait(millis)) => panic!("told to wait {} ms", millis),
        Err(_) => panic!("timed out"),
    }
}

fn wait(step: Result<Checkout<u32>, GetTimeout>) -> u64 {
    match step {
        Ok(Checkout::Wait(millis)) => millis,
        Ok(Checkout::Ready(handle)) => panic!("got connection {}", handle.connection()),
        Err(_) => panic!("timed out"),
    }
}

#[test]
fn new_pool_schedules_every_slot() {
    let manager = Scripted::new();
    let pool = Pool::new(config(4, 100, false, false), manager.clone(), Box::new(NoopErrorHandler), 7);
    assert_eq!(pool.created(), 7);
    assert_eq!(pool.deadline(40), Deadline::new(40, 100));
    assert_eq!(pool.num_conns(), 0);
    assert_eq!(pool.idle_connections(), 0);
    assert_eq!(pool.scheduled(), 4);
    assert_eq!(pool.config().pool_size(), 4);
    assert_eq!(manager.connects(), 0);
}

#[test]
fn happy_path() {
    let manager = Scripted::new();
    let pool = Pool::new(config(2, 5_000, false, true), manager, Box::new(NoopErrorHandler), 0);
    let (mut pool, step) = look(pool, 0);
    assert_eq!(step, InitStep::Wait(5_000));
    assert_eq!(pool.run_task(0), Work::Opened);
    let (mut pool, step) = look(pool, 1);
    assert_eq!(step, InitStep::Wait(4_999));
    assert_eq!(pool.run_task(1), Work::Opened);
    assert_eq!(pool.run_task(1), Work::Idle);
    let (mut pool, step) = look(pool, 2);
    assert_eq!(step, InitStep::Ready);
    // The look gave the pool back as it was.
    assert_eq!((pool.num_conns(), pool.idle_connections(), pool.scheduled()), (2, 2, 0));
    assert_eq!(pool.created(), 0);

    let mut first = ready(pool.get(10, 10));
    let second = ready(pool.get(10, 10));
    assert_eq!(*first.connection(), 1);
    assert_eq!(*second.connection(), 2);

    assert_eq!(wait(pool.get(20, 20)), 5_000);
    assert_eq!(wait(pool.get(20, 1_020)), 4_000);

    pool.release(&mut first);
    assert!(first.is_released());
    assert_eq!(pool.idle_connections(), 1);
    let handle = ready(pool.get(20, 1_030));
    assert_eq!(*handle.connection(), 1);
    assert_eq!(pool.num_conns(), 2);
    assert_eq!(pool.idle_connections(), 0);
}

#[test]
fn broken_on_return() {
    let manager = Scripted::new();
    let mut pool = Pool::new(config(1, 300, false, false), manager.clone(), Box::new(NoopErrorHandler), 0);
    open_all(&mut pool, 0);
    let mut handle = ready(pool.get(0, 0));
    manager.break_conn(*handle.connection());
    pool.release(&mut handle);
    assert_eq!(pool.num_conns(), 0);
    assert_eq!(pool.idle_connections(), 0);
    // The return path schedules no replacement.
    assert_eq!(pool.scheduled(), 0);
    assert_eq!(pool.run_task(1), Work::Idle);

    assert_eq!(wait(pool.get(1, 1)), 300);
    assert_eq!(wait(pool.get(1, 300)), 1);
    assert!(pool.get(1, 301).is_err());
}

#[test]
fn validation_failure_on_checkout() {
    let manager = Scripted::new();
    let errors = Recorder::new();
    let mut pool = Pool::new(config(1, 1_000, true, false), manager.clone(), Box::new(errors.clone()), 0);
    open_all(&mut pool, 0);
    assert_eq!(pool.idle_connections(), 1);
    manager.invalidate(1);

    assert_eq!(wait(pool.get(5, 5)), 1_000);
    assert_eq!(errors.count(), 1);
    assert_eq!(errors.last(), Some(format!("connection 1 is stale")));
    assert_eq!(pool.num_conns(), 0);
    assert_eq!(pool.idle_connections(), 0);
    assert_eq!(pool.scheduled(), 1);

    // The replacement was scheduled for the instant of the failure.
    assert_eq!(pool.run_task(5), Work::Opened);
    let handle = ready(pool.get(5, 6));
    assert_eq!(*handle.connection(), 2);
    assert_eq!(pool.num_conns(), 1);
    assert_eq!(errors.count(), 1);
}

#[test]
fn validation_skips_to_the_first_sound_connection() {
    let manager = Scripted::new();
    let errors = Recorder::new();
    let mut pool = Pool::new(config(3, 1_000, true, false), manager.clone(), Box::new(errors.clone()), 0);
    open_all(&mut pool, 0);
    manager.invalidate(1);
    manager.invalidate(2);
    let handle = ready(pool.get(0, 9));
    assert_eq!(*handle.connection(), 3);
    assert_eq!(errors.count(), 2);
    assert_eq!(pool.num_conns(), 1);
    assert_eq!(pool.idle_connections(), 0);
    assert_eq!(pool.scheduled(), 2);
    assert_eq!(pool.run_task(8), Work::Sleep(1));
    assert_eq!(pool.run_task(9), Work::Opened);
    assert_eq!(pool.run_task(9), Work::Opened);
    assert_eq!(pool.num_conns(), 3);
}

#[test]
fn validation_is_skipped_without_test_on_check_out() {
    let manager = Scripted::new();
    let errors = Recorder::new();
    let mut pool = Pool::new(config(1, 1_000, false, false), manager.clone(), Box::new(errors.clone()), 0);
    open_all(&mut pool, 0);
    manager.invalidate(1);
    let handle = ready(pool.get(0, 0));
    assert_eq!(*handle.connection(), 1);
    assert_eq!(errors.count(), 0);
}

#[test]
fn fail_fast_timeout() {
    let manager = Scripted::new();
    let pool = Pool::new(config(4, 100, false, true), manager, Box::new(NoopErrorHandler), 0);
    let (pool, step) = look(pool, 0);
    assert_eq!(step, InitStep::Wait(100));
    let (pool, step) = look(pool, 99);
    assert_eq!(step, InitStep::Wait(1));
    assert!(matches!(pool.initialized(100), Err(InitializationError)));
}

#[test]
fn fail_fast_rejects_a_pool_that_is_only_partly_open() {
    let manager = Scripted::new();
    let mut pool = Pool::new(config(4, 100, false, true), manager, Box::new(NoopErrorHandler), 0);
    assert_eq!(pool.run_task(0), Work::Opened);
    assert_eq!(pool.run_task(0), Work::Opened);
    assert_eq!(pool.run_task(0), Work::Opened);
    assert_eq!(pool.num_conns(), 3);
    assert!(matches!(pool.initialized(100), Err(InitializationError)));
}

#[test]
fn a_failed_start_ends_the_pool() {
    let ended = Arc::new(Mutex::new(0u32));
    struct Counted(Arc<Mutex<u32>>);
    impl Drop for Counted {
        fn drop(&mut self) {
            *self.0.lock().unwrap() += 1;
        }
    }
    struct Counting(Arc<Mutex<u32>>);
    impl ConnectionManager for Counting {
        type Connection = Counted;
        type Error = ();
        fn connect(&self) -> Result<Counted, ()> {
            Ok(Counted(self.0.clone()))
        }
        fn is_valid(&self, _: &mut Counted) -> Result<(), ()> {
            Ok(())
        }
        fn has_broken(&self, _: &mut Counted) -> bool {
            false
        }
    }
    let mut pool =
        Pool::new(config(3, 10, false, true), Counting(ended.clone()), Box::new(NoopErrorHandler), 0);
    assert_eq!(pool.run_task(0), Work::Opened);
    assert_eq!(pool.run_task(0), Work::Opened);
    assert_eq!(*ended.lock().unwrap(), 0);
    assert!(pool.initialized(10).is_err());
    // The connections that had opened went with the pool.
    assert_eq!(*ended.lock().unwrap(), 2);
}

#[test]
fn fail_fast_accepts_a_full_pool_even_late() {
    let manager = Scripted::new();
    let mut pool = Pool::new(config(2, 100, false, true), manager, Box::new(NoopErrorHandler), 0);
    open_all(&mut pool, 0);
    let (_, step) = look(pool, 500);
    assert_eq!(step, InitStep::Ready);
}

#[test]
fn without_fail_fast_a_pool_is_ready_at_once() {
    let manager = Scripted::new();
    let pool = Pool::new(config(2, 0, false, false), manager, Box::new(NoopErrorHandler), 0);
    let (_, step) = look(pool, 0);
    assert_eq!(step, InitStep::Ready);
}

#[test]
fn clear_on_pool_drop() {
    let manager = Scripted::new();
    let mut pool = Pool::new(config(10, 100, false, false), manager.clone(), Box::new(NoopErrorHandler), 0);
    assert_eq!(pool.scheduled(), 10);
    pool.shutdown();
    assert_eq!(pool.scheduled(), 0);
    assert_eq!(pool.run_task(0), Work::Idle);
    assert_eq!(manager.connects(), 0);
    assert_eq!(pool.num_conns(), 0);
    // Clearing again changes nothing.
    pool.shutdown();
    assert_eq!(pool.scheduled(), 0);
    assert_eq!(pool.num_conns(), 0);
}

#[test]
fn checkout_fifo_of_idle() {
    let manager = Scripted::new();
    let mut pool = Pool::new(config(3, 100, false, false), manager, Box::new(NoopErrorHandler), 0);
    open_all(&mut pool, 0);
    let a = ready(pool.get(0, 0));
    let b = ready(pool.get(0, 0));
    let c = ready(pool.get(0, 0));
    assert_eq!((*a.connection(), *b.connection(), *c.connection()), (1, 2, 3));
}

#[test]
fn returned_connections_queue_behind_idle_ones() {
    let manager = Scripted::new();
    let mut pool = Pool::new(config(3, 100, false, false), manager, Box::new(NoopErrorHandler), 0);
    open_all(&mut pool, 0);
    let mut a = ready(pool.get(0, 0));
    let mut b = ready(pool.get(0, 0));
    pool.release(&mut b);
    pool.release(&mut a);
    let order: Vec<u32> = (0..3).map(|_| *ready(pool.get(0, 0)).connection()).collect();
    assert_eq!(order, vec![3, 2, 1]);
}

#[test]
fn zero_timeout_with_empty_idle_times_out_at_once() {
    let manager = Scripted::new();
    let mut pool = Pool::new(config(1, 0, false, false), manager, Box::new(NoopErrorHandler), 0);
    let result = pool.get(0, 0);
    assert!(matches!(result, Err(GetTimeout)));
    // With a connection idle the same call succeeds.
    open_all(&mut pool, 0);
    let handle = ready(pool.get(0, 0));
    assert_eq!(*handle.connection(), 1);
}

#[test]
fn single_connection_serves_one_of_two_gets() {
    let manager = Scripted::new();
    let mut pool = Pool::new(config(1, 250, false, false), manager, Box::new(NoopErrorHandler), 0);
    open_all(&mut pool, 0);
    let first = pool.get(0, 0);
    let second = pool.get(0, 0);
    assert_eq!(*ready(first).connection(), 1);
    assert_eq!(wait(second), 250);
}

#[test]
fn permanently_failing_connect() {
    let manager = Scripted::new();
    manager.fail_connect(true);
    let errors = Recorder::new();
    let mut pool = Pool::new(config(2, 2_500, false, true), manager.clone(), Box::new(errors.clone()), 0);

    assert_eq!(pool.run_task(0), Work::Retry);
    assert_eq!(pool.run_task(0), Work::Retry);
    assert_eq!(errors.count(), 2);
    assert_eq!(errors.last(), Some(format!("connect refused")));
    // Both slots try again one second later, and not before.
    assert_eq!(RETRY_DELAY, 1_000);
    assert_eq!(pool.run_task(0), Work::Sleep(1_000));
    assert_eq!(pool.run_task(400), Work::Sleep(600));
    assert_eq!(pool.run_task(1_000), Work::Retry);
    assert_eq!(pool.run_task(1_000), Work::Retry);
    assert_eq!(pool.run_task(1_000), Work::Sleep(1_000));
    assert_eq!(pool.run_task(2_000), Work::Retry);
    assert_eq!(pool.run_task(2_100), Work::Retry);
    assert_eq!(pool.run_task(2_100), Work::Sleep(900));
    assert_eq!(errors.count(), 6);
    assert_eq!(manager.connects(), 6);

    assert_eq!(pool.num_conns(), 0);
    assert_eq!(pool.scheduled(), 2);
    let (mut pool, step) = look(pool, 2_499);
    assert_eq!(step, InitStep::Wait(1));
    assert_eq!(wait(pool.get(0, 2_000)), 500);
    assert!(matches!(pool.get(0, 2_500), Err(GetTimeout)));

    // The pool recovers when the backend does.
    manager.fail_connect(false);
    assert_eq!(pool.run_task(3_000), Work::Opened);
    assert_eq!(pool.run_task(3_000), Work::Sleep(100));
    assert_eq!(pool.run_task(3_100), Work::Opened);
    assert_eq!(pool.num_conns(), 2);
    assert_eq!(errors.count(), 6);
}

#[test]
fn permanently_failing_connect_fails_a_fail_fast_start() {
    let manager = Scripted::new();
    manager.fail_connect(true);
    let mut pool = Pool::new(config(2, 2_500, false, true), manager, Box::new(NoopErrorHandler), 0);
    for now in [0u64, 0, 1_000, 1_000, 2_000, 2_000] {
        assert_eq!(pool.run_task(now), Work::Retry);
    }
    assert!(matches!(pool.initialized(2_500), Err(InitializationError)));
}

#[test]
fn settle_validation_hands_out_a_connection_that_stood() {
    let manager = Scripted::new();
    let errors = Recorder::new();
    let mut pool = Pool::new(config(2, 100, true, false), manager, Box::new(errors.clone()), 0);
    open_all(&mut pool, 0);
    let conn = ready(pool.get(0, 0)).take().unwrap();
    let handle = pool.settle_validation(conn, Ok(()), 30).unwrap();
    assert_eq!(*handle.connection(), 1);
    assert_eq!((pool.num_conns(), pool.idle_connections(), pool.scheduled()), (2, 1, 0));
    assert_eq!(errors.count(), 0);
}

#[test]
fn settle_validation_replaces_a_connection_that_failed() {
    let manager = Scripted::new();
    let errors = Recorder::new();
    let mut pool = Pool::new(config(2, 100, true, false), manager, Box::new(errors.clone()), 0);
    open_all(&mut pool, 0);
    let conn = ready(pool.get(0, 0)).take().unwrap();
    let handle = pool.settle_validation(conn, Err(format!("gone")), 30);
    assert!(handle.is_none());
    assert_eq!(errors.last(), Some(format!("gone")));
    assert_eq!((pool.num_conns(), pool.idle_connections(), pool.scheduled()), (1, 1, 1));
    // The replacement is due at the instant of the failure, not before.
    assert_eq!(pool.run_task(29), Work::Sleep(1));
    assert_eq!(pool.run_task(30), Work::Opened);
    assert_eq!((pool.num_conns(), pool.idle_connections(), pool.scheduled()), (2, 2, 0));
}

#[test]
fn release_is_idempotent() {
    let manager = Scripted::new();
    let mut pool = Pool::new(config(2, 100, false, false), manager, Box::new(NoopErrorHandler), 0);
    open_all(&mut pool, 0);
    let mut handle = ready(pool.get(0, 0));
    assert!(!handle.is_released());
    pool.release(&mut handle);
    assert!(handle.is_released());
    assert_eq!((pool.num_conns(), pool.idle_connections()), (2, 2));
    pool.release(&mut handle);
    assert!(handle.is_released());
    assert_eq!((pool.num_conns(), pool.idle_connections()), (2, 2));
    assert_eq!(handle.take(), None);
}

#[test]
fn handle_gives_read_and_write_access() {
    let manager = Scripted::new();
    let mut pool = Pool::new(config(1, 100, false, false), manager, Box::new(NoopErrorHandler), 0);
    open_all(&mut pool, 0);
    let mut handle = ready(pool.get(0, 0));
    assert_eq!(*handle.connection(), 1);
    *handle.connection_mut() = 41;
    assert_eq!(*handle.connection(), 41);
    pool.release(&mut handle);
    // What the caller wrote is there on the next checkout.
    let again = ready(pool.get(0, 0));
    assert_eq!(*again.connection(), 41);
}

#[test]
fn put_back_takes_a_bare_connection() {
    let manager = Scripted::new();
    let mut pool = Pool::new(config(1, 100, false, false), manager.clone(), Box::new(NoopErrorHandler), 0);
    open_all(&mut pool, 0);
    let mut handle = ready(pool.get(0, 0));
    let conn = handle.take().unwrap();
    pool.put_back(conn);
    assert_eq!((pool.num_conns(), pool.idle_connections()), (1, 1));
    let mut handle = ready(pool.get(0, 0));
    manager.break_conn(1);
    let conn = handle.take().unwrap();
    pool.put_back(conn);
    assert_eq!((pool.num_conns(), pool.idle_connections()), (0, 0));
}

#[test]
fn counts_stay_within_bounds_and_nothing_leaks() {
    let manager = Scripted::new();
    let errors = Recorder::new();
    let mut pool = Pool::new(config(3, 50, true, false), manager.clone(), Box::new(errors.clone()), 0);
    let mut handles: Vec<PooledConnection<u32>> = Vec::new();
    let mut seen: Vec<u32> = Vec::new();
    for now in 0..400u64 {
        match now % 5 {
            0 | 1 => {
                let _ = pool.run_task(now * 10);
            }
            2 | 3 => {
                if let Ok(Checkout::Ready(handle)) = pool.get(now * 10, now * 10) {
                    let id = *handle.connection();
                    // No connection is in two handles at once.
                    assert!(!handles.iter().any(|held| *held.connection() == id));
                    seen.push(id);
                    handles.push(handle);
                }
            }
            _ => {
                if !handles.is_empty() {
                    let mut handle = handles.remove(0);
                    if now % 3 == 0 {
                        manager.break_conn(*handle.connection());
                    } else if now % 7 == 0 {
                        manager.invalidate(*handle.connection());
                    }
                    pool.release(&mut handle);
                }
                // A broken return leaves its slot vacant: fill it again.
                while (pool.num_conns() as usize) + pool.scheduled() < 3 {
                    connpool::add_connection(0, now * 10, &mut pool);
                }
            }
        }
        assert!(pool.num_conns() <= 3);
        assert!(pool.idle_connections() <= pool.num_conns() as usize);
        assert_eq!(pool.num_conns() as usize - pool.idle_connections(), handles.len());
    }
    while let Some(mut handle) = handles.pop() {
        pool.release(&mut handle);
    }
    assert_eq!(pool.idle_connections(), pool.num_conns() as usize);
    assert!(seen.len() > 10);
}

#[test]
fn add_connection_fills_a_vacant_slot() {
    let manager = Scripted::new();
    let mut pool = Pool::new(config(2, 100, false, false), manager.clone(), Box::new(NoopErrorHandler), 0);
    open_all(&mut pool, 0);
    let mut handle = ready(pool.get(0, 0));
    manager.break_conn(1);
    pool.release(&mut handle);
    assert_eq!((pool.num_conns(), pool.scheduled()), (1, 0));
    connpool::add_connection(250, 1_000, &mut pool);
    assert_eq!(pool.scheduled(), 1);
    assert_eq!(pool.run_task(1_000), Work::Sleep(250));
    assert_eq!(pool.run_task(1_250), Work::Opened);
    assert_eq!((pool.num_conns(), pool.idle_connections()), (2, 2));
}
