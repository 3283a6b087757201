//! The pool's configuration: a value that is checked once and never changes.

use vstd::prelude::*;

verus! {

/// Settings of a pool, fixed when the pool is built.
///
/// Durations are whole milliseconds.
#[derive(Clone, Copy, Debug)]
pub struct Config {
    pool_size: u32,
    helper_threads: u32,
    connection_timeout: u64,
    test_on_check_out: bool,
    initialization_fail_fast: bool,
}

impl Config {
    /// What every configuration satisfies: at least one connection and at
    /// least one helper thread.
    #[verifier::type_invariant]
    pub closed spec fn valid(&self) -> bool {
        self.pool_size > 0 && self.helper_threads > 0
    }

    pub closed spec fn spec_pool_size(&self) -> u32 {
        self.pool_size
    }

    pub closed spec fn spec_helper_threads(&self) -> u32 {
        self.helper_threads
    }

    pub closed spec fn spec_connection_timeout(&self) -> u64 {
        self.connection_timeout
    }

    pub closed spec fn spec_test_on_check_out(&self) -> bool {
        self.test_on_check_out
    }

    pub closed spec fn spec_initialization_fail_fast(&self) -> bool {
        self.initialization_fail_fast
    }

    /// Builds a configuration, or refuses one that asks for no connections or
    /// for no helper threads.
    pub fn new(
        pool_size: u32,
        helper_threads: u32,
        connection_timeout: u64,
        test_on_check_out: bool,
        initialization_fail_fast: bool,
    ) -> (config: Option<Config>)
        ensures
            config.is_some() <==> pool_size > 0 && helper_threads > 0,
            config matches Some(c) ==> {
                &&& c.valid()
                &&& c.spec_pool_size() == pool_size
                &&& c.spec_helper_threads() == helper_threads
                &&& c.spec_connection_timeout() == connection_timeout
                &&& c.spec_test_on_check_out() == test_on_check_out
                &&& c.spec_initialization_fail_fast() == initialization_fail_fast
            },
    {
        if pool_size == 0 || helper_threads == 0 {
            None
        } else {
            Some(
                Config {
                    pool_size,
                    helper_threads,
                    connection_timeout,
                    test_on_check_out,
                    initialization_fail_fast,
                },
            )
        }
    }

    /// How many connections the pool keeps open in the steady state.
    #[verifier::when_used_as_spec(spec_pool_size)]
    pub fn pool_size(&self) -> (n: u32)
        ensures
            n == self.spec_pool_size(),
            n > 0,
    {
        proof {
            use_type_invariant(self);
        }
        self.pool_size
    }

    /// How many helper threads open connections in the background.
    #[verifier::when_used_as_spec(spec_helper_threads)]
    pub fn helper_threads(&self) -> (n: u32)
        ensures
            n == self.spec_helper_threads(),
            n > 0,
    {
        proof {
            use_type_invariant(self);
        }
        self.helper_threads
    }

    /// The longest a checkout, or a fail-fast start, may wait, in
    /// milliseconds.
    #[verifier::when_used_as_spec(spec_connection_timeout)]
    pub fn connection_timeout(&self) -> (millis: u64)
        ensures
            millis == self.spec_connection_timeout(),
    {
        self.connection_timeout
    }

    /// Whether a connection is validated before it is handed out.
    #[verifier::when_used_as_spec(spec_test_on_check_out)]
    pub fn test_on_check_out(&self) -> (test: bool)
        ensures
            test == self.spec_test_on_check_out(),
    {
        self.test_on_check_out
    }

    /// Whether a new pool is refused unless every connection opens in time.
    #[verifier::when_used_as_spec(spec_initialization_fail_fast)]
    pub fn initialization_fail_fast(&self) -> (fail_fast: bool)
        ensures
            fail_fast == self.spec_initialization_fail_fast(),
    {
        self.initialization_fail_fast
    }
}

} // verus!
