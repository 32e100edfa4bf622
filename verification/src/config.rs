use vstd::prelude::*;

verus! {

/// The two numeric knobs of a run, loaded once at startup.
///
/// `batch_size` groups credentials per dispatch; `parallelism` caps how many
/// executions may be in flight at once. Batching does not change what a run
/// computes, only how many items are grouped together.
#[derive(Clone, Copy, Debug, PartialEq, Eq, Structural)]
pub struct Config {
    pub batch_size: usize,
    pub parallelism: usize,
}

impl Config {
    /// A configuration is usable only if both knobs are at least one.
    pub open spec fn valid(self) -> bool {
        self.batch_size >= 1 && self.parallelism >= 1
    }

    pub fn new(batch_size: usize, parallelism: usize) -> (c: Config)
        requires
            batch_size >= 1,
            parallelism >= 1,
        ensures
            c.batch_size == batch_size,
            c.parallelism == parallelism,
            c.valid(),
    {
        Config { batch_size, parallelism }
    }

    /// Says whether a pair of knobs read from the outside is usable.
    pub fn check(batch_size: usize, parallelism: usize) -> (ok: bool)
        ensures
            ok == (batch_size >= 1 && parallelism >= 1),
    {
        batch_size >= 1 && parallelism >= 1
    }

    /// The half-open range of credential indices that make up one batch:
    /// batch `i` covers `[i * batch_size, min((i + 1) * batch_size, total))`.
    pub fn batch_range(&self, batch_index: usize, total: usize) -> (r: (usize, usize))
        requires
            self.valid(),
            batch_index * self.batch_size < total,
        ensures
            r.0 == batch_index * self.batch_size,
            r.1 == if (batch_index * self.batch_size + self.batch_size) as int <= total as int {
                (batch_index * self.batch_size + self.batch_size) as int
            } else {
                total as int
            },
            r.0 < r.1 <= total,
            r.1 - r.0 <= self.batch_size,
    {
        let start = batch_index * self.batch_size;
        let end = if total - start > self.batch_size {
            start + self.batch_size
        } else {
            total
        };
        (start, end)
    }
}

} // verus!
