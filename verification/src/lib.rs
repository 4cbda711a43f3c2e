//! An error-handling foundation for command-line tools: a unified error
//! value, construction policies that optionally disclose the source location
//! of the failure, and demonstration propagation patterns that exercise them.

use vstd::prelude::*;

mod decimal;
mod error;

pub use decimal::spec_decimal;
pub use decimal::u32_decimal;
pub use error::Error;
pub use error::Location;
pub use error::PlatformError;
pub use error::Result;
pub use error::bare_from_absence;
pub use error::bare_from_failure;
pub use error::bare_text;
pub use error::disclosed_from_absence;
pub use error::disclosed_from_failure;
pub use error::disclosed_text;
pub use error::lemma_bare_flag_set;
pub use error::lemma_bare_flag_unset;
pub use error::lemma_disclosed_shape;
pub use error::lemma_dual_rendering;
pub use error::located;

verus! {

/// The source file that the demonstrations report as their location.
pub open spec fn demo_file() -> Seq<char> {
    "src/lib.rs"@
}

/// The call-site line that `error_demo` records for its error.
pub const DEMO_LINE: u32 = 68;

/// The call-site column that `error_demo` records for its error.
pub const DEMO_COLUMN: u32 = 9;

/// The details text of the error that `error_demo` raises.
pub open spec fn demo_details() -> Seq<char> {
    "Error thrown to demonstrate the error handling process"@
}

/// The full text of the error that `error_demo` raises: bare, the details
/// alone; disclosed, the location prefix followed by the details.
pub open spec fn demo_text(bare: bool) -> Seq<char> {
    if bare {
        demo_details()
    } else {
        located(demo_file(), DEMO_LINE as nat, DEMO_COLUMN as nat) + demo_details()
    }
}

/// Generates a custom error. With `bare` unset the error is disclosed and
/// names its source location; with `bare` set it carries the details alone
/// (this library stands for a build with the disclosure flag unset).
pub fn error_demo(bare: bool) -> (r: Result<()>)
    ensures
        r matches Err(e) && (e matches Error::Error(m) && m@ == demo_text(bare)),
{
    let details = "Error thrown to demonstrate the error handling process".to_owned();
    let loc = Location { file: "src/lib.rs".to_owned(), line: DEMO_LINE, column: DEMO_COLUMN };
    if bare {
        bare_from_failure(false, &loc, details)
    } else {
        disclosed_from_failure(&loc, details)
    }
}

/// The disclosed and the bare text of the demonstration error differ only in
/// the presence of the location prefix: the trailing message is identical.
pub proof fn lemma_demo_prefix_only()
    ensures
        demo_text(false) == located(demo_file(), DEMO_LINE as nat, DEMO_COLUMN as nat)
            + demo_text(true),
{
}

/// The call-site line that the counter records for its failures.
pub const CYCLE_LINE: u32 = 133;

/// The call-site column that the counter records for its failures.
pub const CYCLE_COLUMN: u32 = 17;

/// The full text of the failure that the counter produces at count `c`.
pub open spec fn cycle_fail_text(c: nat) -> Seq<char> {
    located(demo_file(), CYCLE_LINE as nat, CYCLE_COLUMN as nat) + ("Failed at cycle "@
        + spec_decimal(c))
}

/// A counter over eleven production steps: counts one through four produce
/// successes carrying the count, counts five through eleven produce
/// failures, and after the eleventh step the counter is exhausted. It is not
/// restartable: to iterate again, create a fresh counter.
pub struct Counter {
    /// How many production steps have run.
    pub count: u32,
}

impl Counter {
    /// A fresh counter, before its first production step.
    pub fn new() -> (c: Counter)
        ensures
            c.count == 0,
    {
        Counter { count: 0 }
    }

    /// One production step: advances the count and produces the count itself
    /// (counts one through four), a disclosed failure naming the count
    /// (counts five through eleven), or nothing once exhausted.
    pub fn next(&mut self) -> (r: Option<Result<u32>>)
        ensures
            old(self).count >= 11 ==> final(self).count == old(self).count && r is None,
            old(self).count < 11 ==> final(self).count == old(self).count + 1,
            old(self).count < 4 ==> r == Some(Result::<u32>::Ok((old(self).count + 1) as u32)),
            4 <= old(self).count < 11 ==> (r matches Some(item) && (item matches Err(e) && (
            e matches Error::Error(m) && m@ == cycle_fail_text((old(self).count + 1) as nat)))),
    {
        if self.count < 11 {
            self.count = self.count + 1;
            if self.count >= 5 {
                let mut details = "Failed at cycle ".to_owned();
                let num = u32_decimal(self.count);
                details.append(num.as_str());
                let loc = Location {
                    file: "src/lib.rs".to_owned(),
                    line: CYCLE_LINE,
                    column: CYCLE_COLUMN,
                };
                Some(disclosed_from_failure(&loc, details))
            } else {
                Some(Ok(self.count))
            }
        } else {
            None
        }
    }
}

/// Generates a custom error from the counter, propagating with early exit:
/// drives a fresh counter, collecting each successful cycle in order, and
/// stops at the first failure without consuming the counter any further.
/// Returns the cycles that succeeded — one through four — and the failure
/// that ended the run, raised at cycle five.
pub fn recursive_fail_demo() -> (r: (Vec<u32>, Result<()>))
    ensures
        r.0@ == seq![1u32, 2u32, 3u32, 4u32],
        r.1 matches Err(e) && (e matches Error::Error(m) && m@ == cycle_fail_text(5)),
{
    let mut counter = Counter::new();
    let mut cycles: Vec<u32> = Vec::new();
    loop
        invariant
            counter.count <= 4,
            cycles@.len() == counter.count,
            forall|i: int| 0 <= i < cycles@.len() ==> cycles@[i] == i + 1,
        decreases 5 - counter.count,
    {
        match counter.next() {
            Some(item) => {
                match item {
                    Ok(n) => {
                        cycles.push(n);
                    },
                    Err(e) => {
                        assert(cycles@ =~= seq![1u32, 2u32, 3u32, 4u32]);
                        return (cycles, Err(e));
                    },
                }
            },
            None => {
                // the counter cannot be exhausted before it fails at cycle five
                assert(false);
                return (cycles, Ok(()));
            },
        }
    }
}

/// The call-site line that `file_fail_demo` records for its custom error.
pub const FILE_LINE: u32 = 227;

/// The call-site column that `file_fail_demo` records for its custom error.
pub const FILE_COLUMN: u32 = 17;

/// The details of the custom file error: the path, then the platform's own
/// message.
pub open spec fn file_fail_details(path: Seq<char>, platform_message: Seq<char>) -> Seq<char> {
    path + ": "@ + platform_message
}

/// The full text of the custom file error, with its disclosed prefix.
pub open spec fn file_fail_text(path: Seq<char>, platform_message: Seq<char>) -> Seq<char> {
    located(demo_file(), FILE_LINE as nat, FILE_COLUMN as nat) + file_fail_details(
        path,
        platform_message,
    )
}

/// Turns the outcome of opening the file at `path` into the demonstration's
/// result. A successful open succeeds. A platform failure is surfaced two
/// ways: plainly, the platform error is wrapped unchanged through the
/// standard conversion; with `better` set, it is mapped into a disclosed
/// custom error whose details name the path and the platform's message.
pub fn file_fail_demo(better: bool, path: &str, opened: core::result::Result<(), PlatformError>) -> (r: Result<()>)
    ensures
        opened is Ok ==> r is Ok,
        better ==> (opened matches Err(p) ==> (r matches Err(e) && (e matches Error::Error(m)
            && m@ == file_fail_text(path@, p.message@)))),
        !better ==> (opened matches Err(p) ==> r == Result::<()>::Err(Error::File(p))),
{
    match opened {
        Ok(u) => Ok(u),
        Err(p) => {
            if better {
                let mut details = path.to_owned();
                details.append(": ");
                details.append(p.message.as_str());
                let loc = Location {
                    file: "src/lib.rs".to_owned(),
                    line: FILE_LINE,
                    column: FILE_COLUMN,
                };
                disclosed_from_failure(&loc, details)
            } else {
                Err(Error::from(p))
            }
        },
    }
}

} // verus!
