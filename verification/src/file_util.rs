//! The scoped advisory file lock and the directory-listing filter.
//!
//! The lock serializes cooperating processes around a filesystem path (such
//! as a shared cache directory from the resolved settings): acquisition is
//! non-blocking and fail-fast, and release happens exactly once, when the
//! `Lock` value goes out of scope on any exit path.

use vstd::prelude::*;
use vstd::string::StrSliceExecFns;

verus! {

/// True of an entry name that a directory listing hides.
pub open spec fn hidden_name(n: Seq<char>) -> bool {
    n.len() >= 1 && n[0] == '.'
}

/// The paths of the entries whose names are not hidden, in order.
pub open spec fn visible_of(s: Seq<(Seq<char>, Seq<char>)>) -> Seq<Seq<char>>
    decreases s.len(),
{
    if s.len() == 0 {
        Seq::empty()
    } else {
        let rest = visible_of(s.drop_last());
        if hidden_name(s.last().0) {
            rest
        } else {
            rest.push(s.last().1)
        }
    }
}

/// The character-level pairs of a (name, path) entry list.
pub open spec fn entries_view(s: Seq<(String, String)>) -> Seq<(Seq<char>, Seq<char>)> {
    s.map_values(|p: (String, String)| (p.0@, p.1@))
}

/// Keeps, in order, the full path of each directory entry whose bare name
/// does not begin with a dot. Each pair is one entry's bare name beside its
/// full path.
#[verifier::loop_isolation(false)]
pub fn visible_entries(entries: &Vec<(String, String)>) -> (r: Vec<String>)
    ensures
        r@.map_values(|p: String| p@) == visible_of(entries_view(entries@)),
{
    let ghost ev = entries_view(entries@);
    let mut r: Vec<String> = Vec::new();
    let n = entries.len();
    let mut i: usize = 0;
    while i < n
        invariant
            i <= n,
            r@.map_values(|p: String| p@) == visible_of(ev.take(i as int)),
        decreases n - i,
    {
        proof {
            assert(ev.take(i as int + 1).drop_last() =~= ev.take(i as int));
            assert(ev.take(i as int + 1).last() == ev[i as int]);
            assert(ev[i as int] == (entries@[i as int].0@, entries@[i as int].1@));
        }
        let entry = &entries[i];
        let name: &str = entry.0.as_str();
        let hidden = name.unicode_len() >= 1 && name.get_char(0) == '.';
        if !hidden {
            let ghost before = r@;
            r.push(entry.1.clone());
            proof {
                assert(r@.map_values(|p: String| p@) =~= before.map_values(|p: String| p@).push(
                    entries@[i as int].1@,
                ));
            }
        }
        i = i + 1;
    }
    proof {
        assert(ev.take(n as int) =~= ev);
    }
    r
}

/// Why an exclusive lock could not be taken.
#[derive(Debug)]
pub enum LockError {
    /// Another holder owns the advisory lock right now; the call never waits,
    /// and trying again after the holder releases it may succeed.
    WouldBlock,
    /// Creating or locking the file failed: the OS errno value.
    Io(i32),
}

/// What one non-blocking exclusive lock attempt came to.
enum FlockOutcome {
    Acquired,
    Contended,
    Failed(i32),
}

/// Relies on nix::fcntl::open with O_CREAT | O_WRONLY | O_TRUNC: creates the
/// file at `path` if missing (truncating any previous content, which is never
/// read), and returns a nonnegative descriptor on success or the errno value
/// on failure. It returns rather than panicking on every input.
#[verifier::external_body]
fn open_lock_file(path: &String) -> (r: Result<i32, i32>)
    ensures
        r matches Ok(fd) ==> fd >= 0,
    no_unwind
{
    let oflag = nix::fcntl::OFlag::O_CREAT | nix::fcntl::OFlag::O_WRONLY
        | nix::fcntl::OFlag::O_TRUNC;
    let mode = nix::sys::stat::Mode::from_bits_truncate(0o666);
    match nix::fcntl::open(path.as_str(), oflag, mode) {
        Ok(fd) => Ok(fd),
        Err(e) => Err(e as i32),
    }
}

/// Relies on nix::fcntl::flock with LockExclusiveNonblock: takes the advisory
/// exclusive lock on the open descriptor, reports contention (EWOULDBLOCK)
/// while any other holder has it, and never blocks or panics.
#[verifier::external_body]
fn flock_exclusive_nonblock(fd: i32) -> (r: FlockOutcome)
    no_unwind
{
    match nix::fcntl::flock(fd, nix::fcntl::FlockArg::LockExclusiveNonblock) {
        Ok(()) => FlockOutcome::Acquired,
        Err(nix::errno::Errno::EWOULDBLOCK) => FlockOutcome::Contended,
        Err(e) => FlockOutcome::Failed(e as i32),
    }
}

/// Relies on nix::fcntl::flock with Unlock: releases this process's advisory
/// lock on the descriptor; never panics.
#[verifier::external_body]
fn flock_unlock(fd: i32) -> (r: Result<(), i32>)
    opens_invariants none
    no_unwind
{
    match nix::fcntl::flock(fd, nix::fcntl::FlockArg::Unlock) {
        Ok(()) => Ok(()),
        Err(e) => Err(e as i32),
    }
}

/// Relies on nix::unistd::close: gives the descriptor back to the OS, which
/// also drops any advisory lock still held through it; never panics.
#[verifier::external_body]
fn close_fd(fd: i32)
    opens_invariants none
    no_unwind
{
    let _ = nix::unistd::close(fd);
}

/// An advisory exclusive lock on a filesystem path. The lock lives exactly as
/// long as this value: it is released when the value's scope ends, on every
/// exit path. It constrains only cooperating processes that also try to
/// acquire a lock on the same path.
pub struct Lock {
    fd: i32,
}

impl Lock {
    /// The lock holds an open file descriptor.
    pub closed spec fn wf(&self) -> bool {
        self.fd >= 0
    }

    /// Creates the file at `path` if absent (its content is never read) and
    /// takes the advisory, process-exclusive lock on it without blocking:
    /// a lock already held elsewhere yields `WouldBlock` at once, any other
    /// OS failure yields `Io` with the errno value, and on failure no
    /// descriptor is kept open.
    pub fn exclusive(path: &String) -> (r: Result<Lock, LockError>)
        ensures
            r matches Ok(l) ==> l.wf(),
    {
        let fd = match open_lock_file(path) {
            Ok(fd) => fd,
            Err(e) => {
                return Err(LockError::Io(e));
            },
        };
        match flock_exclusive_nonblock(fd) {
            FlockOutcome::Acquired => Ok(Lock { fd }),
            FlockOutcome::Contended => {
                close_fd(fd);
                Err(LockError::WouldBlock)
            },
            FlockOutcome::Failed(e) => {
                close_fd(fd);
                Err(LockError::Io(e))
            },
        }
    }
}

impl Drop for Lock {
    /// Releases the lock and the descriptor; a failed release is ignored, it
    /// is neither retryable nor actionable for the caller.
    fn drop(&mut self)
        opens_invariants none
        no_unwind
    {
        let _ = flock_unlock(self.fd);
        close_fd(self.fd);
    }
}

} // verus!
