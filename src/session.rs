use vstd::prelude::*;

verus! {

/// How the terminal of a session is meant to behave.
#[derive(Debug, Clone, Copy, PartialEq, Eq, Structural)]
pub enum TerminalMode {
    Raw,
    Cooked,
    AltScreen,
}

/// One pseudo-terminal: the master descriptor, the child running on the slave
/// side, and what the engine records about it.
///
/// Times are readings of a monotonic clock in nanoseconds, taken by the caller.
#[derive(Debug, Clone, Copy, PartialEq, Eq, Structural)]
pub struct PtySession {
    pub id: u64,
    pub master_fd: i32,
    pub child_pid: i32,
    pub mode: TerminalMode,
    pub created_at: u64,
    pub bytes_read: u64,
    pub bytes_written: u64,
    pub is_alive: bool,
    pub rows: u16,
    pub cols: u16,
}

/// `a + b`, or `u64::MAX` where the sum does not fit.
pub open spec fn sat_add(a: u64, b: u64) -> u64 {
    if a + b > u64::MAX {
        u64::MAX
    } else {
        (a + b) as u64
    }
}

impl PtySession {
    /// A live session in cooked mode with zeroed counters.
    pub fn new(id: u64, master_fd: i32, child_pid: i32, rows: u16, cols: u16, now: u64) -> (s: Self)
        ensures
            s == (PtySession {
                id,
                master_fd,
                child_pid,
                mode: TerminalMode::Cooked,
                created_at: now,
                bytes_read: 0,
                bytes_written: 0,
                is_alive: true,
                rows,
                cols,
            }),
    {
        PtySession {
            id,
            master_fd,
            child_pid,
            mode: TerminalMode::Cooked,
            created_at: now,
            bytes_read: 0,
            bytes_written: 0,
            is_alive: true,
            rows,
            cols,
        }
    }

    /// Records the new mode; setting the current mode again changes nothing.
    pub fn set_mode(&mut self, mode: TerminalMode)
        ensures
            *final(self) == (PtySession { mode, ..*old(self) }),
    {
        self.mode = mode;
    }

    pub fn get_mode(&self) -> (m: TerminalMode)
        ensures
            m == self.mode,
    {
        self.mode
    }

    /// Records the window size now in effect.
    pub fn resize(&mut self, rows: u16, cols: u16)
        ensures
            *final(self) == (PtySession { rows, cols, ..*old(self) }),
    {
        self.rows = rows;
        self.cols = cols;
    }

    pub fn is_alive(&self) -> (b: bool)
        ensures
            b == self.is_alive,
    {
        self.is_alive
    }

    pub fn mark_dead(&mut self)
        ensures
            *final(self) == (PtySession { is_alive: false, ..*old(self) }),
    {
        self.is_alive = false;
    }

    /// Adds `n` to the bytes read, saturating at `u64::MAX`.
    pub fn add_bytes_read(&mut self, n: u64)
        ensures
            *final(self) == (PtySession { bytes_read: sat_add(old(self).bytes_read, n), ..*old(self) }),
            final(self).bytes_read >= old(self).bytes_read,
    {
        self.bytes_read = self.bytes_read.saturating_add(n);
    }

    /// Adds `n` to the bytes written, saturating at `u64::MAX`.
    pub fn add_bytes_written(&mut self, n: u64)
        ensures
            *final(self) == (PtySession {
                bytes_written: sat_add(old(self).bytes_written, n),
                ..*old(self)
            }),
            final(self).bytes_written >= old(self).bytes_written,
    {
        self.bytes_written = self.bytes_written.saturating_add(n);
    }

    /// Time since creation at clock reading `now`; zero for a reading that
    /// precedes the creation.
    pub open spec fn uptime(&self, now: u64) -> u64 {
        if now >= self.created_at {
            (now - self.created_at) as u64
        } else {
            0
        }
    }

    /// Bytes read, bytes written, and uptime in nanoseconds.
    pub fn get_stats(&self, now: u64) -> (r: (u64, u64, u64))
        ensures
            r == (self.bytes_read, self.bytes_written, self.uptime(now)),
    {
        let up: u64 = if now >= self.created_at {
            now - self.created_at
        } else {
            0
        };
        (self.bytes_read, self.bytes_written, up)
    }
}

} // verus!
