use vstd::prelude::*;
use crate::text::{chars_of, contains, contains_str};

verus! {

/// How a remote command failed.
#[derive(Clone, Copy, Debug, PartialEq, Eq, Structural)]
pub enum ShellError {
    ConnectFailed,
    AuthFailed,
    ChannelClosed,
    Timeout,
    RemoteExitNonZero { code: i32 },
}

/// Exit status of the `ssh` client when the transport itself failed.
pub const SSH_TRANSPORT_EXIT: i32 = 255;

/// Exit status of `timeout` when it had to stop the command.
pub const TIMEOUT_EXIT: i32 = 124;

/// What a finished `ssh` invocation means: success, a transport failure (told apart by
/// the client's message), a timeout, or a non-zero exit of the remote command. A client
/// killed by a signal has no exit status and counts as a closed channel.
pub open spec fn shell_outcome(exit: Option<i32>, stderr: Seq<char>) -> Result<(), ShellError> {
    match exit {
        None => Err(ShellError::ChannelClosed),
        Some(0) => Ok(()),
        Some(c) => if c == SSH_TRANSPORT_EXIT {
            if contains(stderr, "Permission denied"@) {
                Err(ShellError::AuthFailed)
            } else if contains(stderr, "timed out"@) {
                Err(ShellError::Timeout)
            } else if contains(stderr, "Could not resolve"@) || contains(stderr, "Connection refused"@)
                || contains(stderr, "No route to host"@) {
                Err(ShellError::ConnectFailed)
            } else {
                Err(ShellError::ChannelClosed)
            }
        } else if c == TIMEOUT_EXIT {
            Err(ShellError::Timeout)
        } else {
            Err(ShellError::RemoteExitNonZero { code: c })
        },
    }
}

/// A failure of the connection rather than of the command: the session must be evicted.
pub open spec fn is_transport(e: ShellError) -> bool {
    !(e is RemoteExitNonZero)
}

/// Classifies a finished `ssh` invocation, as `shell_outcome` states.
pub fn classify_exit(exit: Option<i32>, stderr: &str) -> (r: Result<(), ShellError>)
    ensures
        r == shell_outcome(exit, stderr@),
{
    match exit {
        None => Err(ShellError::ChannelClosed),
        Some(0) => Ok(()),
        Some(c) => if c == SSH_TRANSPORT_EXIT {
            let text = chars_of(stderr);
            if contains_str(&text, "Permission denied") {
                Err(ShellError::AuthFailed)
            } else if contains_str(&text, "timed out") {
                Err(ShellError::Timeout)
            } else if contains_str(&text, "Could not resolve") || contains_str(
                &text,
                "Connection refused",
            ) || contains_str(&text, "No route to host") {
                Err(ShellError::ConnectFailed)
            } else {
                Err(ShellError::ChannelClosed)
            }
        } else if c == TIMEOUT_EXIT {
            Err(ShellError::Timeout)
        } else {
            Err(ShellError::RemoteExitNonZero { code: c })
        },
    }
}

/// Whether a failure calls for evicting the session.
pub fn evicts_session(e: ShellError) -> (r: bool)
    ensures
        r == is_transport(e),
{
    match e {
        ShellError::RemoteExitNonZero { .. } => false,
        _ => true,
    }
}

/// Where a remote shell lives: host, port and user.
pub struct Endpoint {
    pub host: String,
    pub port: u16,
    pub user: String,
}

impl View for Endpoint {
    type V = (Seq<char>, u16, Seq<char>);

    open spec fn view(&self) -> (Seq<char>, u16, Seq<char>) {
        (self.host@, self.port, self.user@)
    }
}

/// Whether two endpoints name the same shell.
pub fn same_endpoint(a: &Endpoint, b: &Endpoint) -> (r: bool)
    ensures
        r == (a@ == b@),
{
    a.port == b.port && a.host == b.host && a.user == b.user
}

/// No two entries share an endpoint.
pub open spec fn keys_unique<S>(entries: Seq<((Seq<char>, u16, Seq<char>), S)>) -> bool {
    forall|i: int, j: int|
        0 <= i < j < entries.len() ==> #[trigger] entries[i].0 != #[trigger] entries[j].0
}

/// Cached shell sessions, at most one per endpoint.
pub struct SessionPool<S> {
    entries: Vec<(Endpoint, S)>,
}

impl<S> SessionPool<S> {
    /// The cached sessions, each with the view of its endpoint, oldest first.
    pub closed spec fn sessions(&self) -> Seq<((Seq<char>, u16, Seq<char>), S)> {
        self.entries@.map_values(|e: (Endpoint, S)| (e.0@, e.1))
    }

    /// No endpoint holds two sessions.
    pub open spec fn wf(&self) -> bool {
        keys_unique(self.sessions())
    }

    pub fn new() -> (r: Self)
        ensures
            r.wf(),
            r.sessions().len() == 0,
    {
        let r = SessionPool { entries: Vec::new() };
        assert(r.sessions() =~= Seq::<((Seq<char>, u16, Seq<char>), S)>::empty());
        r
    }

    pub fn len(&self) -> (r: usize)
        ensures
            r == self.sessions().len(),
    {
        self.entries.len()
    }

    /// Where the session of `ep` sits, if one is cached.
    pub fn position(&self, ep: &Endpoint) -> (r: Option<usize>)
        ensures
            r matches Some(i) ==> i < self.sessions().len() && self.sessions()[i as int].0 == ep@,
            r is None ==> forall|i: int|
                0 <= i < self.sessions().len() ==> #[trigger] self.sessions()[i].0 != ep@,
    {
        let mut i: usize = 0;
        while i < self.entries.len()
            invariant
                i <= self.entries.len(),
                forall|k: int| 0 <= k < i ==> #[trigger] self.sessions()[k].0 != ep@,
            decreases self.entries.len() - i,
        {
            if same_endpoint(&self.entries[i].0, ep) {
                return Some(i);
            }
            i = i + 1;
        }
        None
    }

    /// The session cached for `ep`.
    pub fn get(&self, ep: &Endpoint) -> (r: Option<&S>)
        ensures
            r matches Some(s) ==> exists|i: int|
                0 <= i < self.sessions().len() && #[trigger] self.sessions()[i] == (ep@, *s),
            r is None ==> forall|i: int|
                0 <= i < self.sessions().len() ==> #[trigger] self.sessions()[i].0 != ep@,
    {
        match self.position(ep) {
            Some(i) => {
                assert(self.sessions()[i as int] == (ep@, self.entries@[i as int].1));
                Some(&self.entries[i].1)
            },
            None => None,
        }
    }

    /// Caches `session` for `ep`; a session already cached there is handed back and
    /// replaced.
    pub fn insert(&mut self, ep: Endpoint, session: S) -> (r: Option<S>)
        requires
            old(self).wf(),
        ensures
            final(self).wf(),
            match r {
                Some(prev) => exists|i: int|
                    0 <= i < old(self).sessions().len() && old(self).sessions()[i] == (ep@, prev)
                        && final(self).sessions() == old(self).sessions().remove(i).push(
                        (ep@, session),
                    ),
                None => (forall|i: int|
                    0 <= i < old(self).sessions().len() ==> #[trigger] old(self).sessions()[i].0
                        != ep@) && final(self).sessions() == old(self).sessions().push(
                    (ep@, session),
                ),
            },
    {
        let ghost before = self.sessions();
        let ghost key = ep@;
        let found = self.position(&ep);
        match found {
            Some(i) => {
                let old_entry = self.entries.remove(i);
                assert(self.sessions() =~= before.remove(i as int));
                self.entries.push((ep, session));
                assert(self.sessions() =~= before.remove(i as int).push((key, session)));
                proof {
                    assert forall|a: int, b: int|
                        0 <= a < b < self.sessions().len() implies #[trigger] self.sessions()[a].0
                        != #[trigger] self.sessions()[b].0 by {
                        if b == self.sessions().len() - 1 {
                            let ka = if a < i {
                                a
                            } else {
                                a + 1
                            };
                            assert(self.sessions()[a] == before[ka]);
                            assert(before[ka].0 != before[i as int].0);
                        } else {
                            let ka = if a < i {
                                a
                            } else {
                                a + 1
                            };
                            let kb = if b < i {
                                b
                            } else {
                                b + 1
                            };
                            assert(self.sessions()[a] == before[ka]);
                            assert(self.sessions()[b] == before[kb]);
                        }
                    }
                }
                Some(old_entry.1)
            },
            None => {
                self.entries.push((ep, session));
                assert(self.sessions() =~= before.push((key, session)));
                Option::None
            },
        }
    }

    /// Drops the session cached for `ep`, after an I/O error on it, and hands it back.
    pub fn evict(&mut self, ep: &Endpoint) -> (r: Option<S>)
        requires
            old(self).wf(),
        ensures
            final(self).wf(),
            match r {
                Some(prev) => exists|i: int|
                    0 <= i < old(self).sessions().len() && old(self).sessions()[i] == (ep@, prev)
                        && final(self).sessions() == old(self).sessions().remove(i),
                None => (forall|i: int|
                    0 <= i < old(self).sessions().len() ==> #[trigger] old(self).sessions()[i].0
                        != ep@) && final(self).sessions() == old(self).sessions(),
            },
    {
        let ghost before = self.sessions();
        match self.position(ep) {
            Some(i) => {
                let e = self.entries.remove(i);
                assert(self.sessions() =~= before.remove(i as int));
                proof {
                    assert forall|a: int, b: int|
                        0 <= a < b < self.sessions().len() implies #[trigger] self.sessions()[a].0
                        != #[trigger] self.sessions()[b].0 by {
                        let ka = if a < i {
                            a
                        } else {
                            a + 1
                        };
                        let kb = if b < i {
                            b
                        } else {
                            b + 1
                        };
                        assert(self.sessions()[a] == before[ka]);
                        assert(self.sessions()[b] == before[kb]);
                    }
                }
                Some(e.1)
            },
            None => None,
        }
    }
}

} // verus!
