use validator_switch::pool::{
    classify_exit, evicts_session, same_endpoint, Endpoint, SessionPool, ShellError,
};

fn ep(host: &str, port: u16, user: &str) -> Endpoint {
    Endpoint { host: host.to_string(), port, user: user.to_string() }
}

#[test]
fn one_session_per_endpoint() {
    let mut pool: SessionPool<u32> = SessionPool::new();
    assert_eq!(pool.insert(ep("h1", 22, "sol"), 1), None);
    assert_eq!(pool.insert(ep("h2", 22, "sol"), 2), None);
    assert_eq!(pool.insert(ep("h1", 2222, "sol"), 3), None);
    assert_eq!(pool.len(), 3);
    assert_eq!(pool.insert(ep("h1", 22, "sol"), 4), Some(1));
    assert_eq!(pool.len(), 3);
    assert_eq!(pool.get(&ep("h1", 22, "sol")), Some(&4));
    assert_eq!(pool.get(&ep("h1", 22, "root")), None);
}

#[test]
fn evicted_sessions_are_gone() {
    let mut pool: SessionPool<String> = SessionPool::new();
    pool.insert(ep("h1", 22, "sol"), "s1".to_string());
    assert_eq!(pool.evict(&ep("h1", 22, "sol")), Some("s1".to_string()));
    assert_eq!(pool.evict(&ep("h1", 22, "sol")), None);
    assert_eq!(pool.get(&ep("h1", 22, "sol")), None);
    assert_eq!(pool.len(), 0);
    assert!(same_endpoint(&ep("a", 1, "b"), &ep("a", 1, "b")));
    assert!(!same_endpoint(&ep("a", 1, "b"), &ep("a", 2, "b")));
}

#[test]
fn exits_are_classified() {
    assert_eq!(classify_exit(Some(0), ""), Ok(()));
    assert_eq!(classify_exit(Some(255), "user@h: Permission denied (publickey)."), Err(ShellError::AuthFailed));
    assert_eq!(classify_exit(Some(255), "ssh: connect to host h port 22: Connection timed out"), Err(ShellError::Timeout));
    assert_eq!(classify_exit(Some(255), "ssh: connect to host h port 22: Connection refused"), Err(ShellError::ConnectFailed));
    assert_eq!(classify_exit(Some(255), "Connection to h closed by remote host."), Err(ShellError::ChannelClosed));
    assert_eq!(classify_exit(Some(124), ""), Err(ShellError::Timeout));
    assert_eq!(classify_exit(Some(2), "No such file"), Err(ShellError::RemoteExitNonZero { code: 2 }));
    assert_eq!(classify_exit(None, ""), Err(ShellError::ChannelClosed));
    assert!(evicts_session(ShellError::Timeout));
    assert!(!evicts_session(ShellError::RemoteExitNonZero { code: 1 }));
}
