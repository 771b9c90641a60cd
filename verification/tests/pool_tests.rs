use rust_tok::error::TikTokError;
use rust_tok::pool::{build_profile, SessionPool};
use rust_tok::types::{SessionConfig, TikTokApiConfig};

fn config() -> SessionConfig {
    SessionConfig {
        user_agent: None,
        language: "en-US".to_string(),
        platform: "Windows".to_string(),
        timezone: "America/New_York".to_string(),
        screen_width: 1920,
        screen_height: 1080,
        ms_token: None,
        proxy: None,
        cookies: None,
    }
}

fn pool_of(n: usize) -> SessionPool {
    let mut configs = Vec::new();
    for _ in 0..n {
        configs.push(config());
    }
    SessionPool::new(configs)
}

#[test]
fn checkout_release_balance() {
    let mut pool = pool_of(3);
    assert_eq!(pool.capacity(), 3);
    assert_eq!(pool.outstanding(), 0);

    let a = pool.try_checkout(None).unwrap();
    let b = pool.try_checkout(None).unwrap();
    let c = pool.try_checkout(None).unwrap();
    assert_eq!(pool.outstanding(), 3);
    // three distinct slots: no session is double-leased
    assert!(a != b && b != c && a != c);

    match pool.try_checkout(None) {
        Err(TikTokError::PoolExhausted) => (),
        other => panic!("expected PoolExhausted, got {:?}", other),
    }
    assert_eq!(pool.outstanding(), 3);

    pool.release(b);
    assert_eq!(pool.outstanding(), 2);
    let again = pool.try_checkout(None).unwrap();
    assert_eq!(again, b);
    pool.release(a);
    pool.release(again);
    pool.release(c);
    assert_eq!(pool.outstanding(), 0);
}

#[test]
fn preferred_checkout() {
    let mut pool = pool_of(2);
    let got = pool.try_checkout(Some(1)).unwrap();
    assert_eq!(got, 1);
    assert!(pool.is_leased(1));
    assert!(!pool.is_leased(0));

    // the preferred slot is busy: the caller must wait and retry
    match pool.try_checkout(Some(1)) {
        Err(TikTokError::PoolExhausted) => (),
        other => panic!("expected PoolExhausted, got {:?}", other),
    }

    // an index outside the pool is rejected outright
    match pool.try_checkout(Some(7)) {
        Err(TikTokError::Other(_)) => (),
        other => panic!("expected Other, got {:?}", other),
    }

    pool.release(1);
    assert!(!pool.is_leased(1));
}

#[test]
fn failure_paths_keep_balance() {
    // a request that fails still releases its lease, whatever the order
    let mut pool = pool_of(2);
    for _ in 0..10 {
        let i = pool.try_checkout(None).unwrap();
        // simulated request failure: the lease is still returned
        pool.release(i);
        assert_eq!(pool.outstanding(), 0);
    }
    let x = pool.try_checkout(None).unwrap();
    let y = pool.try_checkout(None).unwrap();
    pool.release(y);
    pool.release(x);
    assert_eq!(pool.outstanding(), 0);
}

#[test]
fn profile_defaults() {
    let cfg = TikTokApiConfig::default();
    assert_eq!(cfg.num_sessions, 5);
    assert!(cfg.headless);
    assert_eq!(cfg.base_url, "https://www.tiktok.com");

    let profile = build_profile(&cfg);
    assert_eq!(profile.language, "en-US");
    assert_eq!(profile.platform, "Windows");
    assert_eq!(profile.timezone, "America/New_York");
    assert_eq!(profile.screen_width, 1920);
    assert_eq!(profile.screen_height, 1080);
    assert!(profile.ms_token.is_none());
    assert!(profile.proxy.is_none());
}

#[test]
fn profile_samples_configured_pools() {
    let cfg = TikTokApiConfig {
        ms_tokens: Some(vec!["tok1".to_string(), "tok2".to_string()]),
        proxies: Some(vec!["proxy://one".to_string()]),
        ..TikTokApiConfig::default()
    };
    let profile = build_profile(&cfg);
    let t = profile.ms_token.expect("a token must be sampled");
    assert!(t == "tok1" || t == "tok2");
    assert_eq!(profile.proxy.as_deref(), Some("proxy://one"));
}
