use retainer::commands::ping::ping;

#[test]
fn ping_reports_latency() {
    let reply = ping(1_700_000_000_500, 1_700_000_000_000);
    assert_eq!(reply.content, "\u{1F3D3} Pong!\n\n-# Responded in `500ms`");
    assert!(reply.ephemeral);
}

#[test]
fn ping_latency_saturates_at_zero() {
    assert_eq!(ping(1000, 2000).content, "\u{1F3D3} Pong!\n\n-# Responded in `0ms`");
    assert_eq!(ping(1000, -5).content, "\u{1F3D3} Pong!\n\n-# Responded in `0ms`");
    assert_eq!(ping(u128::MAX, -1).content, "\u{1F3D3} Pong!\n\n-# Responded in `0ms`");
    assert_eq!(ping(u128::MAX, -2).content, "\u{1F3D3} Pong!\n\n-# Responded in `1ms`");
}
