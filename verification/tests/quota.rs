use mimo_bridge::{
    check_quota_status, read_quota_reply, read_quota_reply_at, BridgeError, QuotaData,
    QuotaEnvelope, QuotaError, QuotaSnapshot, Status, UsageRatio,
};

fn plain(level: u64, credit_amount: u64, used_amount: u64, abnormal: Option<u8>) -> QuotaData {
    QuotaData {
        level,
        level_name: None,
        expire_time: None,
        auto_renewal: None,
        credit_amount,
        used_amount,
        credit_expire_time: 1,
        can_upgrade: true,
        abnormal,
    }
}

fn ratio(usage: UsageRatio) -> f64 {
    usage.numerator as f64 / usage.denominator as f64
}

#[test]
fn quota_snapshot_matches_official_remaining_and_low_threshold() {
    let snapshot = QuotaData {
        level: 20_000,
        level_name: Some("加强".into()),
        expire_time: Some(1_796_140_799_999),
        auto_renewal: Some(false),
        credit_amount: 34_000,
        used_amount: 28_000,
        credit_expire_time: 1_790_870_399_999,
        can_upgrade: false,
        abnormal: None,
    }
    .into_snapshot();

    assert_eq!(snapshot.points_remaining, 6_000);
    assert_eq!(snapshot.membership_type.as_deref(), Some("professional"));
    assert_eq!(snapshot.status, "low");
}

#[test]
fn quota_snapshot_clamps_overspend_to_zero() {
    let snapshot = QuotaData {
        level: 0,
        level_name: None,
        expire_time: None,
        auto_renewal: None,
        credit_amount: 100,
        used_amount: 120,
        credit_expire_time: 1,
        can_upgrade: true,
        abnormal: Some(0),
    }
    .into_snapshot();

    assert_eq!(snapshot.points_remaining, 0);
    assert_eq!(ratio(snapshot.usage_ratio), 1.0);
    assert_eq!(snapshot.status, "exhausted");
}

#[test]
fn snapshot_holds_every_number_of_the_reply() {
    let snapshot = QuotaData {
        level: 5_000,
        level_name: Some("Starter".into()),
        expire_time: Some(-7),
        auto_renewal: Some(true),
        credit_amount: 400,
        used_amount: 100,
        credit_expire_time: 99,
        can_upgrade: true,
        abnormal: Some(2),
    }
    .into_snapshot_at(1_234);
    assert_eq!(
        snapshot,
        QuotaSnapshot {
            membership_level: 5_000,
            membership_level_name: Some("Starter".into()),
            membership_type: Some("starter".into()),
            membership_expire_at: Some(-7),
            auto_renewal: Some(true),
            points_limit: 400,
            points_used: 100,
            points_remaining: 300,
            usage_ratio: UsageRatio { numerator: 100, denominator: 400 },
            quota_reset_at: 99,
            can_upgrade: true,
            abnormal: false,
            status: "available".into(),
            observed_at: 1_234,
        }
    );
    assert_eq!(ratio(snapshot.usage_ratio), 0.25);
}

#[test]
fn snapshot_is_taken_now() {
    let snapshot = plain(0, 10, 0, None).into_snapshot();
    // The start of 2020 and of 2120, in milliseconds.
    assert!(snapshot.observed_at > 1_577_836_800_000);
    assert!(snapshot.observed_at < 4_733_510_400_000);
}

#[test]
fn low_starts_under_a_fifth() {
    assert_eq!(plain(0, 100, 80, None).into_snapshot_at(0).status, "available");
    assert_eq!(plain(0, 100, 81, None).into_snapshot_at(0).status, "low");
    assert_eq!(plain(0, 100, 99, None).into_snapshot_at(0).status, "low");
    assert_eq!(plain(0, 100, 100, None).into_snapshot_at(0).status, "exhausted");
}

#[test]
fn huge_limits_do_not_overflow() {
    let snapshot = plain(0, u64::MAX, 1, None).into_snapshot_at(0);
    assert_eq!(snapshot.points_remaining, u64::MAX - 1);
    assert_eq!(snapshot.status, "available");
    let snapshot = plain(0, u64::MAX, u64::MAX - 1, None).into_snapshot_at(0);
    assert_eq!(snapshot.status, "low");
}

#[test]
fn empty_limit_is_exhausted() {
    let snapshot = plain(0, 0, 0, None).into_snapshot_at(0);
    assert_eq!(snapshot.status, "exhausted");
    assert_eq!(ratio(snapshot.usage_ratio), 1.0);
}

#[test]
fn abnormal_account_is_available() {
    let snapshot = plain(0, 100, 120, Some(1)).into_snapshot_at(0);
    assert!(snapshot.abnormal);
    assert_eq!(snapshot.status, "available");
    assert_eq!(snapshot.points_remaining, 0);
}

#[test]
fn levels_name_memberships() {
    let of = |level: u64| plain(level, 1, 0, None).into_snapshot_at(0).membership_type;
    assert_eq!(of(0).as_deref(), Some("free"));
    assert_eq!(of(5_000).as_deref(), Some("starter"));
    assert_eq!(of(10_000).as_deref(), Some("standard"));
    assert_eq!(of(20_000).as_deref(), Some("professional"));
    assert_eq!(of(30_000).as_deref(), Some("ultimate"));
    assert_eq!(of(1), None);
}

#[test]
fn envelope_with_a_code_is_refused() {
    let envelope = QuotaEnvelope { code: -12, data: Some(plain(0, 1, 0, None)) };
    assert_eq!(
        envelope.into_result(),
        Err(BridgeError::Proxy("quota endpoint returned code -12".into()))
    );
    let envelope = QuotaEnvelope { code: i64::MIN, data: None };
    assert_eq!(
        envelope.into_result_at(0),
        Err(BridgeError::Proxy(
            "quota endpoint returned code -9223372036854775808".into()
        ))
    );
}

#[test]
fn envelope_without_data_is_refused() {
    let envelope = QuotaEnvelope { code: 0, data: None };
    assert_eq!(
        envelope.into_result(),
        Err(BridgeError::Proxy("quota endpoint returned no data".into()))
    );
}

#[test]
fn envelope_with_data_is_read() {
    let envelope = QuotaEnvelope { code: 0, data: Some(plain(0, 10, 4, None)) };
    let snapshot = envelope.into_result().unwrap();
    assert_eq!(snapshot.points_remaining, 6);
    let envelope = QuotaEnvelope { code: 0, data: Some(plain(0, 10, 4, None)) };
    assert_eq!(envelope.into_result_at(8).unwrap().observed_at, 8);
}

#[test]
fn quota_status_must_be_a_success() {
    assert_eq!(check_quota_status(&Status::from_u16(200).unwrap()), Ok(()));
    assert_eq!(check_quota_status(&Status::from_u16(299).unwrap()), Ok(()));
    assert_eq!(
        check_quota_status(&Status::from_u16(404).unwrap()),
        Err(BridgeError::Proxy("quota endpoint returned 404 Not Found".into()))
    );
    assert_eq!(
        check_quota_status(&Status::from_u16(300).unwrap()),
        Err(BridgeError::Proxy(
            "quota endpoint returned 300 Multiple Choices".into()
        ))
    );
    assert_eq!(
        check_quota_status(&Status::from_u16(799).unwrap()),
        Err(BridgeError::Proxy(
            "quota endpoint returned 799 <unknown status code>".into()
        ))
    );
}

#[test]
fn status_codes_have_three_digits() {
    assert_eq!(Status::from_u16(99), None);
    assert_eq!(Status::from_u16(1000), None);
    assert_eq!(Status::from_u16(100).unwrap().as_u16(), 100);
    assert_eq!(Status::from_u16(999).unwrap().as_u16(), 999);
    assert!(Status::from_u16(401).unwrap().is_unauthorized());
    assert!(!Status::from_u16(403).unwrap().is_unauthorized());
}

fn envelope(code: i64) -> QuotaEnvelope {
    QuotaEnvelope { code, data: Some(plain(0, 10, 4, None)) }
}

fn refused(message: &str) -> QuotaError<&'static str> {
    QuotaError::Bridge(BridgeError::Proxy(message.into()))
}

#[test]
fn refused_status_wins_over_any_body() {
    let status = Status::from_u16(503).unwrap();
    let error = "quota endpoint returned 503 Service Unavailable";
    assert_eq!(read_quota_reply(&status, Ok(envelope(0))), Err(refused(error)));
    assert_eq!(read_quota_reply(&status, Ok(envelope(7))), Err(refused(error)));
    assert_eq!(read_quota_reply(&status, Err("not json")), Err(refused(error)));
    assert_eq!(read_quota_reply_at(&status, Err("not json"), 1), Err(refused(error)));
}

#[test]
fn accepted_reply_is_read_in_order() {
    let status = Status::from_u16(200).unwrap();
    assert_eq!(
        read_quota_reply(&status, Err("not json")),
        Err(QuotaError::Undecoded("not json"))
    );
    assert_eq!(
        read_quota_reply(&status, Ok(QuotaEnvelope { code: 7, data: None })),
        Err(refused("quota endpoint returned code 7"))
    );
    assert_eq!(
        read_quota_reply(&status, Ok(QuotaEnvelope { code: 0, data: None })),
        Err(refused("quota endpoint returned no data"))
    );
    let snapshot = read_quota_reply_at::<&str>(&status, Ok(envelope(0)), 3).unwrap();
    assert_eq!((snapshot.points_remaining, snapshot.observed_at), (6, 3));
    let snapshot = read_quota_reply::<&str>(&status, Ok(envelope(0))).unwrap();
    assert_eq!(snapshot.points_remaining, 6);
}

#[test]
fn spending_never_helps() {
    let rank = |status: &str| ["available", "low", "exhausted"].iter().position(|s| *s == status);
    let snapshots: Vec<QuotaSnapshot> =
        [0, 40, 79, 80, 81, 99, 100, 101, 500].iter()
            .map(|used| plain(0, 100, *used, None).into_snapshot_at(0))
            .collect();
    for pair in snapshots.windows(2) {
        assert!(pair[1].points_remaining <= pair[0].points_remaining);
        assert!(ratio(pair[0].usage_ratio) <= ratio(pair[1].usage_ratio));
        assert!(rank(&pair[0].status) <= rank(&pair[1].status));
    }
}
