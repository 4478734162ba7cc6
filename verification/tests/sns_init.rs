use ckbtc_management::sns_init::{InitialTokenDistribution, SnsInitPayload, TokenDistribution};
use std::collections::HashMap;

#[test]
fn payload_holds_its_distribution() {
    let mut developers = HashMap::new();
    developers.insert(
        "x4vjn-rrapj-c2kqe-a6m2b-7pzdl-ntmc4-riutz-5bylw-2q2bh-ds5h2-lae".to_string(),
        250_000_000u64,
    );
    let mut treasury = HashMap::new();
    treasury.insert(
        "fod6j-klqsi-ljm4t-7v54x-2wd6s-6yduy-spdkk-d2vd4-iet7k-nakfi-qqe".to_string(),
        100_000_000u64,
    );
    let distribution = InitialTokenDistribution {
        developers: Some(TokenDistribution { total_e8s: 500_000_000, distributions: developers }),
        treasury: Some(TokenDistribution { total_e8s: 500_000_000, distributions: treasury }),
        swap: 1_000_000_000,
    };
    let payload = SnsInitPayload {
        transaction_fee_e8s: Some(10_000),
        token_name: Some("Bitcoin".to_string()),
        token_symbol: Some("BTC".to_string()),
        initial_token_distribution: Some(distribution.clone()),
        ..Default::default()
    };
    assert_eq!(payload.clone(), payload);
    assert_eq!(payload.initial_token_distribution, Some(distribution));
    assert_eq!(payload.min_participants, None);
    assert_ne!(payload, SnsInitPayload::default());
}
