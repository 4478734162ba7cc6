use ckbtc_management::call_error::{call_outcome, CallError, Reason, RejectionCode};

#[test]
fn from_reject_classifies_codes() {
    let msg = || "boom".to_string();
    assert_eq!(Reason::from_reject(RejectionCode::SysTransient, msg()), Reason::QueueIsFull);
    assert_eq!(Reason::from_reject(RejectionCode::CanisterError, msg()), Reason::OutOfCycles);
    assert_eq!(
        Reason::from_reject(RejectionCode::CanisterReject, msg()),
        Reason::Rejected("boom".to_string())
    );
    for code in [
        RejectionCode::NoError,
        RejectionCode::SysFatal,
        RejectionCode::DestinationInvalid,
        RejectionCode::Unknown,
    ] {
        assert_eq!(Reason::from_reject(code, msg()), Reason::QueueIsFull);
    }
}

#[test]
fn reason_messages() {
    assert_eq!(Reason::QueueIsFull.to_string(), "the canister queue is full");
    assert_eq!(Reason::OutOfCycles.to_string(), "the canister is out of cycles");
    assert_eq!(
        Reason::Rejected("no cycles".to_string()).to_string(),
        "the management canister rejected the call: no cycles"
    );
}

#[test]
fn call_error_accessors_and_message() {
    let err = CallError::new("sign_with_ecdsa", Reason::OutOfCycles);
    assert_eq!(err.method(), "sign_with_ecdsa");
    assert_eq!(err.reason(), &Reason::OutOfCycles);
    assert_eq!(
        err.to_string(),
        "management call 'sign_with_ecdsa' failed: the canister is out of cycles"
    );
    let err = CallError::new("bitcoin_get_utxos", Reason::Rejected("bad".to_string()));
    assert_eq!(
        err.to_string(),
        "management call 'bitcoin_get_utxos' failed: the management canister rejected the call: bad"
    );
}

#[test]
fn call_outcome_passes_output_through() {
    let res: Result<u32, CallError> = call_outcome("m", Ok(7));
    assert_eq!(res, Ok(7));
}

#[test]
fn call_outcome_maps_rejection() {
    let res: Result<u32, CallError> = call_outcome(
        "bitcoin_send_transaction",
        Err((RejectionCode::CanisterReject, "too large".to_string())),
    );
    let err = res.unwrap_err();
    assert_eq!(err.method(), "bitcoin_send_transaction");
    assert_eq!(err.reason(), &Reason::Rejected("too large".to_string()));

    let res: Result<(), CallError> =
        call_outcome("sign_with_ecdsa", Err((RejectionCode::SysTransient, "full".to_string())));
    assert_eq!(res.unwrap_err().reason(), &Reason::QueueIsFull);
}

#[test]
fn distinct_reasons_have_distinct_texts() {
    let reasons = [
        Reason::QueueIsFull,
        Reason::OutOfCycles,
        Reason::Rejected(String::new()),
        Reason::Rejected("a".to_string()),
        Reason::Rejected("the canister queue is full".to_string()),
    ];
    for (i, r1) in reasons.iter().enumerate() {
        for (j, r2) in reasons.iter().enumerate() {
            assert_eq!(r1.to_string() == r2.to_string(), i == j);
        }
    }
}
