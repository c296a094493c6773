//! The submit-then-poll lifecycle, response interpretation, payload
//! builders, and the demo scenarios.
use vault_testcase::account::Identity;
use vault_testcase::codec::decode_signed;
use vault_testcase::envelope::build;
use vault_testcase::envelope::sign_and_encode;
use vault_testcase::errors::QueryError;
use vault_testcase::errors::RejectionKind;
use vault_testcase::errors::SubmitError;
use vault_testcase::faucet_client::FaucetClient;
use vault_testcase::managed_coin_client::ManagedCoinClient;
use vault_testcase::payload::ActionPayload;
use vault_testcase::rest_client::await_completion;
use vault_testcase::rest_client::classify_rejection;
use vault_testcase::rest_client::parse_sequence_number;
use vault_testcase::rest_client::resource_from_response;
use vault_testcase::rest_client::poll_event_from_response;
use vault_testcase::rest_client::should_refetch_and_retry;
use vault_testcase::rest_client::submit_response;
use vault_testcase::rest_client::PollEvent;
use vault_testcase::rest_client::Poller;
use vault_testcase::rest_client::RestClient;
use vault_testcase::rest_client::SubmissionOutcome;
use vault_testcase::vault_client::VaultClient;

#[test]
fn url_builders() {
    let rc = RestClient::new("http://node".to_string());
    assert_eq!(rc.account_url("aa"), "http://node/accounts/aa");
    assert_eq!(rc.account_resource_url("aa", "0x1::t::T"), "http://node/accounts/aa/resource/0x1::t::T");
    assert_eq!(rc.transactions_url(), "http://node/transactions");
    assert_eq!(rc.transaction_url("0xh"), "http://node/transactions/0xh");
    let fc = FaucetClient::new("http://faucet".to_string(), rc);
    assert_eq!(
        fc.fund_account_url("abc", 10_000_000),
        "http://faucet/mint?amount=10000000&auth_key=abc"
    );
}

#[test]
fn sequence_number_is_read_from_the_account_response() {
    let body = "{\"sequence_number\":\"17\",\"authentication_key\":\"0xaa\"}";
    assert_eq!(parse_sequence_number(200, body), Ok(17));
    assert_eq!(parse_sequence_number(500, body), Err(QueryError::UnexpectedStatus));
    assert_eq!(parse_sequence_number(200, "not json"), Err(QueryError::MalformedResponse));
    assert_eq!(parse_sequence_number(200, "{}"), Err(QueryError::MalformedResponse));
    // the largest sequence number that fits
    let big = "{\"sequence_number\":\"18446744073709551615\"}";
    assert_eq!(parse_sequence_number(200, big), Ok(u64::MAX));
    // one past it does not
    let too_big = "{\"sequence_number\":\"18446744073709551616\"}";
    assert_eq!(parse_sequence_number(200, too_big), Err(QueryError::MalformedResponse));
}

#[test]
fn submit_responses_are_classified() {
    assert_eq!(submit_response(202, "{\"hash\":\"0xfeed\"}"), Ok("0xfeed".to_string()));
    assert_eq!(submit_response(202, "{}"), Err(SubmitError::MalformedResponse));
    assert_eq!(submit_response(503, "oops"), Err(SubmitError::Transport));
    assert_eq!(submit_response(301, ""), Err(SubmitError::Transport));
    assert_eq!(
        submit_response(400, "{\"message\":\"error: SEQUENCE_NUMBER_TOO_OLD at 0\"}"),
        Err(SubmitError::Rejected(RejectionKind::StaleSequenceNumber))
    );
    assert_eq!(
        submit_response(400, "{\"message\":\"INVALID_SIGNATURE\"}"),
        Err(SubmitError::Rejected(RejectionKind::InvalidSignature))
    );
    assert_eq!(
        submit_response(400, "{\"message\":\"INSUFFICIENT_BALANCE_FOR_TRANSACTION_FEE\"}"),
        Err(SubmitError::Rejected(RejectionKind::InsufficientFunds))
    );
    assert_eq!(
        submit_response(400, "{\"message\":\"MODULE_ADDRESS_DOES_NOT_MATCH_SENDER\"}"),
        Err(SubmitError::Rejected(RejectionKind::ModuleValidation))
    );
    assert_eq!(
        submit_response(400, "{\"message\":\"something else\"}"),
        Err(SubmitError::Rejected(RejectionKind::Other))
    );
    assert_eq!(classify_rejection("no code here"), RejectionKind::Other);
}

#[test]
fn stale_sequence_rejection_is_retryable_once() {
    let stale = SubmitError::Rejected(RejectionKind::StaleSequenceNumber);
    assert!(should_refetch_and_retry(&stale, false));
    assert!(!should_refetch_and_retry(&stale, true));
    assert!(!should_refetch_and_retry(&SubmitError::Transport, false));
    assert!(!should_refetch_and_retry(
        &SubmitError::Rejected(RejectionKind::InvalidSignature),
        false
    ));
}

#[test]
fn resource_responses_distinguish_absence_parse_failure_and_bad_status() {
    assert!(matches!(resource_from_response(404, ""), Ok(None)));
    assert!(matches!(resource_from_response(200, "{\"data\":{}}"), Ok(Some(_))));
    assert!(matches!(
        resource_from_response(200, "not json"),
        Err(QueryError::MalformedResponse)
    ));
    assert!(matches!(resource_from_response(500, "{}"), Err(QueryError::UnexpectedStatus)));
}

#[test]
fn committed_failure_reason_defaults_to_empty_without_vm_status() {
    assert_eq!(
        poll_event_from_response(200, "{\"type\":\"user_transaction\",\"success\":false}"),
        PollEvent::CommittedFailure { reason: String::new() }
    );
    // a 2xx body without the expected fields is a transport failure for the
    // attempt, never a fabricated terminal state
    assert_eq!(poll_event_from_response(200, "{}"), PollEvent::TransportFailure);
    assert_eq!(poll_event_from_response(200, "not json"), PollEvent::TransportFailure);
}

#[test]
fn poll_events_are_read_from_status_responses() {
    assert_eq!(poll_event_from_response(404, ""), PollEvent::NotFound);
    assert_eq!(poll_event_from_response(500, ""), PollEvent::TransportFailure);
    assert_eq!(
        poll_event_from_response(200, "{\"type\":\"pending_transaction\"}"),
        PollEvent::Pending
    );
    assert_eq!(
        poll_event_from_response(200, "{\"type\":\"user_transaction\",\"success\":true}"),
        PollEvent::CommittedSuccess
    );
    assert_eq!(
        poll_event_from_response(
            200,
            "{\"type\":\"user_transaction\",\"success\":false,\"vm_status\":\"out of gas\"}"
        ),
        PollEvent::CommittedFailure { reason: "out of gas".to_string() }
    );
}

#[test]
fn await_completion_returns_the_first_terminal_status() {
    let events = vec![
        PollEvent::NotFound,
        PollEvent::Pending,
        PollEvent::TransportFailure,
        PollEvent::CommittedSuccess,
        PollEvent::CommittedFailure { reason: "later".to_string() },
    ];
    assert_eq!(await_completion(&events, 10), SubmissionOutcome::CommittedSuccess);
    // the budget is respected: four attempts see no terminal state
    assert_eq!(await_completion(&events, 3), SubmissionOutcome::TimedOut);
    // a failure is reported with its reason
    let failing = vec![PollEvent::Pending, PollEvent::CommittedFailure { reason: "abort".to_string() }];
    assert_eq!(
        await_completion(&failing, 5),
        SubmissionOutcome::CommittedFailure { reason: "abort".to_string() }
    );
}

#[test]
fn await_completion_is_idempotent_after_a_terminal_state() {
    // once the node reports a terminal state it keeps reporting it; polling
    // again returns the same outcome
    let events = vec![PollEvent::CommittedSuccess];
    let first = await_completion(&events, 5);
    let second = await_completion(&events, 3);
    assert_eq!(first, SubmissionOutcome::CommittedSuccess);
    assert_eq!(first, second);
}

#[test]
fn zero_attempts_time_out_without_any_query() {
    let events = vec![PollEvent::CommittedSuccess];
    assert_eq!(await_completion(&events, 0), SubmissionOutcome::TimedOut);
    let poller = Poller::new(0);
    assert!(!poller.should_query());
    assert_eq!(poller.finish(), SubmissionOutcome::TimedOut);
}

#[test]
fn poller_walks_the_lifecycle() {
    let mut poller = Poller::new(3);
    assert!(poller.should_query());
    poller.observe(PollEvent::NotFound);
    assert!(poller.should_query());
    poller.observe(PollEvent::CommittedSuccess);
    assert!(!poller.should_query());
    assert_eq!(poller.finish(), SubmissionOutcome::CommittedSuccess);
    let mut exhausted = Poller::new(1);
    exhausted.observe(PollEvent::Pending);
    assert!(!exhausted.should_query());
    assert_eq!(exhausted.finish(), SubmissionOutcome::TimedOut);
}

#[test]
fn payload_builders_carry_the_exact_fields() {
    let rc = RestClient::new("http://node".to_string());
    let mc = ManagedCoinClient::new(rc);
    match mc.initialize_coin("ad") {
        ActionPayload::ScriptFunction { function, type_arguments, arguments } => {
            assert_eq!(function, "0x1::managed_coin::initialize");
            assert_eq!(type_arguments, vec!["0xad::Vault::ManagedCoin".to_string()]);
            assert_eq!(
                arguments,
                vec![
                    hex::encode("Moon Coin".as_bytes()),
                    hex::encode("MOON".as_bytes()),
                    "6".to_string(),
                    "false".to_string(),
                ]
            );
        },
        _ => panic!("expected a script function payload"),
    }
    match mc.register_coin("ad") {
        ActionPayload::ScriptFunction { function, type_arguments, arguments } => {
            assert_eq!(function, "0x1::coin::register");
            assert_eq!(type_arguments, vec!["0xad::Vault::ManagedCoin".to_string()]);
            assert!(arguments.is_empty());
        },
        _ => panic!("expected a script function payload"),
    }
    match mc.mint_coin("ad", "bb", 100) {
        ActionPayload::ScriptFunction { function, type_arguments, arguments } => {
            assert_eq!(function, "0x1::managed_coin::mint");
            assert_eq!(type_arguments, vec!["0xad::Vault::ManagedCoin".to_string()]);
            assert_eq!(arguments, vec!["bb".to_string(), "100".to_string()]);
        },
        _ => panic!("expected a script function payload"),
    }
    assert_eq!(
        ManagedCoinClient::balance_resource_type("ad"),
        "0x1::coin::CoinStore<0xad::Vault::ManagedCoin>"
    );
    let vc = VaultClient::new("http://node".to_string());
    match vc.unpause_vault("cc") {
        ActionPayload::ScriptFunction { function, type_arguments, arguments } => {
            assert_eq!(function, "0xcc::Vault::unpause_vault");
            assert!(type_arguments.is_empty());
            assert!(arguments.is_empty());
        },
        _ => panic!("expected a script function payload"),
    }
    match vc.withdraw("cc", 5) {
        ActionPayload::ScriptFunction { function, arguments, .. } => {
            assert_eq!(function, "0xcc::Vault::withdraw");
            assert_eq!(arguments, vec!["5".to_string(), "cc".to_string()]);
        },
        _ => panic!("expected a script function payload"),
    }
    assert_eq!(VaultClient::vault_resource_type("cc"), "0xcc::Vault::VaultHolder");
}

#[test]
fn missing_resource_is_absence_not_an_error() {
    let vc = VaultClient::new("http://node".to_string());
    assert_eq!(vc.get_pause_status(404, ""), Ok(None));
    let mc = ManagedCoinClient::new(RestClient::new("http://node".to_string()));
    assert_eq!(mc.get_balance(404, ""), Ok(None));
    // a present resource is read; an unreadable body is an error, not absence
    assert_eq!(
        vc.get_pause_status(200, "{\"data\":{\"paused\":true}}"),
        Ok(Some(true))
    );
    assert_eq!(vc.get_pause_status(200, "{\"data\":{}}"), Err(QueryError::MalformedResponse));
    assert_eq!(vc.get_pause_status(500, ""), Err(QueryError::UnexpectedStatus));
}

#[test]
fn balance_is_read_from_the_coin_store() {
    let mc = ManagedCoinClient::new(RestClient::new("http://node".to_string()));
    let body = "{\"data\":{\"coin\":{\"value\":\"100\"}}}";
    assert_eq!(mc.get_balance(200, body), Ok(Some(100)));
    assert_eq!(
        mc.get_balance(200, "{\"data\":{\"coin\":{\"value\":\"1e3\"}}}"),
        Err(QueryError::MalformedResponse)
    );
}

/// A minimal node: tracks the expected sequence number per run and answers
/// submissions by decoding the wire bytes with the library's own node-side
/// decoder.
fn node_submit(expected_seq: &mut u64, bytes: &Vec<u8>) -> (u16, String) {
    let se = decode_signed(bytes).expect("the node receives well-formed wire bytes");
    if se.envelope.sequence_number != *expected_seq {
        (400, "{\"message\":\"mempool: SEQUENCE_NUMBER_TOO_OLD\"}".to_string())
    } else {
        *expected_seq += 1;
        (202, format!("{{\"hash\":\"0xhash{}\"}}", se.envelope.sequence_number))
    }
}

#[test]
fn fresh_identity_submits_at_zero_and_stale_sequence_is_rejected() {
    let mut expected: u64 = 0;
    let mut admin = Identity::create(Some(vec![11u8; 32])).unwrap();
    assert_eq!(admin.sequence_number(), 0);
    let vc = VaultClient::new("http://node".to_string());
    let addr = admin.address();

    // sequence number 0 succeeds
    let env = build(&admin, admin.sequence_number(), vc.pause_vault(&addr), 600).unwrap();
    let bytes = sign_and_encode(env, &admin);
    let (st, body) = node_submit(&mut expected, &bytes);
    let hash = submit_response(st, &body).unwrap();
    assert_eq!(hash, "0xhash0");

    // a second envelope with sequence number 0 is rejected as stale
    let env0 = build(&admin, 0, vc.pause_vault(&addr), 600).unwrap();
    let bytes0 = sign_and_encode(env0, &admin);
    let (st, body) = node_submit(&mut expected, &bytes0);
    let err = submit_response(st, &body).unwrap_err();
    assert_eq!(err, SubmitError::Rejected(RejectionKind::StaleSequenceNumber));
    assert!(should_refetch_and_retry(&err, false));

    // sequence number 1 succeeds
    admin.increment_sequence_number();
    let env1 = build(&admin, admin.sequence_number(), vc.unpause_vault(&addr), 600).unwrap();
    let bytes1 = sign_and_encode(env1, &admin);
    let (st, body) = node_submit(&mut expected, &bytes1);
    assert_eq!(submit_response(st, &body), Ok("0xhash1".to_string()));
}

#[test]
fn funding_reflects_in_the_balance_after_commit() {
    // fund identity A with 10,000,000 units through the faucet target
    let rc = RestClient::new("http://node".to_string());
    let a = Identity::create(Some(vec![12u8; 32])).unwrap();
    let fc = FaucetClient::new("http://faucet".to_string(), rc);
    let url = fc.fund_account_url(&a.authentication_key(), 10_000_000);
    assert_eq!(
        url,
        format!("http://faucet/mint?amount=10000000&auth_key={}", a.authentication_key())
    );
    // the funding transaction reaches Committed-Success
    let events = vec![PollEvent::Pending, PollEvent::Pending, PollEvent::CommittedSuccess];
    assert_eq!(await_completion(&events, 10), SubmissionOutcome::CommittedSuccess);
    // a balance query on A then reflects the funded amount
    let mc = ManagedCoinClient::new(RestClient::new("http://node".to_string()));
    let body = "{\"data\":{\"coin\":{\"value\":\"10000000\"}}}";
    assert_eq!(mc.get_balance(200, body), Ok(Some(10_000_000)));
}
