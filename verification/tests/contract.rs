use executor::{DataKey, ExecError, ExecutionRequested, Executor, ExecutorTrait};
use soroban_sdk::testutils::{Address as AddressUtils, EnvTestConfig, Ledger as LedgerUtils};
use soroban_sdk::{Address, Bytes, BytesN, Env, Symbol};

// ---------------------- Helpers ----------------------

fn new_env() -> Env {
    Env::new_with_config(EnvTestConfig {
        capture_snapshot_at_drop: false,
    })
}

fn address(env: &Env) -> Address {
    <Address as AddressUtils>::generate(env)
}

fn register_executor(chain_id: u32) -> Executor {
    let mut executor = Executor::load(None);
    assert_eq!(executor.init(chain_id), Ok(()));
    executor
}

fn mk_signed_quote(env: &Env, src_chain: u16, dst_chain: u16, expiry_delta_secs: i64) -> Bytes {
    let mut q = Bytes::new(env);
    q.append(&Bytes::from_array(env, b"EQ01"));
    q.append(&Bytes::from_array(env, &[0u8; 32]));
    q.append(&Bytes::from_array(env, &[1u8; 32]));
    q.append(&Bytes::from_array(env, &src_chain.to_be_bytes()));
    q.append(&Bytes::from_array(env, &dst_chain.to_be_bytes()));
    let expiry = (env.ledger().timestamp() as i64 + expiry_delta_secs) as u64;
    q.append(&Bytes::from_array(env, &expiry.to_be_bytes()));
    q
}

fn mk_badprefix_signed_quote(env: &Env) -> Bytes {
    let mut q = Bytes::new(env);
    q.append(&Bytes::from_array(env, b"BAD!"));
    q.append(&Bytes::from_array(env, &[0u8; 32]));
    q.append(&Bytes::from_array(env, &[1u8; 32]));
    q.append(&Bytes::from_array(env, &(1u16).to_be_bytes()));
    q.append(&Bytes::from_array(env, &(2u16).to_be_bytes()));
    let expiry = env.ledger().timestamp() + 600;
    q.append(&Bytes::from_array(env, &expiry.to_be_bytes()));
    q
}

fn mk_request(env: &Env) -> Bytes {
    let mut r = Bytes::new(env);
    r.append(&Bytes::from_array(env, b"ERV1"));
    r.append(&Bytes::from_array(env, &[0u8; 36]));
    r
}

fn mk_badprefix_request(env: &Env) -> Bytes {
    let mut r = Bytes::new(env);
    r.append(&Bytes::from_array(env, b"BAD!"));
    r.append(&Bytes::from_array(env, &[0u8; 36]));
    r
}

fn request_to(
    executor: &Executor,
    env: &Env,
    dst_chain: u32,
    dst_addr: [u8; 32],
    signed_quote: &Bytes,
    request: &Bytes,
) -> Result<ExecutionRequested, ExecError> {
    executor.request_execution(
        env.clone(),
        dst_chain,
        BytesN::<32>::from_array(env, &dst_addr),
        address(env),
        address(env),
        None,
        None,
        signed_quote.clone(),
        request.clone(),
        None,
    )
}

fn request(
    executor: &Executor,
    env: &Env,
    dst_chain: u32,
    signed_quote: &Bytes,
    request: &Bytes,
) -> Result<ExecutionRequested, ExecError> {
    request_to(executor, env, dst_chain, [7u8; 32], signed_quote, request)
}

fn request_at(
    executor: &Executor,
    env: &Env,
    now: u64,
    dst_chain: u32,
    signed_quote: &Bytes,
    request: &Bytes,
) -> Result<ExecutionRequested, ExecError> {
    executor.request_execution_at(
        env.clone(),
        now,
        dst_chain,
        BytesN::<32>::from_array(env, &[7u8; 32]),
        address(env),
        address(env),
        None,
        None,
        signed_quote.clone(),
        request.clone(),
        None,
    )
}

fn refusal(r: Result<ExecutionRequested, ExecError>) -> ExecError {
    match r {
        Ok(_) => panic!("the request was accepted"),
        Err(e) => e,
    }
}

// ---------------------- Initialization ----------------------

#[test]
fn init_and_chain_id_roundtrip() {
    let executor = register_executor(1234u32);
    let got = executor.chain_id();
    assert_eq!(got, Ok(1234u32));
}

#[test]
fn init_twice_panics() {
    let mut executor = Executor::load(None);
    assert_eq!(executor.init(7u32), Ok(()));
    let second = executor.init(7u32);
    assert_eq!(second, Err(ExecError::AlreadyInitialized));
    assert_eq!(second.unwrap_err().code(), 2);
}

#[test]
fn chain_id_without_init_panics() {
    let executor = Executor::load(None);
    let got = executor.chain_id();
    assert_eq!(got, Err(ExecError::NotInitialized));
    assert_eq!(got.unwrap_err().code(), 1);
}

#[test]
fn refused_init_keeps_the_chain() {
    let mut executor = register_executor(7);
    assert_eq!(executor.init(8), Err(ExecError::AlreadyInitialized));
    assert_eq!(executor.init(9), Err(ExecError::AlreadyInitialized));
    assert_eq!(executor.chain_id(), Ok(7));
}

#[test]
fn stored_entry_survives_a_reload() {
    let mut executor = Executor::load(None);
    assert_eq!(executor.entry(DataKey::ChainId), None);
    assert_eq!(executor.init(0), Ok(()));
    let stored = executor.entry(DataKey::ChainId);
    assert_eq!(stored, Some(0));
    let mut reloaded = Executor::load(stored);
    assert_eq!(reloaded.chain_id(), Ok(0));
    assert_eq!(reloaded.init(5), Err(ExecError::AlreadyInitialized));
}

#[test]
fn error_codes() {
    assert_eq!(ExecError::NotInitialized.code(), 1);
    assert_eq!(ExecError::AlreadyInitialized.code(), 2);
    assert_eq!(ExecError::InvalidQuotePrefix.code(), 10);
    assert_eq!(ExecError::InvalidRequestPrefix.code(), 11);
    assert_eq!(ExecError::QuoteExpired.code(), 12);
    assert_eq!(ExecError::QuoteChainMismatch.code(), 13);
    assert_eq!(ExecError::RequestDstMismatch.code(), 14);
    assert_eq!(ExecError::EmptyQuote.code(), 15);
    assert_eq!(ExecError::EmptyRequest.code(), 16);
    assert_eq!(ExecError::BadLengths.code(), 17);
}

// ---------------------- Accepted requests ----------------------

#[test]
fn request_happy_path_emits_event_with_fields() {
    let env = new_env();

    let src_chain = 1234u16;
    let dst_chain = 4321u16;
    let executor = register_executor(src_chain as u32);

    let signed_quote = mk_signed_quote(&env, src_chain, dst_chain, 600);
    let request = mk_request(&env);

    let payee = address(&env);
    let refund = address(&env);
    let dst_addr_wa32 = BytesN::<32>::from_array(&env, &[9u8; 32]);

    let result = executor.request_execution(
        env.clone(),
        dst_chain as u32,
        dst_addr_wa32.clone(),
        refund.clone(),
        payee.clone(),
        None,
        None,
        signed_quote.clone(),
        request.clone(),
        None,
    );
    let evt = match result {
        Ok(evt) => evt,
        Err(e) => panic!("refused with {:?}", e),
    };

    let (first, second) = ExecutionRequested::topics(&env);
    let found_exec = first == Symbol::new(&env, "Executor");
    let found_er = second == Symbol::new(&env, "ExecutionRequested");
    assert!(
        found_exec && found_er,
        "expected Executor/ExecutionRequested topics"
    );

    assert_eq!(evt.dst_chain, dst_chain as u32);
    assert_eq!(evt.dst_addr_wa32, dst_addr_wa32);
    assert_eq!(evt.payee, payee);
    assert_eq!(evt.refund, refund);
    assert!(evt.quoter_wa32.is_some());
    assert_eq!(evt.quoter_wa32.unwrap().to_array(), [0u8; 32]);
    assert_eq!(evt.fee_token, None);
    assert_eq!(evt.fee_amount, None);
    assert_eq!(evt.signed_quote.len(), signed_quote.len());
    assert_eq!(evt.request.len(), request.len());
    assert_eq!(evt.signed_quote, signed_quote);
    assert_eq!(evt.request, request);
    assert_eq!(evt.relay_instructions, None);
}

#[test]
fn event_carries_the_optional_fields() {
    let env = new_env();
    let executor = register_executor(3);
    let token = address(&env);
    let payee = address(&env);
    let refund = address(&env);
    let instructions = Bytes::from_array(&env, &[4u8, 5, 6]);
    let evt = executor
        .request_execution(
            env.clone(),
            4,
            BytesN::<32>::from_array(&env, &[2u8; 32]),
            refund.clone(),
            payee.clone(),
            Some(token.clone()),
            Some(-17i128),
            mk_signed_quote(&env, 3, 4, 0),
            mk_request(&env),
            Some(instructions.clone()),
        )
        .ok()
        .unwrap();
    let copy = evt.clone();
    assert_eq!(evt.fee_token, Some(token));
    assert_eq!(evt.fee_amount, Some(-17i128));
    assert_eq!(evt.relay_instructions, Some(instructions));
    assert!(evt.payee != evt.refund);

    assert_eq!(copy.quoter_wa32, evt.quoter_wa32);
    assert_eq!(copy.payee, payee);
    assert_eq!(copy.dst_chain, 4);
    assert_eq!(copy.dst_addr_wa32, evt.dst_addr_wa32);
    assert_eq!(copy.refund, refund);
    assert_eq!(copy.fee_token, evt.fee_token);
    assert_eq!(copy.fee_amount, evt.fee_amount);
    assert_eq!(copy.signed_quote, evt.signed_quote);
    assert_eq!(copy.request, evt.request);
    assert_eq!(copy.relay_instructions, evt.relay_instructions);
}

#[test]
fn multiple_requests_emit_twice_with_different_payloads() {
    let env = new_env();
    let executor = register_executor(100);
    let payee = address(&env);
    let refund = address(&env);
    let dst_addr_wa32 = BytesN::<32>::from_array(&env, &[8u8; 32]);

    // First request: expect dst_chain = 200
    {
        let q = mk_signed_quote(&env, 100, 200, 600);
        let r = mk_request(&env);
        let evt = executor
            .request_execution(
                env.clone(),
                200u32,
                dst_addr_wa32.clone(),
                refund.clone(),
                payee.clone(),
                None,
                None,
                q,
                r,
                None,
            )
            .ok()
            .unwrap();
        assert_eq!(evt.dst_chain, 200u32);
    }

    // Second request: expect dst_chain = 201
    {
        let q = mk_signed_quote(&env, 100, 201, 600);
        let r = mk_request(&env);
        let evt = executor
            .request_execution(
                env.clone(),
                201u32,
                dst_addr_wa32.clone(),
                refund.clone(),
                payee.clone(),
                None,
                None,
                q,
                r,
                None,
            )
            .ok()
            .unwrap();
        assert_eq!(evt.dst_chain, 201u32);
    }
}

#[test]
fn quote_is_good_until_its_expiry_and_not_after() {
    let env = new_env();
    env.ledger().set_timestamp(1000);
    let executor = register_executor(1);
    let quote = mk_signed_quote(&env, 1, 2, 600);
    let req = mk_request(&env);
    assert!(request_at(&executor, &env, 0, 2, &quote, &req).is_ok());
    assert!(request_at(&executor, &env, 1599, 2, &quote, &req).is_ok());
    assert!(request_at(&executor, &env, 1600, 2, &quote, &req).is_ok());
    let late = refusal(request_at(&executor, &env, 1601, 2, &quote, &req));
    assert_eq!(late, ExecError::QuoteExpired);
    let end = refusal(request_at(&executor, &env, u64::MAX, 2, &quote, &req));
    assert_eq!(end, ExecError::QuoteExpired);
}

#[test]
fn request_reads_the_ledger_time() {
    let env = new_env();
    env.ledger().set_timestamp(1000);
    let executor = register_executor(1);
    let quote = mk_signed_quote(&env, 1, 2, 600);
    let req = mk_request(&env);
    assert!(request(&executor, &env, 2, &quote, &req).is_ok());
    env.ledger().set_timestamp(1600);
    assert!(request(&executor, &env, 2, &quote, &req).is_ok());
    env.ledger().set_timestamp(1601);
    let late = refusal(request(&executor, &env, 2, &quote, &req));
    assert_eq!(late, ExecError::QuoteExpired);
}

#[test]
fn latest_expiry_and_expiries_before_the_epoch() {
    let env = new_env();
    let executor = register_executor(1);
    let req = mk_request(&env);
    let last = i64::MAX as u64;
    let quote = mk_signed_quote(&env, 1, 2, i64::MAX);
    assert!(request_at(&executor, &env, 0, 2, &quote, &req).is_ok());
    assert!(request_at(&executor, &env, last, 2, &quote, &req).is_ok());
    let late = refusal(request_at(&executor, &env, last + 1, 2, &quote, &req));
    assert_eq!(late, ExecError::QuoteExpired);
    for delta in [-1i64, i64::MIN] {
        let quote = mk_signed_quote(&env, 1, 2, delta);
        for now in [0, 1, last, u64::MAX] {
            let e = refusal(request_at(&executor, &env, now, 2, &quote, &req));
            assert_eq!(e, ExecError::QuoteExpired);
        }
    }
}

#[test]
fn what_follows_the_fixed_layout_makes_no_difference() {
    let env = new_env();
    let executor = register_executor(1);
    let mut quote = mk_signed_quote(&env, 1, 2, 600);
    let short_request = Bytes::from_array(&env, b"ERV1");
    assert!(request(&executor, &env, 2, &quote, &short_request).is_ok());
    quote.append(&Bytes::from_array(&env, &[0xabu8; 100]));
    assert!(request(&executor, &env, 2, &quote, &mk_request(&env)).is_ok());
}

// ---------------------- Refused requests ----------------------

#[test]
fn request_rejects_bad_quote_prefix() {
    let env = new_env();
    let executor = register_executor(10);
    let signed_quote = mk_badprefix_signed_quote(&env);
    let dst_addr = [1u8; 32];
    let e = refusal(request_to(
        &executor,
        &env,
        9999,
        dst_addr,
        &signed_quote,
        &mk_request(&env),
    ));
    assert_eq!(e, ExecError::InvalidQuotePrefix);
    assert_eq!(e.code(), 10);
}

#[test]
fn request_rejects_bad_request_prefix() {
    let env = new_env();
    let src_chain = 20u16;
    let dst_chain = 30u16;
    let executor = register_executor(src_chain as u32);
    let signed_quote = mk_signed_quote(&env, src_chain, dst_chain, 600);
    let bad = mk_badprefix_request(&env);
    let dst_addr = [2u8; 32];
    let e = refusal(request_to(
        &executor,
        &env,
        dst_chain as u32,
        dst_addr,
        &signed_quote,
        &bad,
    ));
    assert_eq!(e, ExecError::InvalidRequestPrefix);
    assert_eq!(e.code(), 11);
}

#[test]
fn request_rejects_expired_quote() {
    let env = new_env();
    let src_chain = 111u16;
    let dst_chain = 222u16;
    let executor = register_executor(src_chain as u32);
    let signed_quote = mk_signed_quote(&env, src_chain, dst_chain, -1); // already expired
    let req = mk_request(&env);
    let dst_addr = [3u8; 32];
    let e = refusal(request_to(
        &executor,
        &env,
        dst_chain as u32,
        dst_addr,
        &signed_quote,
        &req,
    ));
    assert_eq!(e, ExecError::QuoteExpired);
    assert_eq!(e.code(), 12);
}

#[test]
fn request_rejects_source_chain_mismatch() {
    let env = new_env();
    let src_chain = 77u16;
    let dst_chain = 88u16;
    let executor = register_executor(9999);
    let signed_quote = mk_signed_quote(&env, src_chain, dst_chain, 600);
    let req = mk_request(&env);
    let dst_addr = [4u8; 32];
    let e = refusal(request_to(
        &executor,
        &env,
        dst_chain as u32,
        dst_addr,
        &signed_quote,
        &req,
    ));
    assert_eq!(e, ExecError::QuoteChainMismatch);
    assert_eq!(e.code(), 13);
}

#[test]
fn request_rejects_dst_chain_mismatch() {
    let env = new_env();
    let src_chain = 55u16;
    let dst_chain = 66u16;
    let executor = register_executor(src_chain as u32);
    let signed_quote = mk_signed_quote(&env, src_chain, dst_chain, 600);
    let dst_addr = [5u8; 32];
    let e = refusal(request_to(
        &executor,
        &env,
        99u32,
        dst_addr,
        &signed_quote,
        &mk_request(&env),
    ));
    assert_eq!(e, ExecError::RequestDstMismatch);
    assert_eq!(e.code(), 14);
}

#[test]
fn request_rejects_empty_quote() {
    let env = new_env();
    let executor = register_executor(1);
    let signed_quote = Bytes::new(&env);
    let dst_addr = [6u8; 32];
    let e = refusal(request_to(
        &executor,
        &env,
        2u32,
        dst_addr,
        &signed_quote,
        &mk_request(&env),
    ));
    assert_eq!(e, ExecError::EmptyQuote);
    assert_eq!(e.code(), 15);
}

#[test]
fn request_rejects_empty_request() {
    let env = new_env();
    let executor = register_executor(1);
    let signed_quote = mk_signed_quote(&env, 1, 2, 600);
    let dst_addr = [7u8; 32];
    let e = refusal(request_to(
        &executor,
        &env,
        2u32,
        dst_addr,
        &signed_quote,
        &Bytes::new(&env),
    ));
    assert_eq!(e, ExecError::EmptyRequest);
    assert_eq!(e.code(), 16);
}

#[test]
fn request_rejects_short_quote_and_short_request() {
    let env = new_env();
    let executor = register_executor(1);
    let quote = mk_signed_quote(&env, 1, 2, 600);
    let req = mk_request(&env);
    let e = refusal(request(&executor, &env, 2, &quote.slice(0..79), &req));
    assert_eq!(e, ExecError::BadLengths);
    assert_eq!(e.code(), 17);
    let e = refusal(request(&executor, &env, 2, &quote, &req.slice(0..3)));
    assert_eq!(e, ExecError::BadLengths);
}

#[test]
fn request_before_init_is_refused() {
    let env = new_env();
    let executor = Executor::load(None);
    let quote = mk_signed_quote(&env, 1, 2, 600);
    let req = mk_request(&env);
    let empty = Bytes::new(&env);
    let e = refusal(request(&executor, &env, 2, &quote, &req));
    assert_eq!(e, ExecError::NotInitialized);
    let e = refusal(request(&executor, &env, 2, &mk_badprefix_signed_quote(&env), &req));
    assert_eq!(e, ExecError::NotInitialized);
    let e = refusal(request(&executor, &env, 2, &empty, &empty));
    assert_eq!(e, ExecError::EmptyQuote);
    let e = refusal(request(&executor, &env, 2, &quote, &empty));
    assert_eq!(e, ExecError::EmptyRequest);
}

#[test]
fn checks_come_in_order() {
    let env = new_env();
    let executor = register_executor(5);
    let bad_request = mk_badprefix_request(&env);
    // Wrong source, wrong destination, expired and a bad request: the source comes first.
    let quote = mk_signed_quote(&env, 1, 2, 0);
    let e = refusal(request_at(&executor, &env, 1, 9, &quote, &bad_request));
    assert_eq!(e, ExecError::QuoteChainMismatch);
    let quote = mk_signed_quote(&env, 5, 2, 0);
    let e = refusal(request_at(&executor, &env, 1, 9, &quote, &bad_request));
    assert_eq!(e, ExecError::RequestDstMismatch);
    let e = refusal(request_at(&executor, &env, 1, 2, &quote, &bad_request));
    assert_eq!(e, ExecError::QuoteExpired);
    let e = refusal(request_at(&executor, &env, 0, 2, &quote, &bad_request));
    assert_eq!(e, ExecError::InvalidRequestPrefix);
    assert!(request_at(&executor, &env, 0, 2, &quote, &mk_request(&env)).is_ok());
}

#[test]
fn wide_chain_accepts_nothing() {
    let env = new_env();
    let executor = register_executor(0x1_0001);
    let quote = mk_signed_quote(&env, 1, 2, 600);
    let req = mk_request(&env);
    let e = refusal(request(&executor, &env, 2, &quote, &req));
    assert_eq!(e, ExecError::QuoteChainMismatch);
    let executor = register_executor(1);
    let e = refusal(request(&executor, &env, 0x1_0002, &quote, &req));
    assert_eq!(e, ExecError::RequestDstMismatch);
    assert!(request(&executor, &env, 2, &quote, &req).is_ok());
}
