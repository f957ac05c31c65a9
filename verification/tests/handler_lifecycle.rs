//! The transaction state machine end to end: ordinary success, the
//! insufficient-funds rejection, and the failed-deposit recovery path.

use zksync_os::address::Address;
use zksync_os::gas::Gas;
use zksync_os::handler::{BlockEnv, CfgEnv, ContextError, InitialAndFloorGas, IsTxError,
    ZKsyncHandler, ZkError};
use zksync_os::result::{ExecutionResult, InstructionResult, InterpreterResult, ZkHaltReason};
use zksync_os::state::JournalState;
use zksync_os::transaction::abstraction::{TxEnv, TxKind, ZKsyncTx};
use zksync_os::transaction::error::{InvalidTransaction, ZKsyncTxError};
use zksync_os::transaction::priority_tx::L1ToL2TransactionParts;
use zksync_os::u256::U256;

fn addr(last: u8) -> Address {
    let mut bytes = vec![0u8; 19];
    bytes.push(last);
    Address { bytes }
}

fn block() -> BlockEnv {
    BlockEnv {
        number: U256::from_u64(1),
        beneficiary: addr(0xFE),
        basefee: 1,
        blob_gasprice: None,
    }
}

fn cfg() -> CfgEnv {
    CfgEnv {
        spec: zksync_os::spec_id::ZkSpecId::Atlas,
        is_eip3607_disabled: false,
        is_nonce_check_disabled: false,
    }
}

fn ordinary_tx(caller: Address, gas_limit: u64, gas_price: u128, value: u64) -> ZKsyncTx {
    ZKsyncTx::new(TxEnv {
        tx_type: 0,
        caller,
        gas_limit,
        gas_price,
        max_priority_fee_per_gas: None,
        value: U256::from_u64(value),
        input: Vec::new(),
        nonce: 0,
        chain_id: None,
        kind: TxKind::Call(addr(0x99)),
    })
}

fn deposit_tx(caller: Address, gas_limit: u64, mint: u64, recipient: Address) -> ZKsyncTx {
    ZKsyncTx {
        base: TxEnv {
            tx_type: 0x7F,
            caller,
            gas_limit,
            gas_price: 1,
            max_priority_fee_per_gas: None,
            value: U256::zero(),
            input: Vec::new(),
            nonce: 0,
            chain_id: None,
            kind: TxKind::Call(addr(0x99)),
        },
        l1_to_l2_part: L1ToL2TransactionParts::new(
            Some(U256::from_u64(mint)),
            Some(recipient),
        ),
        gas_used_override: None,
        force_fail: false,
    }
}

fn frame(result: InstructionResult, limit: u64, remaining: u64) -> InterpreterResult {
    InterpreterResult::new(result, Vec::new(), Gas { limit, remaining, refunded: 0 })
}

fn no_floor() -> InitialAndFloorGas {
    InitialAndFloorGas { initial_gas: 0, floor_gas: 0 }
}

#[test]
fn ordinary_transaction_settles_fees() {
    let handler = ZKsyncHandler::new();
    let caller = addr(0xAA);
    let mut state = JournalState::new();
    state.load_account(&caller);
    state.set_balance(&caller, U256::from_u64(1000));

    // Gas limit 100 at price 2, value 5: the worst case is 205; the frame
    // spends 60 of the 100 units.
    let tx = ordinary_tx(addr(0xAA), 100, 2, 5);
    let r = handler.run(&mut state, &tx, &block(), &cfg(), Ok(()), no_floor(),
        frame(InstructionResult::Return, 100, 40), None);
    match r.expect("the run succeeds") {
        ExecutionResult::Success { gas_used, output } => {
            assert_eq!(gas_used, 60);
            assert!(output.is_empty());
        },
        other => panic!("expected success, got {:?}", other),
    }
    // The gas part of the spending, 200, is deducted; 80 returns for the
    // 40 unused units.
    assert_eq!(state.balance_of(&caller), U256::from_u64(880));
    assert_eq!(state.nonce_of(&caller), 1);
    // The beneficiary earns 2 * 60.
    assert_eq!(state.balance_of(&addr(0xFE)), U256::from_u64(120));
}

#[test]
fn insufficient_funds_reject_ordinary_transaction() {
    let handler = ZKsyncHandler::new();
    let caller = addr(0xAB);
    let mut state = JournalState::new();
    state.load_account(&caller);
    state.set_balance(&caller, U256::from_u64(50));

    // The worst case is 100 * 1 + 10 = 110, above the balance of 50.
    let tx = ordinary_tx(addr(0xAB), 100, 1, 10);
    let r = handler.run(&mut state, &tx, &block(), &cfg(), Ok(()), no_floor(),
        frame(InstructionResult::Return, 100, 100), None);
    match r {
        Err(ZkError::Transaction(ZKsyncTxError::Base(
            InvalidTransaction::LackOfFundForMaxFee { fee, balance },
        ))) => {
            assert_eq!(fee, U256::from_u64(110));
            assert_eq!(balance, U256::from_u64(50));
        },
        other => panic!("expected the insufficient-funds error, got {:?}", other),
    }
    // No state mutation survives the rejection.
    assert_eq!(state.balance_of(&caller), U256::from_u64(50));
    assert_eq!(state.nonce_of(&caller), 0);
}

#[test]
fn failed_deposit_lands_mint_and_nonce() {
    let handler = ZKsyncHandler::new();
    let caller = addr(0xAC);
    let recipient = addr(0xAD);
    let mut state = JournalState::new();

    // A deposit whose fee arithmetic overflows the engine's range: the
    // run fails with a transaction-level error and the recovery path
    // takes over.
    let mut tx = deposit_tx(addr(0xAC), u64::MAX, 4321, addr(0xAD));
    tx.base.gas_price = u128::MAX;
    let r = handler.run(&mut state, &tx, &block(), &cfg(), Ok(()), no_floor(),
        frame(InstructionResult::Return, u64::MAX, u64::MAX), None);
    match r.expect("a failed deposit still yields a result") {
        ExecutionResult::Halt { reason, gas_used } => {
            assert_eq!(reason, ZkHaltReason::FailedDeposit);
            assert_eq!(gas_used, u64::MAX);
        },
        other => panic!("expected the failed-deposit halt, got {:?}", other),
    }
    // The mint landed and the nonce rose by exactly one.
    assert_eq!(state.balance_of(&caller), U256::from_u64(4321));
    assert_eq!(state.nonce_of(&caller), 1);
    // Nothing reached the refund recipient.
    assert!(!state.contains_account(&recipient));
}

#[test]
fn forced_failure_reports_overridden_gas_and_refunds_mint() {
    let handler = ZKsyncHandler::new();
    let caller = addr(0xAE);
    let recipient = addr(0xAF);
    let mut state = JournalState::new();

    let mut tx = deposit_tx(addr(0xAE), 100, 500, addr(0xAF));
    tx.force_fail = true;
    tx.gas_used_override = Some(30);
    let r = handler.run(&mut state, &tx, &block(), &cfg(), Ok(()), no_floor(),
        frame(InstructionResult::Return, 100, 100), None);
    match r.expect("the forced failure still settles") {
        ExecutionResult::Revert { gas_used, output } => {
            assert_eq!(gas_used, 30);
            assert!(output.is_empty());
        },
        other => panic!("expected the synthesized revert, got {:?}", other),
    }
    // Mint 500, gas part 100 deducted, 70 unused units reimbursed, and
    // the rest of the mint (500 - 30 spent) moved to the recipient.
    assert_eq!(state.balance_of(&caller), U256::zero());
    assert_eq!(state.nonce_of(&caller), 1);
    assert_eq!(state.balance_of(&recipient), U256::from_u64(470));
    // The beneficiary earns the 30 overridden units at price 1.
    assert_eq!(state.balance_of(&addr(0xFE)), U256::from_u64(30));
}

#[test]
fn cross_layer_transactions_skip_environment_validation() {
    let handler = ZKsyncHandler::new();
    let tx = deposit_tx(addr(0xAA), 100, 0, addr(0xAB));
    let rejected = Err(ZKsyncTxError::Base(InvalidTransaction::NonceTooHigh { tx: 5, state: 1 }));
    assert!(handler.validate_env(&tx, rejected).is_ok());

    let ordinary = ordinary_tx(addr(0xAA), 100, 1, 0);
    let rejected = Err(ZKsyncTxError::Base(InvalidTransaction::NonceTooHigh { tx: 5, state: 1 }));
    let r = handler.validate_env(&ordinary, rejected);
    assert!(matches!(r, Err(ZkError::Transaction(_))));
}

#[test]
fn database_errors_propagate_and_roll_back() {
    let handler = ZKsyncHandler::new();
    let caller = addr(0xBA);
    let mut state = JournalState::new();
    state.load_account(&caller);
    state.set_balance(&caller, U256::from_u64(1000));

    let tx = ordinary_tx(addr(0xBA), 100, 2, 5);
    let r = handler.run(&mut state, &tx, &block(), &cfg(), Ok(()), no_floor(),
        frame(InstructionResult::Return, 100, 40), Some(ContextError::Db("io failed".to_string())));
    match r {
        Err(ZkError::Database(msg)) => assert_eq!(msg, "io failed"),
        other => panic!("expected the database error, got {:?}", other),
    }
    // The rollback restored the pre-transaction state.
    assert_eq!(state.balance_of(&caller), U256::from_u64(1000));
    assert_eq!(state.nonce_of(&caller), 0);
}

#[test]
fn error_classification() {
    assert!(ZkError::Transaction(ZKsyncTxError::Base(
        InvalidTransaction::NonceOverflowInTransaction
    ))
        .is_tx_error());
    assert!(!ZkError::Database("x".to_string()).is_tx_error());
    assert!(!ZkError::Custom("x".to_string()).is_tx_error());
}

#[test]
fn failed_environment_validation_rolls_back() {
    let handler = ZKsyncHandler::new();
    let caller = addr(0xBB);
    let mut state = JournalState::new();
    state.load_account(&caller);
    state.set_balance(&caller, U256::from_u64(1000));

    let tx = ordinary_tx(addr(0xBB), 100, 2, 5);
    let rejected = Err(ZKsyncTxError::Base(InvalidTransaction::NonceTooLow { tx: 0, state: 3 }));
    let r = handler.run(&mut state, &tx, &block(), &cfg(), rejected, no_floor(),
        frame(InstructionResult::Return, 100, 40), None);
    assert!(matches!(r, Err(ZkError::Transaction(_))));
    assert_eq!(state.balance_of(&caller), U256::from_u64(1000));
    assert_eq!(state.nonce_of(&caller), 0);
}
