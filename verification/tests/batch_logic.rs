use q3x_backend::batch::{
    batch_proposal, batch_proposed_message, validate_batch, BatchAction, BatchRun,
    BatchTransaction, TransactionType,
};
use q3x_backend::crypto::PrincipalId;

fn principal(bytes: &[u8]) -> PrincipalId {
    PrincipalId::from_bytes(bytes.to_vec()).unwrap()
}

fn icp(amount: u64) -> TransactionType {
    TransactionType::IcpTransfer {
        amount,
        to_principal: principal(&[1, 2, 3]),
        to_subaccount: None,
        memo: Some(9),
    }
}

fn evm(chain_id: u64, value: u128) -> TransactionType {
    TransactionType::EvmTransfer {
        to: "0x4545454545454545454545454545454545454545".to_string(),
        value,
        chain_id,
        gas_price: 7,
        gas_limit: 21000,
    }
}

fn batch(id: &str, transactions: Vec<TransactionType>) -> BatchTransaction {
    BatchTransaction {
        id: id.to_string(),
        transactions,
        description: "payroll".to_string(),
        created_at: 1,
        created_by: principal(&[4]),
    }
}

#[test]
fn validate_batch_sizes() {
    assert_eq!(validate_batch(&batch("b", vec![])).unwrap_err(), "Batch cannot be empty");
    assert!(validate_batch(&batch("b", vec![icp(1)])).is_ok());
    let fifty: Vec<TransactionType> = (0..50).map(|i| icp(i)).collect();
    assert!(validate_batch(&batch("b", fifty)).is_ok());
    let too_many: Vec<TransactionType> = (0..51).map(|i| icp(i)).collect();
    assert_eq!(
        validate_batch(&batch("b", too_many)).unwrap_err(),
        "Batch too large (max 50 transactions)"
    );
}

#[test]
fn batch_proposal_message_is_hex_of_framed_encoding() {
    let b = batch("b1", vec![icp(1)]);
    assert_eq!(
        batch_proposal(&b, Ok(vec![0xde, 0xad])).unwrap(),
        "42415443483a3a62313a3a64656164"
    );
}

#[test]
fn batch_proposal_errors() {
    let b = batch("b1", vec![icp(1)]);
    assert_eq!(
        batch_proposal(&b, Err("bad type".to_string())).unwrap_err(),
        "Serialization failed: bad type"
    );
    let empty = batch("b1", vec![]);
    assert_eq!(batch_proposal(&empty, Ok(vec![1])).unwrap_err(), "Batch cannot be empty");
    assert_eq!(
        batch_proposed_message(),
        "Proposal for batch transaction created successfully"
    );
}

#[test]
fn mixed_batch_runs_every_transfer_with_consecutive_nonces() {
    let (mut run, first) =
        BatchRun::start("wallet-1".to_string(), batch("b1", vec![icp(5), evm(11155111, 10), evm(1, 20)]));
    match first {
        BatchAction::FetchNonce { chain_id } => assert_eq!(chain_id, 11155111),
        _ => panic!("expected a nonce fetch"),
    }
    assert!(run.nonce_fits(7));
    match run.on_nonce(Ok(7)) {
        BatchAction::TransferIcp { index, args } => {
            assert_eq!(index, 0);
            assert_eq!(args.amount_e8s, 5);
            assert_eq!(args.to_principal.as_bytes(), &[1u8, 2, 3][..]);
            assert!(args.to_subaccount.is_none());
        }
        _ => panic!("expected the ICP transfer"),
    }
    match run.on_transfer(Ok("12".to_string())) {
        BatchAction::TransferEvm { index, args, nonce } => {
            assert_eq!(index, 1);
            assert_eq!(nonce, Some(7));
            assert_eq!(args.wallet_id, "wallet-1");
            assert_eq!(args.chain_id, 11155111);
            assert_eq!(args.value, 10);
            assert_eq!(args.gas_price, 7);
            assert_eq!(args.gas_limit, 21000);
        }
        _ => panic!("expected the first EVM transfer"),
    }
    match run.on_transfer(Err("boom".to_string())) {
        BatchAction::TransferEvm { index, args, nonce } => {
            assert_eq!(index, 2);
            assert_eq!(nonce, Some(8));
            assert_eq!(args.chain_id, 1);
        }
        _ => panic!("a failure must not stop the batch"),
    }
    match run.on_transfer(Ok("Transaction sent successfully".to_string())) {
        BatchAction::Finished(Ok(report)) => assert_eq!(
            report,
            "Batch b1 completed: 2/3 successful, 1/3 failed\nDetails:\n\
             TX1: SUCCESS - 12\nTX2: FAILED - boom\nTX3: SUCCESS - Transaction sent successfully"
        ),
        _ => panic!("expected the report"),
    }
}

#[test]
fn icp_only_batch_needs_no_nonce() {
    let (mut run, first) = BatchRun::start("w".to_string(), batch("icp", vec![icp(1), icp(2)]));
    match first {
        BatchAction::TransferIcp { index, args } => {
            assert_eq!(index, 0);
            assert_eq!(args.amount_e8s, 1);
        }
        _ => panic!("expected the first ICP transfer"),
    }
    match run.on_transfer(Err("insufficient".to_string())) {
        BatchAction::TransferIcp { index, args } => {
            assert_eq!(index, 1);
            assert_eq!(args.amount_e8s, 2);
        }
        _ => panic!("expected the second ICP transfer"),
    }
    match run.on_transfer(Err("insufficient".to_string())) {
        BatchAction::Finished(Ok(report)) => assert_eq!(
            report,
            "Batch icp completed: 0/2 successful, 2/2 failed\nDetails:\n\
             TX1: FAILED - insufficient\nTX2: FAILED - insufficient"
        ),
        _ => panic!("expected the report"),
    }
}

#[test]
fn failed_nonce_fetch_ends_the_batch() {
    let (mut run, first) = BatchRun::start("w".to_string(), batch("b", vec![evm(1, 1)]));
    assert!(matches!(first, BatchAction::FetchNonce { chain_id: 1 }));
    match run.on_nonce(Err("no route".to_string())) {
        BatchAction::Finished(Err(e)) => assert_eq!(e, "Failed to get nonce: no route"),
        _ => panic!("expected the batch to stop"),
    }
}

#[test]
fn empty_batch_reports_nothing_done() {
    let (_, first) = BatchRun::start("w".to_string(), batch("e", vec![]));
    match first {
        BatchAction::Finished(Ok(report)) => {
            assert_eq!(report, "Batch e completed: 0/0 successful, 0/0 failed\nDetails:\n")
        }
        _ => panic!("expected the report"),
    }
}

#[test]
fn nonce_room_for_every_evm_transfer() {
    let (run, _) = BatchRun::start("w".to_string(), batch("b", vec![evm(1, 1), icp(3), evm(1, 2)]));
    assert!(run.nonce_fits(u64::MAX - 1));
    assert!(!run.nonce_fits(u64::MAX));
}

fn unhex(s: &str) -> Vec<u8> {
    (0..s.len()).step_by(2).map(|i| u8::from_str_radix(&s[i..i + 2], 16).unwrap()).collect()
}

#[test]
fn proposal_message_decodes_to_framed_encoding() {
    let encoding = vec![0x44, 0x49, 0x44, 0x4c, 0x00, 0xff];
    let message = batch_proposal(&batch("pay-7", vec![icp(1)]), Ok(encoding.clone())).unwrap();
    let framed = String::from_utf8(unhex(&message)).unwrap();
    assert_eq!(framed, "BATCH::pay-7::4449444c00ff");
    assert_eq!(unhex(framed.strip_prefix("BATCH::pay-7::").unwrap()), encoding);
}
