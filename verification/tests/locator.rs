use creation_code::locator::{
    classify_transaction, require_creation_record, scan_traces, CreationSource,
};
use creation_code::model::{
    Address, CreationRecord, Error, NotFoundKind, TraceAction, TraceEntry, TraceOutcome,
    TransactionRecord, TxHash,
};

fn addr(fill: u8) -> Address {
    Address { bytes: vec![fill; 20] }
}

fn hash(fill: u8) -> TxHash {
    TxHash { bytes: vec![fill; 32] }
}

fn create_entry(init: Vec<u8>, created_at: Address) -> TraceEntry {
    TraceEntry {
        action: TraceAction::Create { init },
        result: Some(TraceOutcome::Created { address: created_at, code: vec![], gas_used: 0 }),
    }
}

#[test]
fn creation_record_yields_its_hash() {
    let reply = Some(CreationRecord { transaction_hash: hash(0x01) });
    assert_eq!(require_creation_record(reply), Ok(hash(0x01)));
}

#[test]
fn missing_creation_record_is_not_found() {
    assert_eq!(
        require_creation_record(None),
        Err(Error::NotFound(NotFoundKind::CreationRecord))
    );
}

#[test]
fn missing_transaction_is_not_found() {
    assert_eq!(
        classify_transaction(None),
        Err(Error::NotFound(NotFoundKind::Transaction))
    );
}

#[test]
fn top_level_transaction_input_is_the_bytecode() {
    let tx = TransactionRecord { to: None, input: vec![0xde, 0xad, 0xbe, 0xef] };
    match classify_transaction(Some(tx)) {
        Ok(CreationSource::Direct { input }) => assert_eq!(input, vec![0xde, 0xad, 0xbe, 0xef]),
        other => panic!("expected a direct creation, got {:?}", matches!(other, Ok(_))),
    }
}

#[test]
fn targeted_transaction_defers_to_traces() {
    let tx = TransactionRecord { to: Some(addr(0xfa)), input: vec![0x01] };
    assert!(matches!(
        classify_transaction(Some(tx)),
        Ok(CreationSource::Nested)
    ));
}

#[test]
fn scan_returns_the_matching_init() {
    let target = addr(0xaa);
    let traces = vec![
        TraceEntry { action: TraceAction::Other, result: None },
        create_entry(vec![0x11, 0x22], addr(0xaa)),
    ];
    assert_eq!(scan_traces(&traces, &target), Ok(vec![0x11, 0x22]));
}

#[test]
fn scan_takes_the_last_match() {
    let target = addr(0xaa);
    let traces = vec![
        create_entry(vec![0x01], addr(0xaa)),
        create_entry(vec![0x02], addr(0xbb)),
        create_entry(vec![0x03], addr(0xaa)),
    ];
    assert_eq!(scan_traces(&traces, &target), Ok(vec![0x03]));
}

#[test]
fn scan_without_match_is_not_found() {
    let target = addr(0xaa);
    let traces = vec![
        create_entry(vec![0x01], addr(0xbb)),
        TraceEntry { action: TraceAction::Other, result: None },
    ];
    assert_eq!(
        scan_traces(&traces, &target),
        Err(Error::NotFound(NotFoundKind::CreationTrace))
    );
}

#[test]
fn scan_of_empty_traces_is_not_found() {
    let target = addr(0xaa);
    assert_eq!(
        scan_traces(&vec![], &target),
        Err(Error::NotFound(NotFoundKind::CreationTrace))
    );
}

#[test]
fn later_match_without_create_action_is_irrelevant() {
    // An entry whose result targets the address but whose action is not a
    // create is irrelevant: it must not erase the earlier full match.
    let target = addr(0xaa);
    let traces = vec![
        create_entry(vec![0x01], addr(0xaa)),
        TraceEntry {
            action: TraceAction::Other,
            result: Some(TraceOutcome::Created {
                address: addr(0xaa),
                code: vec![],
                gas_used: 0,
            }),
        },
    ];
    assert_eq!(scan_traces(&traces, &target), Ok(vec![0x01]));
}

#[test]
fn create_action_without_matching_result_is_ignored() {
    let target = addr(0xaa);
    let traces = vec![
        TraceEntry { action: TraceAction::Create { init: vec![0x01] }, result: None },
        create_entry(vec![0x02], addr(0xbb)),
    ];
    assert_eq!(
        scan_traces(&traces, &target),
        Err(Error::NotFound(NotFoundKind::CreationTrace))
    );
}

#[test]
fn address_equality_is_byte_exact() {
    let a = addr(0xaa);
    let b = addr(0xaa);
    let c = addr(0xab);
    assert!(a.same_as(&b));
    assert!(!a.same_as(&c));
    let mut d = addr(0xaa);
    d.bytes[19] = 0x00;
    assert!(!a.same_as(&d));
}
