use single_pool::addr::Address;
use single_pool::derivation::find_pool_address;
use single_pool::error::SinglePoolError;
use single_pool::ids;
use single_pool::state::SinglePool;
use single_pool::state::SinglePoolAccountType;

fn addr(n: u8) -> Address {
    Address::new(vec![n; 32])
}

fn pool_record_bytes(vote: &Address) -> Vec<u8> {
    let pool = SinglePool {
        account_type: SinglePoolAccountType::Pool,
        vote_account_address: Address::new(vote.bytes.clone()),
    };
    pool.serialize()
}

#[test]
fn pool_records_round_trip_through_their_wire_form() {
    let vote = addr(17);
    let bytes = pool_record_bytes(&vote);
    assert_eq!(bytes.len(), 33);
    assert_eq!(bytes[0], 1);
    assert_eq!(&bytes[1..33], vote.bytes.as_slice());
    let parsed = SinglePool::deserialize(&bytes).unwrap();
    assert!(matches!(parsed.account_type, SinglePoolAccountType::Pool));
    assert_eq!(parsed.vote_account_address.bytes, vote.bytes);
}

#[test]
fn trailing_bytes_are_ignored_as_the_wire_format_does() {
    let vote = addr(18);
    let mut bytes = pool_record_bytes(&vote);
    bytes.extend_from_slice(&[9, 9, 9]);
    let parsed = SinglePool::deserialize(&bytes).unwrap();
    assert_eq!(parsed.vote_account_address.bytes, vote.bytes);
}

#[test]
fn malformed_pool_records_are_refused() {
    assert!(matches!(
        SinglePool::deserialize(&vec![1u8; 32]),
        Err(SinglePoolError::InvalidPoolAccount)
    ));
    let mut bad_tag = pool_record_bytes(&addr(19));
    bad_tag[0] = 2;
    assert!(SinglePool::deserialize(&bad_tag).is_err());
}

#[test]
fn a_valid_pool_account_reproduces_its_own_address() {
    // the canonical-address invariant: the stored vote account re-derives
    // the account's own address
    let program_id = ids::single_pool_program_id();
    let vote = addr(20);
    let pool_address = find_pool_address(&program_id, &vote);
    let data = pool_record_bytes(&vote);
    let pool =
        SinglePool::from_account_info(&pool_address, &program_id, &data, &program_id).unwrap();
    let rederived = find_pool_address(&program_id, &pool.vote_account_address);
    assert_eq!(rederived.bytes, pool_address.bytes);
}

#[test]
fn from_account_info_refuses_every_mismatch() {
    let program_id = ids::single_pool_program_id();
    let vote = addr(21);
    let pool_address = find_pool_address(&program_id, &vote);
    let data = pool_record_bytes(&vote);

    // empty data
    assert_eq!(
        SinglePool::from_account_info(&pool_address, &program_id, &vec![], &program_id)
            .map(|_| ()),
        Err(SinglePoolError::InvalidPoolAccount)
    );
    // wrong owner
    assert_eq!(
        SinglePool::from_account_info(&pool_address, &addr(1), &data, &program_id).map(|_| ()),
        Err(SinglePoolError::InvalidPoolAccount)
    );
    // uninitialized record
    let mut uninitialized = data.clone();
    uninitialized[0] = 0;
    assert_eq!(
        SinglePool::from_account_info(&pool_address, &program_id, &uninitialized, &program_id)
            .map(|_| ()),
        Err(SinglePoolError::InvalidPoolAccount)
    );
    // an address that the stored vote account does not derive
    assert_eq!(
        SinglePool::from_account_info(&addr(2), &program_id, &data, &program_id).map(|_| ()),
        Err(SinglePoolError::InvalidPoolAccount)
    );
    // the genuine account parses
    assert!(
        SinglePool::from_account_info(&pool_address, &program_id, &data, &program_id).is_ok()
    );
}
