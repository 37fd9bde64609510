use sanctum_stored_account::pubkey::Pubkey;
use sanctum_stored_account::small_account::{
    DataTooLong, SmallAccount, SmallAccountTryNewParams, SMALL_ACCOUNT_DATA_MAX_LEN,
    SMALL_ACCOUNT_DATA_MAX_LEN_USIZE,
};

fn params<'a>(data: &'a [u8]) -> SmallAccountTryNewParams<'a> {
    SmallAccountTryNewParams {
        data,
        lamports: 100,
        rent_epoch: 5,
        owner: Pubkey::new([7u8; 32]),
        executable: false,
    }
}

#[test]
fn capacity_exactly_c_succeeds() {
    let data = [9u8; SMALL_ACCOUNT_DATA_MAX_LEN_USIZE];
    let acc = SmallAccount::try_new(params(&data)).unwrap();
    assert_eq!(acc.data_slice(), &data[..]);
}

#[test]
fn capacity_c_plus_one_fails() {
    let data = [9u8; SMALL_ACCOUNT_DATA_MAX_LEN_USIZE + 1];
    let res = SmallAccount::try_new(params(&data));
    assert_eq!(res.unwrap_err(), DataTooLong);
}

#[test]
fn empty_payload_succeeds_with_empty_view() {
    let acc = SmallAccount::try_new(params(&[])).unwrap();
    assert_eq!(acc.data_slice(), &[] as &[u8]);
    assert_eq!(acc.data_slice().len(), 0);
}

#[test]
fn round_trip_all_lengths_up_to_capacity() {
    let source: Vec<u8> = (0..SMALL_ACCOUNT_DATA_MAX_LEN as u8).map(|b| b.wrapping_mul(37)).collect();
    for len in 0..=SMALL_ACCOUNT_DATA_MAX_LEN_USIZE {
        let payload = &source[..len];
        let acc = SmallAccount::try_new(params(payload)).unwrap();
        assert_eq!(acc.data_slice(), payload);
    }
}

#[test]
fn scenario_three_bytes() {
    let acc = SmallAccount::try_new(SmallAccountTryNewParams {
        data: &[1, 2, 3],
        lamports: 100,
        rent_epoch: 5,
        owner: Pubkey::new([7u8; 32]),
        executable: false,
    })
    .unwrap();
    assert_eq!(acc.data_slice(), &[1, 2, 3]);
    assert_eq!(acc.lamports(), 100);
    assert_eq!(acc.rent_epoch(), 5);
    assert!(*acc.owner() == Pubkey::new([7u8; 32]));
    assert!(!acc.executable());
}

#[test]
fn scenario_sixteen_bytes_fails() {
    let data = [0u8; 16];
    let res = SmallAccount::try_new(params(&data));
    assert!(res.is_err());
    assert_eq!(res.unwrap_err(), DataTooLong);
}

#[test]
fn data_capability_wraps_logical_payload() {
    let acc = SmallAccount::try_new(params(&[4, 5])).unwrap();
    let data_ref = acc.data();
    assert_eq!(data_ref.bytes(), &[4, 5]);
    assert_eq!(data_ref.0, &[4, 5]);
}

#[test]
fn padding_does_not_affect_equality_or_hash() {
    let mut buf_a = [0u8; SMALL_ACCOUNT_DATA_MAX_LEN_USIZE];
    let mut buf_b = [0xffu8; SMALL_ACCOUNT_DATA_MAX_LEN_USIZE];
    for (i, byte) in [1u8, 2, 3].iter().enumerate() {
        buf_a[i] = *byte;
        buf_b[i] = *byte;
    }
    let owner = Pubkey::new([7u8; 32]);
    let a = SmallAccount::from_raw_parts(buf_a, 3, 100, 5, owner, false).unwrap();
    let b = SmallAccount::from_raw_parts(buf_b, 3, 100, 5, owner, false).unwrap();
    assert!(a == b);
    assert_eq!(a.logical_hash(), b.logical_hash());
    // the padding really does differ physically: a longer logical view
    // over the same buffers would expose it
    let a_wide = SmallAccount::from_raw_parts(buf_a, 4, 100, 5, owner, false).unwrap();
    let b_wide = SmallAccount::from_raw_parts(buf_b, 4, 100, 5, owner, false).unwrap();
    assert!(a_wide != b_wide);
}

#[test]
fn from_raw_parts_rejects_len_over_capacity() {
    let buf = [0u8; SMALL_ACCOUNT_DATA_MAX_LEN_USIZE];
    let res = SmallAccount::from_raw_parts(
        buf,
        SMALL_ACCOUNT_DATA_MAX_LEN + 1,
        0,
        0,
        Pubkey::new([0u8; 32]),
        false,
    );
    assert_eq!(res.unwrap_err(), DataTooLong);
}

#[test]
fn equal_logical_inputs_give_equal_accounts() {
    let a = SmallAccount::try_new(params(&[1, 2, 3])).unwrap();
    let b = SmallAccount::try_new(params(&[1, 2, 3])).unwrap();
    assert!(a == b);
    assert_eq!(a.logical_hash(), b.logical_hash());
}

#[test]
fn metadata_divergence_breaks_equality() {
    let base = SmallAccount::try_new(params(&[1, 2, 3])).unwrap();

    let mut p = params(&[1, 2, 3]);
    p.lamports = 101;
    assert!(base != SmallAccount::try_new(p).unwrap());

    let mut p = params(&[1, 2, 3]);
    p.rent_epoch = 6;
    assert!(base != SmallAccount::try_new(p).unwrap());

    let mut p = params(&[1, 2, 3]);
    p.owner = Pubkey::new([8u8; 32]);
    assert!(base != SmallAccount::try_new(p).unwrap());

    let mut p = params(&[1, 2, 3]);
    p.executable = true;
    assert!(base != SmallAccount::try_new(p).unwrap());
}

#[test]
fn payload_divergence_breaks_equality() {
    let a = SmallAccount::try_new(params(&[1, 2, 3])).unwrap();
    let b = SmallAccount::try_new(params(&[1, 2])).unwrap();
    let c = SmallAccount::try_new(params(&[1, 2, 4])).unwrap();
    assert!(a != b);
    assert!(a != c);
}

#[test]
fn logical_hash_exact_values() {
    let acc = SmallAccount::try_new(params(&[1, 2, 3])).unwrap();
    assert_eq!(acc.logical_hash(), 0xb17e_34b8_8219_de3e);

    let zero = SmallAccount::try_new(SmallAccountTryNewParams {
        data: &[],
        lamports: 0,
        rent_epoch: 0,
        owner: Pubkey::new([0u8; 32]),
        executable: false,
    })
    .unwrap();
    assert_eq!(zero.logical_hash(), 0xc499_fa1f_0475_271f);
}

#[test]
fn data_too_long_message() {
    assert_eq!(DataTooLong.message(), "Account data too long");
}

#[test]
fn pubkey_equality_is_byte_equality() {
    let mut bytes = [3u8; 32];
    let a = Pubkey::new(bytes);
    let b = Pubkey::new(bytes);
    assert!(a == b);
    assert_eq!(a.to_bytes(), bytes);
    bytes[31] = 4;
    let c = Pubkey::new(bytes);
    assert!(a != c);
}
