//! An account whose payload is stored inline in a fixed-capacity buffer.
//!
//! [`SmallAccount`] keeps up to [`SMALL_ACCOUNT_DATA_MAX_LEN`] payload bytes
//! in a fixed-size array next to its metadata, instead of on the heap. The
//! buffer is physically always full-size; only the first `len` bytes are
//! logically meaningful. Every observation of the account — the payload
//! slice, equality, the logical hash — goes through the logical view, which
//! truncates the buffer at `len`, so padding bytes beyond the payload can
//! never influence behaviour.

use vstd::prelude::*;
use vstd::slice::slice_subrange;
use vstd::std_specs::cmp::PartialEqSpec;

use crate::fnv::{
    fnv1a_byte, fnv1a_bytes, fnv1a_fold_byte, fnv1a_fold_bytes, fnv1a_fold_word, fnv1a_word,
    FNV_OFFSET_BASIS,
};
use crate::pubkey::Pubkey;

verus! {

/// Hard capacity of the inline payload buffer, in bytes.
pub const SMALL_ACCOUNT_DATA_MAX_LEN: u8 = 15;

/// The capacity as a `usize`, for indexing and buffer sizes.
pub const SMALL_ACCOUNT_DATA_MAX_LEN_USIZE: usize = 15;

/// The error returned when a payload longer than the capacity is offered.
#[derive(Clone, Copy, Debug, PartialEq, Eq, Hash, Structural)]
pub struct DataTooLong;

impl DataTooLong {
    /// A human-readable description of the error.
    pub fn message(&self) -> (r: String)
        ensures
            r@ == "Account data too long"@,
    {
        "Account data too long".to_string()
    }
}

/// The logical content of a [`SmallAccount`]: the payload prefix (padding
/// excluded) and the four metadata fields.
#[verifier::ext_equal]
pub struct AccountView {
    pub payload: Seq<u8>,
    pub lamports: u64,
    pub rent_epoch: u64,
    pub owner: Seq<u8>,
    pub executable: bool,
}

/// The logical view an account built from these inputs must have.
pub open spec fn built_view(
    payload: Seq<u8>,
    lamports: u64,
    rent_epoch: u64,
    owner: Seq<u8>,
    executable: bool,
) -> AccountView {
    AccountView {
        payload: payload,
        lamports: lamports,
        rent_epoch: rent_epoch,
        owner: owner,
        executable: executable,
    }
}

/// The inputs to [`SmallAccount::try_new`].
#[derive(Clone, Copy, Debug)]
pub struct SmallAccountTryNewParams<'a> {
    pub data: &'a [u8],
    pub lamports: u64,
    pub rent_epoch: u64,
    pub owner: Pubkey,
    pub executable: bool,
}

/// An account with payload length at most [`SMALL_ACCOUNT_DATA_MAX_LEN`]
/// that stores its payload inline.
///
/// The buffer field comes first so that the struct, which is 8-byte aligned
/// for its 64-bit fields, keeps the buffer at offset zero.
#[derive(Clone, Copy, Debug)]
pub struct SmallAccount {
    data: [u8; SMALL_ACCOUNT_DATA_MAX_LEN_USIZE],
    len: u8,
    lamports: u64,
    rent_epoch: u64,
    owner: Pubkey,
    executable: bool,
}

impl SmallAccount {
    #[verifier::type_invariant]
    spec fn inv(self) -> bool {
        self.len <= SMALL_ACCOUNT_DATA_MAX_LEN
    }

    /// The full physical buffer, padding bytes included.
    pub closed spec fn spec_buf(&self) -> Seq<u8> {
        self.data@
    }

    /// The logical payload length.
    pub closed spec fn spec_len(&self) -> int {
        self.len as int
    }

    pub closed spec fn spec_lamports(&self) -> u64 {
        self.lamports
    }

    pub closed spec fn spec_rent_epoch(&self) -> u64 {
        self.rent_epoch
    }

    /// The owner address as bytes.
    pub closed spec fn spec_owner(&self) -> Seq<u8> {
        self.owner@
    }

    pub closed spec fn spec_executable(&self) -> bool {
        self.executable
    }
}

impl View for SmallAccount {
    type V = AccountView;

    open spec fn view(&self) -> AccountView {
        AccountView {
            payload: self.spec_buf().take(self.spec_len()),
            lamports: self.spec_lamports(),
            rent_epoch: self.spec_rent_epoch(),
            owner: self.spec_owner(),
            executable: self.spec_executable(),
        }
    }
}

impl SmallAccount {
    /// Validates the payload length, then stores the payload inline.
    ///
    /// Succeeds exactly when the payload is no longer than the capacity;
    /// a longer payload is rejected with [`DataTooLong`] and nothing is
    /// constructed.
    pub fn try_new(params: SmallAccountTryNewParams<'_>) -> (r: Result<SmallAccount, DataTooLong>)
        ensures
            params.data@.len() <= SMALL_ACCOUNT_DATA_MAX_LEN as int ==> (r matches Ok(acc)
                && acc@ == built_view(
                params.data@,
                params.lamports,
                params.rent_epoch,
                params.owner@,
                params.executable,
            )),
            params.data@.len() > SMALL_ACCOUNT_DATA_MAX_LEN as int ==> r is Err,
    {
        let data = params.data;
        let len: usize = data.len();
        if len > SMALL_ACCOUNT_DATA_MAX_LEN_USIZE {
            return Err(DataTooLong);
        }
        let mut buf = [0u8; SMALL_ACCOUNT_DATA_MAX_LEN_USIZE];
        let mut i: usize = 0;
        while i < len
            invariant
                i <= len,
                len == data@.len(),
                len <= SMALL_ACCOUNT_DATA_MAX_LEN_USIZE,
                buf@.len() == SMALL_ACCOUNT_DATA_MAX_LEN_USIZE as int,
                forall|j: int| 0 <= j < i ==> buf@[j] == data@[j],
            decreases len - i,
        {
            buf[i] = data[i];
            i = i + 1;
        }
        let acc = SmallAccount {
            data: buf,
            len: len as u8,
            lamports: params.lamports,
            rent_epoch: params.rent_epoch,
            owner: params.owner,
            executable: params.executable,
        };
        proof {
            assert(acc@.payload =~= params.data@);
            assert(acc@ =~= built_view(
                params.data@,
                params.lamports,
                params.rent_epoch,
                params.owner@,
                params.executable,
            ));
        }
        Ok(acc)
    }

    /// Builds an account directly from a physical buffer and a payload
    /// length, leaving the bytes beyond `len` in the buffer exactly as
    /// given. Those padding bytes do not show up in the logical view.
    pub fn from_raw_parts(
        data: [u8; SMALL_ACCOUNT_DATA_MAX_LEN_USIZE],
        len: u8,
        lamports: u64,
        rent_epoch: u64,
        owner: Pubkey,
        executable: bool,
    ) -> (r: Result<SmallAccount, DataTooLong>)
        ensures
            len <= SMALL_ACCOUNT_DATA_MAX_LEN ==> (r matches Ok(acc)
                && acc@ == built_view(
                data@.take(len as int),
                lamports,
                rent_epoch,
                owner@,
                executable,
            ) && acc.spec_buf() == data@ && acc.spec_len() == len as int),
            len > SMALL_ACCOUNT_DATA_MAX_LEN ==> r is Err,
    {
        if len > SMALL_ACCOUNT_DATA_MAX_LEN {
            return Err(DataTooLong);
        }
        let acc = SmallAccount {
            data: data,
            len: len,
            lamports: lamports,
            rent_epoch: rent_epoch,
            owner: owner,
            executable: executable,
        };
        Ok(acc)
    }

    /// The logical payload: exactly the first `len` bytes of the buffer,
    /// borrowed, never the padding behind them.
    pub fn data_slice(&self) -> (r: &[u8])
        ensures
            r@ == self@.payload,
    {
        proof {
            use_type_invariant(&*self);
        }
        let s = self.data.as_slice();
        slice_subrange(s, 0, self.len as usize)
    }

    /// The payload read capability: a transient view of the payload bytes.
    pub fn data(&self) -> (r: SmallAccountDataRef<'_>)
        ensures
            r@ == self@.payload,
    {
        SmallAccountDataRef(self.data_slice())
    }

    /// The executable-flag read capability.
    pub fn executable(&self) -> (r: bool)
        ensures
            r == self@.executable,
    {
        self.executable
    }

    /// The balance read capability.
    pub fn lamports(&self) -> (r: u64)
        ensures
            r == self@.lamports,
    {
        self.lamports
    }

    /// The owner-address read capability.
    pub fn owner(&self) -> (r: &Pubkey)
        ensures
            r@ == self@.owner,
    {
        &self.owner
    }

    /// The rent-epoch read capability.
    pub fn rent_epoch(&self) -> (r: u64)
        ensures
            r == self@.rent_epoch,
    {
        self.rent_epoch
    }

    /// The FNV-1a hash of the logical content: a function of the view
    /// alone, so padding bytes can never reach it.
    pub fn logical_hash(&self) -> (r: u64)
        ensures
            r == hash_of(self@),
    {
        let h1: u64 = fnv1a_fold_bytes(FNV_OFFSET_BASIS, self.data_slice());
        let h2: u64 = fnv1a_fold_word(h1, self.lamports());
        let h3: u64 = fnv1a_fold_word(h2, self.rent_epoch());
        let owner_bytes = self.owner().to_bytes();
        let h4: u64 = fnv1a_fold_bytes(h3, owner_bytes.as_slice());
        let flag: u8 = if self.executable() {
            1
        } else {
            0
        };
        fnv1a_fold_byte(h4, flag)
    }
}

/// A transient read-only view of an account's logical payload.
pub struct SmallAccountDataRef<'a>(pub &'a [u8]);

impl<'a> View for SmallAccountDataRef<'a> {
    type V = Seq<u8>;

    open spec fn view(&self) -> Seq<u8> {
        self.0@
    }
}

impl<'a> SmallAccountDataRef<'a> {
    /// The wrapped payload bytes.
    pub fn bytes(&self) -> (r: &'a [u8])
        ensures
            r@ == self@,
    {
        self.0
    }
}

/// Byte-for-byte equality of two slices.
fn bytes_eq(a: &[u8], b: &[u8]) -> (r: bool)
    ensures
        r == (a@ == b@),
{
    if a.len() != b.len() {
        return false;
    }
    let mut i: usize = 0;
    while i < a.len()
        invariant
            i <= a@.len(),
            a@.len() == b@.len(),
            forall|j: int| 0 <= j < i ==> a@[j] == b@[j],
        decreases a@.len() - i,
    {
        if a[i] != b[i] {
            return false;
        }
        i = i + 1;
    }
    proof {
        assert(a@ =~= b@);
    }
    true
}

impl PartialEq for SmallAccount {
    fn eq(&self, other: &SmallAccount) -> (r: bool) {
        let payload_eq = bytes_eq(self.data_slice(), other.data_slice());
        let r = payload_eq && self.lamports == other.lamports && self.rent_epoch
            == other.rent_epoch && self.owner == other.owner && self.executable
            == other.executable;
        proof {
            if r {
                assert(self@ =~= other@);
            }
        }
        r
    }
}

impl Eq for SmallAccount {}

impl vstd::std_specs::cmp::PartialEqSpecImpl for SmallAccount {
    open spec fn obeys_eq_spec() -> bool {
        true
    }

    open spec fn eq_spec(&self, other: &SmallAccount) -> bool {
        self@ == other@
    }
}

/// The FNV-1a hash of an account's logical content: the payload prefix,
/// then lamports, rent epoch, the owner bytes and the executable flag.
pub open spec fn hash_of(v: AccountView) -> u64 {
    let h1 = fnv1a_bytes(FNV_OFFSET_BASIS, v.payload);
    let h2 = fnv1a_word(h1, v.lamports);
    let h3 = fnv1a_word(h2, v.rent_epoch);
    let h4 = fnv1a_bytes(h3, v.owner);
    fnv1a_byte(h4, if v.executable { 1u8 } else { 0u8 })
}

/// A successful construction stores exactly the offered payload: the
/// logical view of the built account carries the construction input back
/// unchanged.
pub proof fn lemma_round_trip(
    data: Seq<u8>,
    lamports: u64,
    rent_epoch: u64,
    owner: Seq<u8>,
    executable: bool,
)
    ensures
        built_view(data, lamports, rent_epoch, owner, executable).payload == data,
{
}

/// Padding irrelevance: two accounts that agree on payload length, on the
/// buffer bytes up to that length and on all metadata are equal and hash
/// equally, whatever their padding bytes beyond the payload hold.
pub proof fn lemma_padding_irrelevant(a: SmallAccount, b: SmallAccount)
    requires
        0 <= a.spec_len() <= SMALL_ACCOUNT_DATA_MAX_LEN as int,
        a.spec_len() == b.spec_len(),
        forall|i: int| 0 <= i < a.spec_len() ==> a.spec_buf()[i] == b.spec_buf()[i],
        a.spec_lamports() == b.spec_lamports(),
        a.spec_rent_epoch() == b.spec_rent_epoch(),
        a.spec_owner() == b.spec_owner(),
        a.spec_executable() == b.spec_executable(),
    ensures
        a@ == b@,
        a.eq_spec(&b),
        hash_of(a@) == hash_of(b@),
{
    assert(a@.payload =~= b@.payload);
    assert(a@ =~= b@);
}

/// Accounts that agree on the payload but differ in at least one of the
/// metadata fields are unequal.
pub proof fn lemma_metadata_divergence(a: SmallAccount, b: SmallAccount)
    requires
        a@.payload == b@.payload,
        a@.lamports != b@.lamports || a@.rent_epoch != b@.rent_epoch || a@.owner != b@.owner
            || a@.executable != b@.executable,
    ensures
        !a.eq_spec(&b),
{
}

/// Hashing is consistent with equality: equal accounts hash identically.
pub proof fn lemma_hash_consistent_with_eq(a: SmallAccount, b: SmallAccount)
    requires
        a.eq_spec(&b),
    ensures
        hash_of(a@) == hash_of(b@),
{
}

} // verus!
