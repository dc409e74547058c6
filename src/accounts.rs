use vstd::prelude::*;
use ore::utils::AccountDeserialize;

verus! {

/// The first byte of a bus account.
pub const BUS_DISCRIMINATOR: u8 = 100;

/// The first byte of a proof account.
pub const PROOF_DISCRIMINATOR: u8 = 101;

/// Every account starts with an eight-byte header.
pub const HEADER_LEN: usize = 8;

/// Bytes of a bus record after the header: its id and its rewards.
pub const BUS_RECORD_LEN: usize = 16;

/// Bytes of a proof record after the header.
pub const PROOF_RECORD_LEN: usize = 88;

/// Why an account could not be read.
#[derive(Clone, Debug)]
pub enum ReadError {
    /// The account does not exist on the ledger.
    NotFound,
    /// The node could not be reached or answered with an error.
    Transport(String),
    /// The bytes are not a record of the expected kind.
    MalformedRecord,
}

/// A bus account's record.
#[derive(Clone, Copy, Debug)]
pub struct BusRecord {
    pub id: u64,
    pub rewards: u64,
}

/// True of bytes laid out as a header with `discriminator` and a record of
/// `record_len` bytes.
pub open spec fn has_layout(data: Seq<u8>, discriminator: u8, record_len: nat) -> bool {
    &&& data.len() == HEADER_LEN + record_len
    &&& data[0] == discriminator
}

/// Relies on ore's `Bus::try_from_bytes`: it checks the first byte against
/// the bus discriminator and casts the bytes after the header, which must be
/// exactly one record (and suitably aligned in memory). It indexes the header,
/// so it needs at least eight bytes.
#[verifier::external_body]
fn decode_bus(data: &Vec<u8>) -> (r: Option<BusRecord>)
    requires
        data@.len() >= HEADER_LEN,
    ensures
        r is Some ==> has_layout(data@, BUS_DISCRIMINATOR, BUS_RECORD_LEN as nat),
{
    match ore::state::Bus::try_from_bytes(data) {
        Ok(b) => Some(BusRecord { id: b.id, rewards: b.rewards }),
        Err(_) => None,
    }
}

/// Relies on ore's `Proof::try_from_bytes`, as `decode_bus` does for busses;
/// hands back the claimable rewards of the record.
#[verifier::external_body]
fn decode_proof_rewards(data: &Vec<u8>) -> (r: Option<u64>)
    requires
        data@.len() >= HEADER_LEN,
    ensures
        r is Some ==> has_layout(data@, PROOF_DISCRIMINATOR, PROOF_RECORD_LEN as nat),
{
    match ore::state::Proof::try_from_bytes(data) {
        Ok(p) => Some(p.claimable_rewards),
        Err(_) => None,
    }
}

/// Reads one bus account; a record that does not decode is an error.
pub fn get_bus(data: &Vec<u8>) -> (r: Result<BusRecord, ReadError>)
    ensures
        r is Ok ==> has_layout(data@, BUS_DISCRIMINATOR, BUS_RECORD_LEN as nat),
        r is Err ==> r == Err::<BusRecord, ReadError>(ReadError::MalformedRecord),
        data@.len() < HEADER_LEN ==> r is Err,
{
    if data.len() < HEADER_LEN {
        return Err(ReadError::MalformedRecord);
    }
    match decode_bus(data) {
        Some(b) => Ok(b),
        None => Err(ReadError::MalformedRecord),
    }
}

/// Reads the claimable rewards out of a proof account.
pub fn read_claimable_rewards(data: &Vec<u8>) -> (r: Result<u64, ReadError>)
    ensures
        r is Ok ==> has_layout(data@, PROOF_DISCRIMINATOR, PROOF_RECORD_LEN as nat),
        r is Err ==> r == Err::<u64, ReadError>(ReadError::MalformedRecord),
        data@.len() < HEADER_LEN ==> r is Err,
{
    if data.len() < HEADER_LEN {
        return Err(ReadError::MalformedRecord);
    }
    match decode_proof_rewards(data) {
        Some(v) => Ok(v),
        None => Err(ReadError::MalformedRecord),
    }
}

/// The records that decoded, in the order of the scan.
pub open spec fn decoded_records(results: Seq<Option<BusRecord>>) -> Seq<BusRecord>
    decreases results.len(),
{
    if results.len() == 0 {
        Seq::empty()
    } else {
        let prev = decoded_records(results.drop_last());
        match results.last() {
            Some(b) => prev.push(b),
            None => prev,
        }
    }
}

/// Reads each of the scanned bus accounts in turn; an account that does not
/// decode gives `None` and the scan goes on.
pub fn decode_busses(accounts: &Vec<Vec<u8>>) -> (r: Vec<Option<BusRecord>>)
    ensures
        r@.len() == accounts@.len(),
        forall|i: int| 0 <= i < r@.len() && r@[i] is Some
            ==> has_layout(#[trigger] accounts@[i]@, BUS_DISCRIMINATOR, BUS_RECORD_LEN as nat),
        forall|i: int| 0 <= i < r@.len() && accounts@[i]@.len() < HEADER_LEN ==> #[trigger] r@[i] is None,
{
    let mut r: Vec<Option<BusRecord>> = Vec::new();
    let mut i: usize = 0;
    while i < accounts.len()
        invariant
            i <= accounts@.len(),
            r@.len() == i,
            forall|j: int| 0 <= j < i && r@[j] is Some
                ==> has_layout(#[trigger] accounts@[j]@, BUS_DISCRIMINATOR, BUS_RECORD_LEN as nat),
            forall|j: int| 0 <= j < i && accounts@[j]@.len() < HEADER_LEN ==> #[trigger] r@[j] is None,
        decreases accounts@.len() - i,
    {
        match get_bus(&accounts[i]) {
            Ok(b) => r.push(Some(b)),
            Err(_) => r.push(None),
        }
        i = i + 1;
    }
    r
}

/// Keeps the records that decoded, in order, and drops the others.
pub fn keep_decoded(results: &Vec<Option<BusRecord>>) -> (r: Vec<BusRecord>)
    ensures
        r@ == decoded_records(results@),
{
    let mut r: Vec<BusRecord> = Vec::new();
    let mut i: usize = 0;
    while i < results.len()
        invariant
            i <= results@.len(),
            r@ == decoded_records(results@.subrange(0, i as int)),
        decreases results@.len() - i,
    {
        assert(results@.subrange(0, i + 1).drop_last() =~= results@.subrange(0, i as int));
        match results[i] {
            Some(b) => r.push(b),
            None => {},
        }
        i = i + 1;
    }
    assert(results@.subrange(0, results@.len() as int) =~= results@);
    r
}

/// The bus records of a scan of bus accounts: those that decode, in order.
pub fn busses(accounts: &Vec<Vec<u8>>) -> (r: Vec<BusRecord>)
    ensures
        exists|results: Seq<Option<BusRecord>>| {
            &&& results.len() == accounts@.len()
            &&& forall|i: int| 0 <= i < results.len() && results[i] is Some
                    ==> has_layout(#[trigger] accounts@[i]@, BUS_DISCRIMINATOR, BUS_RECORD_LEN as nat)
            &&& r@ == decoded_records(results)
        },
{
    let results = decode_busses(accounts);
    keep_decoded(&results)
}

/// Scanning the concatenation of two runs of results keeps the records of
/// each, in order.
pub proof fn lemma_decoded_concat(a: Seq<Option<BusRecord>>, b: Seq<Option<BusRecord>>)
    ensures
        decoded_records(a + b) == decoded_records(a) + decoded_records(b),
    decreases b.len(),
{
    if b.len() == 0 {
        assert(a + b =~= a);
        assert(decoded_records(a) + decoded_records(b) =~= decoded_records(a));
    } else {
        assert((a + b).drop_last() =~= a + b.drop_last());
        lemma_decoded_concat(a, b.drop_last());
        match b.last() {
            Some(x) => {
                assert(decoded_records(a) + decoded_records(b.drop_last()).push(x)
                    =~= (decoded_records(a) + decoded_records(b.drop_last())).push(x));
            },
            None => {},
        }
    }
}

/// An account that fails to decode is left out of a scan without stopping
/// it, and every account that decodes is kept in its place.
pub proof fn lemma_scan_skips_failures(
    before: Seq<Option<BusRecord>>,
    entry: Option<BusRecord>,
    after: Seq<Option<BusRecord>>,
)
    ensures
        entry is None ==> decoded_records(before.push(entry) + after)
            == decoded_records(before) + decoded_records(after),
        entry matches Some(b) ==> decoded_records(before.push(entry) + after)
            == decoded_records(before).push(b) + decoded_records(after),
{
    lemma_decoded_concat(before.push(entry), after);
    assert(before.push(entry).drop_last() =~= before);
}

} // verus!
