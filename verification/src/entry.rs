use vstd::prelude::*;

use crate::codec::bytes_eq;
use crate::codec::copy_bytes;
use crate::codec::decode_time_oracle;
use crate::codec::decode_udt_amount;
use crate::codec::serialize_script;
use crate::codec::spec_serialize_script;
use crate::codec::ORACLE_ID_LEN;
use crate::codec::TIME_ORACLE_DATA_LEN;
use crate::codec::UDT_AMOUNT_LEN;
use crate::error::Error;
use crate::hashing::blake2b256_of;
use crate::hashing::blake2b_256;
use crate::tx::Cell;
use crate::tx::OracleMode;
use crate::tx::TxView;

verus! {

use vstd::bytes::spec_u128_from_le_bytes;
use vstd::bytes::spec_u64_from_le_bytes;
use vstd::bytes::spec_u64_to_le_bytes;
use vstd::bytes::u64_to_le_bytes;

/// Minimum step of the oracle's timestamp per accepted update, in
/// milliseconds: updates are rate-limited to once per real-time minute.
pub const MIN_UPDATE_INTERVAL_MS: u64 = 60000;

/// Exclusive upper bound on the token amount minted by one accepted update.
pub const MAX_ISSUANCE: u128 = 1000000;

/// The hash-type byte of a script referenced by type.
pub const SCRIPT_HASH_TYPE_TYPE: u8 = 1;

/// The cell carries a type script whose serialized form equals the given
/// bytes.
pub open spec fn has_type(c: Cell, type_script: Seq<u8>) -> bool {
    match c.type_script {
        Some(v) => v@ == type_script,
        None => false,
    }
}

/// The cell carries a type script whose 32-byte hash equals the given bytes.
pub open spec fn has_type_hash(c: Cell, type_hash: Seq<u8>) -> bool {
    match c.type_hash {
        Some(v) => v@ == type_hash,
        None => false,
    }
}

/// The position of the first cell whose serialized type script equals the
/// given bytes.
pub open spec fn spec_find_position(cells: Seq<Cell>, type_script: Seq<u8>) -> Option<int>
    decreases cells.len(),
{
    if cells.len() == 0 {
        None
    } else if has_type(cells[0], type_script) {
        Some(0int)
    } else {
        match spec_find_position(cells.drop_first(), type_script) {
            Some(i) => Some(i + 1),
            None => None,
        }
    }
}

proof fn lemma_find_position_none(cells: Seq<Cell>, type_script: Seq<u8>)
    requires
        forall|j: int| 0 <= j < cells.len() ==> !has_type(cells[j], type_script),
    ensures
        spec_find_position(cells, type_script) is None,
    decreases cells.len(),
{
    if cells.len() > 0 {
        lemma_find_position_none(cells.drop_first(), type_script);
    }
}

proof fn lemma_find_position_first(cells: Seq<Cell>, type_script: Seq<u8>, i: int)
    requires
        0 <= i < cells.len(),
        has_type(cells[i], type_script),
        forall|j: int| 0 <= j < i ==> !has_type(cells[j], type_script),
    ensures
        spec_find_position(cells, type_script) == Some(i),
    decreases i,
{
    if i > 0 {
        lemma_find_position_first(cells.drop_first(), type_script, i - 1);
    }
}

/// Scans the cells in order and returns the position of the first one whose
/// serialized type script byte-equals `type_script`, if any.
pub fn find_position_by_type(type_script: &Vec<u8>, cells: &Vec<Cell>) -> (r: Option<usize>)
    ensures
        (match r {
            Some(i) => i < cells@.len() && spec_find_position(cells@, type_script@) == Some(
                i as int,
            ),
            None => spec_find_position(cells@, type_script@) is None,
        }),
{
    let n = cells.len();
    let mut i: usize = 0;
    while i < n
        invariant
            n == cells@.len(),
            i <= n,
            forall|j: int| 0 <= j < i ==> !has_type(cells@[j], type_script@),
        decreases n - i,
    {
        let matched = match &cells[i].type_script {
            Some(v) => bytes_eq(v, type_script),
            None => false,
        };
        if matched {
            proof {
                lemma_find_position_first(cells@, type_script@, i as int);
            }
            return Some(i);
        }
        i = i + 1;
    }
    proof {
        lemma_find_position_none(cells@, type_script@);
    }
    None
}

/// The amount held by a token cell, read little-endian from the head of its
/// data payload.
pub open spec fn spec_udt_amount(c: Cell) -> int {
    spec_u128_from_le_bytes(c.data@.subrange(0, UDT_AMOUNT_LEN as int)) as int
}

/// The sum of the amounts of all cells whose type hash equals `type_hash`.
pub open spec fn spec_sum_udt(cells: Seq<Cell>, type_hash: Seq<u8>) -> int
    decreases cells.len(),
{
    if cells.len() == 0 {
        0
    } else {
        (if has_type_hash(cells[0], type_hash) {
            spec_udt_amount(cells[0])
        } else {
            0
        }) + spec_sum_udt(cells.drop_first(), type_hash)
    }
}

/// Every cell of the given token type carries a full amount payload.
pub open spec fn udt_cells_wf(cells: Seq<Cell>, type_hash: Seq<u8>) -> bool {
    forall|i: int|
        0 <= i < cells.len() ==> (has_type_hash(cells[i], type_hash) ==> cells[i].data@.len()
            >= UDT_AMOUNT_LEN)
}

/// The sum of the head amounts of all cells that carry any type hash. It
/// bounds every per-type sum, whatever the type.
pub open spec fn spec_total_udt(cells: Seq<Cell>) -> int
    decreases cells.len(),
{
    if cells.len() == 0 {
        0
    } else {
        (if cells[0].type_hash is Some {
            spec_udt_amount(cells[0])
        } else {
            0
        }) + spec_total_udt(cells.drop_first())
    }
}

proof fn lemma_sum_udt_nonneg(cells: Seq<Cell>, type_hash: Seq<u8>)
    ensures
        spec_sum_udt(cells, type_hash) >= 0,
    decreases cells.len(),
{
    if cells.len() > 0 {
        lemma_sum_udt_nonneg(cells.drop_first(), type_hash);
    }
}

/// The sum of the amounts of one token type never exceeds the sum over all
/// typed cells of the same side.
pub proof fn lemma_sum_udt_le_total(cells: Seq<Cell>, type_hash: Seq<u8>)
    ensures
        spec_sum_udt(cells, type_hash) <= spec_total_udt(cells),
    decreases cells.len(),
{
    if cells.len() > 0 {
        lemma_sum_udt_le_total(cells.drop_first(), type_hash);
    }
}

/// Scans the cells and accumulates the amount of every cell whose type hash
/// equals `udt_type_hash`. A matching cell whose payload is shorter than an
/// amount is an encoding error.
pub fn sum_udt_by_type(cells: &Vec<Cell>, udt_type_hash: &Vec<u8>) -> (r: Result<u128, Error>)
    requires
        spec_sum_udt(cells@, udt_type_hash@) <= u128::MAX,
    ensures
        udt_cells_wf(cells@, udt_type_hash@) ==> r == Ok::<u128, Error>(
            spec_sum_udt(cells@, udt_type_hash@) as u128,
        ),
        !udt_cells_wf(cells@, udt_type_hash@) ==> r == Err::<u128, Error>(Error::Encoding),
{
    let mut sum: u128 = 0;
    let n = cells.len();
    let mut i: usize = 0;
    proof {
        assert(cells@.skip(0) =~= cells@);
    }
    while i < n
        invariant
            n == cells@.len(),
            i <= n,
            spec_sum_udt(cells@, udt_type_hash@) <= u128::MAX,
            sum + spec_sum_udt(cells@.skip(i as int), udt_type_hash@) == spec_sum_udt(
                cells@,
                udt_type_hash@,
            ),
            forall|j: int|
                0 <= j < i ==> (has_type_hash(cells@[j], udt_type_hash@) ==> cells@[j].data@.len()
                    >= UDT_AMOUNT_LEN),
        decreases n - i,
    {
        let matched = match &cells[i].type_hash {
            Some(v) => bytes_eq(v, udt_type_hash),
            None => false,
        };
        proof {
            assert(cells@.skip(i as int).drop_first() =~= cells@.skip(i as int + 1));
            assert(cells@.skip(i as int)[0] == cells@[i as int]);
            lemma_sum_udt_nonneg(cells@.skip(i as int + 1), udt_type_hash@);
        }
        if matched {
            match decode_udt_amount(&cells[i].data) {
                Ok(amount) => {
                    sum = sum + amount;
                },
                Err(_) => {
                    return Err(Error::Encoding);
                },
            }
        }
        i = i + 1;
    }
    proof {
        assert(cells@.skip(n as int) =~= Seq::<Cell>::empty());
    }
    Ok(sum)
}

/// The derived oracle identity: the digest of the first input reference's
/// byte-exact serialization followed by the 8-byte little-endian output
/// index. The first input can be spent only once, so the identity is unique
/// across all initializing transactions.
pub open spec fn spec_unique_id(first_input: Seq<u8>, output_index: u64) -> Seq<u8> {
    blake2b256_of(first_input + spec_u64_to_le_bytes(output_index))
}

/// Derives the oracle identity for the oracle cell created at
/// `output_index`.
pub fn unique_id(first_input: &Vec<u8>, output_index: usize) -> (r: Vec<u8>)
    ensures
        r@ == spec_unique_id(first_input@, output_index as u64),
        r@.len() == 32,
{
    let mut buf = copy_bytes(first_input);
    let mut idx_bytes = u64_to_le_bytes(output_index as u64);
    buf.append(&mut idx_bytes);
    blake2b_256(&buf)
}

/// Some header dependency carries exactly this timestamp.
pub open spec fn spec_anchored(timestamps: Seq<u64>, ts: u64) -> bool {
    exists|i: int| 0 <= i < timestamps.len() && timestamps[i] == ts
}

/// Scans the header dependencies and reports whether any one's timestamp
/// equals `anchored_timestamp`.
pub fn is_anchored_header_dep_exist(
    header_dep_timestamps: &Vec<u64>,
    anchored_timestamp: u64,
) -> (r: bool)
    ensures
        r == spec_anchored(header_dep_timestamps@, anchored_timestamp),
{
    let n = header_dep_timestamps.len();
    let mut i: usize = 0;
    while i < n
        invariant
            n == header_dep_timestamps@.len(),
            i <= n,
            forall|j: int| 0 <= j < i ==> header_dep_timestamps@[j] != anchored_timestamp,
        decreases n - i,
    {
        if header_dep_timestamps[i] == anchored_timestamp {
            return true;
        }
        i = i + 1;
    }
    false
}

/// The mode a transaction puts the oracle in, decided from the number of
/// oracle-typed cells in the script's own input and output groups: exactly
/// one output-group cell is demanded in every mode, no input-group cell
/// initializes, one updates, and more than one is an unreachable shape.
pub open spec fn spec_classify_mode(group_input_count: int, group_output_count: int) -> Result<
    OracleMode,
    Error,
> {
    if group_output_count != 1 {
        Err(Error::UnexpectedOutputTimeOracleCells)
    } else if group_input_count == 0 {
        Ok(OracleMode::Initializing)
    } else if group_input_count == 1 {
        Ok(OracleMode::Updating)
    } else {
        Err(Error::Unreachable)
    }
}

pub fn classify_mode(group_input_count: usize, group_output_count: usize) -> (r: Result<
    OracleMode,
    Error,
>)
    ensures
        r == spec_classify_mode(group_input_count as int, group_output_count as int),
{
    if group_output_count != 1 {
        Err(Error::UnexpectedOutputTimeOracleCells)
    } else if group_input_count == 0 {
        Ok(OracleMode::Initializing)
    } else if group_input_count == 1 {
        Ok(OracleMode::Updating)
    } else {
        Err(Error::Unreachable)
    }
}

/// The type hash of the oracle's own token: the digest of a script that
/// references the token contract by type and carries this oracle script's
/// hash as args, so each oracle instance mints a distinct token kind.
pub open spec fn spec_time_udt_script_hash(
    udt_code_type_hash: Seq<u8>,
    script_hash: Seq<u8>,
) -> Seq<u8> {
    blake2b256_of(spec_serialize_script(udt_code_type_hash, SCRIPT_HASH_TYPE_TYPE, script_hash))
}

/// Computes the type hash of the token kind tied to the oracle instance
/// whose script hash is `script_hash`.
pub fn time_udt_script_hash(udt_code_type_hash: &Vec<u8>, script_hash: &Vec<u8>) -> (r: Vec<u8>)
    requires
        udt_code_type_hash@.len() == 32,
        script_hash@.len() == 32,
    ensures
        r@ == spec_time_udt_script_hash(udt_code_type_hash@, script_hash@),
        r@.len() == 32,
{
    let serialized = serialize_script(udt_code_type_hash, SCRIPT_HASH_TYPE_TYPE, script_hash);
    blake2b_256(&serialized)
}

/// The position of the oracle cell among the inputs, located by the type
/// script of the first input-group cell.
pub open spec fn spec_prev_position(tx: TxView) -> Option<int> {
    spec_find_position(tx.inputs@, tx.group_input_types@[0]@)
}

/// The position of the oracle cell among the outputs, located by the type
/// script of the first output-group cell.
pub open spec fn spec_post_position(tx: TxView) -> Option<int> {
    spec_find_position(tx.outputs@, tx.group_output_types@[0]@)
}

/// Both located oracle cells carry a full record payload.
pub open spec fn spec_update_records_decodable(tx: TxView) -> bool {
    match (spec_prev_position(tx), spec_post_position(tx)) {
        (Some(i), Some(o)) => tx.inputs@[i].data@.len() >= TIME_ORACLE_DATA_LEN
            && tx.outputs@[o].data@.len() >= TIME_ORACLE_DATA_LEN,
        _ => false,
    }
}

/// The timestamp of the oracle record spent by the transaction.
pub open spec fn spec_prev_timestamp(tx: TxView) -> u64 {
    match spec_prev_position(tx) {
        Some(i) => spec_u64_from_le_bytes(
            tx.inputs@[i].data@.subrange(ORACLE_ID_LEN as int, TIME_ORACLE_DATA_LEN as int),
        ),
        None => 0,
    }
}

/// The timestamp of the oracle record created by the transaction.
pub open spec fn spec_post_timestamp(tx: TxView) -> u64 {
    match spec_post_position(tx) {
        Some(i) => spec_u64_from_le_bytes(
            tx.outputs@[i].data@.subrange(ORACLE_ID_LEN as int, TIME_ORACLE_DATA_LEN as int),
        ),
        None => 0,
    }
}

/// The net token amount minted for the oracle's token kind: output sum minus
/// input sum.
pub open spec fn spec_issuance_delta(tx: TxView, udt_code_type_hash: Seq<u8>) -> int {
    let th = spec_time_udt_script_hash(udt_code_type_hash, tx.script_hash@);
    spec_sum_udt(tx.outputs@, th) - spec_sum_udt(tx.inputs@, th)
}

/// The script's leading 32 args bytes equal the identity derived from the
/// first input reference and the given output position.
pub open spec fn spec_genesis_id_matches(tx: TxView, output_index: int) -> bool {
    tx.script_args@.len() >= 32 && tx.script_args@.subrange(0, 32) == spec_unique_id(
        tx.first_input@,
        output_index as u64,
    )
}

/// The verdict of an initializing transition: the sole output-group oracle
/// cell must be locatable among the outputs, and the script's args must
/// embed the derived identity; nothing else is checked at genesis.
pub open spec fn spec_validate_genesis(tx: TxView) -> Result<(), Error> {
    match spec_post_position(tx) {
        None => Err(Error::IndexOutOfBound),
        Some(i) => if spec_genesis_id_matches(tx, i) {
            Ok(())
        } else {
            Err(Error::UnexpectOracleId)
        },
    }
}

/// The verdict of an updating transition, checks in their documented order:
/// both oracle cells located, both records decodable, the timestamp moved
/// forward by at least the minimum interval, the new timestamp anchored by
/// some header dependency, every token cell well formed, and the minted
/// amount inside the open issuance bounds.
pub open spec fn spec_validate_update(tx: TxView, udt_code_type_hash: Seq<u8>) -> Result<
    (),
    Error,
> {
    let th = spec_time_udt_script_hash(udt_code_type_hash, tx.script_hash@);
    if spec_prev_position(tx) is None || spec_post_position(tx) is None {
        Err(Error::IndexOutOfBound)
    } else if !spec_update_records_decodable(tx) {
        Err(Error::InvalidTimeOracleData)
    } else if !(spec_post_timestamp(tx) > spec_prev_timestamp(tx) && spec_post_timestamp(tx)
        - spec_prev_timestamp(tx) >= MIN_UPDATE_INTERVAL_MS) {
        Err(Error::NotAllowedToUpdateInATimeSpanLessThan60s)
    } else if !spec_anchored(tx.header_dep_timestamps@, spec_post_timestamp(tx)) {
        Err(Error::NotFoundAnchoredHeaderDep)
    } else if !(udt_cells_wf(tx.inputs@, th) && udt_cells_wf(tx.outputs@, th)) {
        Err(Error::Encoding)
    } else if !(0 < spec_issuance_delta(tx, udt_code_type_hash) && spec_issuance_delta(
        tx,
        udt_code_type_hash,
    ) < MAX_ISSUANCE) {
        Err(Error::NotAllowedToIssueMoreThan1000000Tokens)
    } else {
        Ok(())
    }
}

/// The verdict of one validator run over the whole snapshot: classify the
/// mode from the group cell counts, then apply the genesis or the update
/// checks; the first violated rule is the verdict.
pub open spec fn spec_validate(tx: TxView, udt_code_type_hash: Seq<u8>) -> Result<(), Error> {
    match spec_classify_mode(
        tx.group_input_types@.len() as int,
        tx.group_output_types@.len() as int,
    ) {
        Err(e) => Err(e),
        Ok(OracleMode::Initializing) => spec_validate_genesis(tx),
        Ok(OracleMode::Updating) => spec_validate_update(tx, udt_code_type_hash),
    }
}

/// The script's leading 32 args bytes byte-equal the 32-byte `id`.
fn bytes_prefix_matches(args: &Vec<u8>, id: &Vec<u8>) -> (r: bool)
    requires
        id@.len() == 32,
    ensures
        r <==> (args@.len() >= 32 && args@.subrange(0, 32) == id@),
{
    if args.len() < 32 {
        return false;
    }
    let mut i: usize = 0;
    while i < 32
        invariant
            args@.len() >= 32,
            id@.len() == 32,
            i <= 32,
            forall|j: int| 0 <= j < i ==> args@[j] == id@[j],
        decreases 32 - i,
    {
        if args[i] != id[i] {
            proof {
                assert(args@.subrange(0, 32)[i as int] == args@[i as int]);
            }
            return false;
        }
        i = i + 1;
    }
    proof {
        assert(args@.subrange(0, 32) =~= id@);
    }
    true
}

/// Runs the transition validator over one transaction snapshot: the result
/// is `Ok` when every applicable rule holds, else the first failure's
/// reason.
///
/// `udt_code_type_hash` is the 32-byte code hash of the token contract the
/// oracle's token kind is built on, a fixed parameter of the deployment.
/// The bounds on the per-side token totals keep the accumulated amounts
/// inside the machine's 128-bit range; they only bind in updating mode, the
/// one mode that sums tokens.
pub fn validate(tx: &TxView, udt_code_type_hash: &Vec<u8>) -> (r: Result<(), Error>)
    requires
        tx.wf(),
        udt_code_type_hash@.len() == 32,
        (tx.group_input_types@.len() == 1 && tx.group_output_types@.len() == 1) ==> (
        spec_total_udt(tx.inputs@) <= u128::MAX && spec_total_udt(tx.outputs@) <= u128::MAX),
    ensures
        r == spec_validate(*tx, udt_code_type_hash@),
{
    let mode = match classify_mode(tx.group_input_types.len(), tx.group_output_types.len()) {
        Ok(m) => m,
        Err(e) => {
            return Err(e);
        },
    };
    match mode {
        OracleMode::Initializing => {
            let output_index = match find_position_by_type(
                &tx.group_output_types[0],
                &tx.outputs,
            ) {
                Some(i) => i,
                None => {
                    return Err(Error::IndexOutOfBound);
                },
            };
            let oracle_id = unique_id(&tx.first_input, output_index);
            if bytes_prefix_matches(&tx.script_args, &oracle_id) {
                Ok(())
            } else {
                Err(Error::UnexpectOracleId)
            }
        },
        OracleMode::Updating => {
            let prev_index = match find_position_by_type(&tx.group_input_types[0], &tx.inputs) {
                Some(i) => i,
                None => {
                    return Err(Error::IndexOutOfBound);
                },
            };
            let post_index = match find_position_by_type(&tx.group_output_types[0], &tx.outputs) {
                Some(i) => i,
                None => {
                    return Err(Error::IndexOutOfBound);
                },
            };
            let prev = match decode_time_oracle(&tx.inputs[prev_index].data) {
                Ok(rec) => rec,
                Err(_) => {
                    return Err(Error::InvalidTimeOracleData);
                },
            };
            let post = match decode_time_oracle(&tx.outputs[post_index].data) {
                Ok(rec) => rec,
                Err(_) => {
                    return Err(Error::InvalidTimeOracleData);
                },
            };
            if !(post.last_updated_timestamp > prev.last_updated_timestamp
                && post.last_updated_timestamp - prev.last_updated_timestamp
                >= MIN_UPDATE_INTERVAL_MS) {
                return Err(Error::NotAllowedToUpdateInATimeSpanLessThan60s);
            }
            if !is_anchored_header_dep_exist(
                &tx.header_dep_timestamps,
                post.last_updated_timestamp,
            ) {
                return Err(Error::NotFoundAnchoredHeaderDep);
            }
            let th = time_udt_script_hash(udt_code_type_hash, &tx.script_hash);
            proof {
                lemma_sum_udt_le_total(tx.inputs@, th@);
                lemma_sum_udt_le_total(tx.outputs@, th@);
                lemma_sum_udt_nonneg(tx.inputs@, th@);
                lemma_sum_udt_nonneg(tx.outputs@, th@);
            }
            let inputs_token_sum = match sum_udt_by_type(&tx.inputs, &th) {
                Ok(s) => s,
                Err(e) => {
                    return Err(e);
                },
            };
            let outputs_token_sum = match sum_udt_by_type(&tx.outputs, &th) {
                Ok(s) => s,
                Err(e) => {
                    return Err(e);
                },
            };
            if !(outputs_token_sum > inputs_token_sum && outputs_token_sum - inputs_token_sum
                < MAX_ISSUANCE) {
                return Err(Error::NotAllowedToIssueMoreThan1000000Tokens);
            }
            Ok(())
        },
    }
}

} // verus!
