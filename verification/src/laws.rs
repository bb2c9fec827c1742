use vstd::prelude::*;

use crate::entry::spec_anchored;
use crate::entry::spec_genesis_id_matches;
use crate::entry::spec_issuance_delta;
use crate::entry::spec_post_position;
use crate::entry::spec_post_timestamp;
use crate::entry::spec_prev_timestamp;
use crate::entry::spec_validate;
use crate::entry::MAX_ISSUANCE;
use crate::entry::MIN_UPDATE_INTERVAL_MS;
use crate::error::Error;
use crate::tx::TxView;

verus! {

/// Genesis law: with no oracle cell in the input group and exactly one in
/// the output group, the verdict turns on the derived identity alone. When
/// the oracle output cannot be located the run fails structurally; once it
/// is located, the transaction is accepted exactly when the script's leading
/// 32 args bytes equal the identity derived from the first input reference
/// and that output position, and any other args value is rejected as an
/// identity mismatch.
pub proof fn lemma_genesis_invariant(tx: TxView, udt_code_type_hash: Seq<u8>)
    requires
        tx.group_input_types@.len() == 0,
        tx.group_output_types@.len() == 1,
    ensures
        (match spec_post_position(tx) {
            Some(i) => if spec_genesis_id_matches(tx, i) {
                spec_validate(tx, udt_code_type_hash) == Ok::<(), Error>(())
            } else {
                spec_validate(tx, udt_code_type_hash) == Err::<(), Error>(Error::UnexpectOracleId)
            },
            None => spec_validate(tx, udt_code_type_hash) == Err::<(), Error>(
                Error::IndexOutOfBound,
            ),
        }),
{
}

/// Monotonic-time law: every accepted updating transition moves the oracle's
/// timestamp strictly forward, and by at least the minimum update interval.
pub proof fn lemma_monotonic_time(tx: TxView, udt_code_type_hash: Seq<u8>)
    requires
        tx.group_input_types@.len() == 1,
        tx.group_output_types@.len() == 1,
        spec_validate(tx, udt_code_type_hash) == Ok::<(), Error>(()),
    ensures
        spec_post_timestamp(tx) > spec_prev_timestamp(tx),
        spec_post_timestamp(tx) - spec_prev_timestamp(tx) >= MIN_UPDATE_INTERVAL_MS,
{
}

/// Anchoring law: every accepted updating transition carries some header
/// dependency whose timestamp equals the new oracle timestamp exactly.
pub proof fn lemma_anchoring(tx: TxView, udt_code_type_hash: Seq<u8>)
    requires
        tx.group_input_types@.len() == 1,
        tx.group_output_types@.len() == 1,
        spec_validate(tx, udt_code_type_hash) == Ok::<(), Error>(()),
    ensures
        spec_anchored(tx.header_dep_timestamps@, spec_post_timestamp(tx)),
{
}

/// Bounded-issuance law: every accepted updating transition mints a net
/// token amount of the oracle's own kind that is strictly positive and
/// strictly under the issuance bound; no update may destroy net token or
/// mint nothing.
pub proof fn lemma_bounded_issuance(tx: TxView, udt_code_type_hash: Seq<u8>)
    requires
        tx.group_input_types@.len() == 1,
        tx.group_output_types@.len() == 1,
        spec_validate(tx, udt_code_type_hash) == Ok::<(), Error>(()),
    ensures
        0 < spec_issuance_delta(tx, udt_code_type_hash),
        spec_issuance_delta(tx, udt_code_type_hash) < MAX_ISSUANCE,
{
}

/// Uniqueness law: every accepted transaction, whatever its mode, has
/// exactly one oracle-typed cell in the output group and at most one in the
/// input group.
pub proof fn lemma_uniqueness(tx: TxView, udt_code_type_hash: Seq<u8>)
    requires
        spec_validate(tx, udt_code_type_hash) is Ok,
    ensures
        tx.group_output_types@.len() == 1,
        tx.group_input_types@.len() <= 1,
{
}

} // verus!
