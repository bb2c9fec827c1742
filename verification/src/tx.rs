use vstd::prelude::*;

verus! {

/// One cell of the transaction, as the host exposes it: its type script in
/// byte-exact serialized form (absent when the cell carries no type script),
/// the 32-byte hash of that type script (absent in the same case), and its
/// data payload. The two script views come from two distinct host queries and
/// are modeled as independent fields.
pub struct Cell {
    pub type_script: Option<Vec<u8>>,
    pub type_hash: Option<Vec<u8>>,
    pub data: Vec<u8>,
}

/// A read-only snapshot of the transaction under validation, holding exactly
/// what the host's query interface exposes to one validator run: the ordered
/// input and output cells, the serialized type scripts of the cells in the
/// executing script's own input and output groups, the timestamps of the
/// header dependencies, the byte-exact serialization of the transaction's
/// first input reference, and the executing script's args and 32-byte hash.
pub struct TxView {
    pub inputs: Vec<Cell>,
    pub outputs: Vec<Cell>,
    pub group_input_types: Vec<Vec<u8>>,
    pub group_output_types: Vec<Vec<u8>>,
    pub header_dep_timestamps: Vec<u64>,
    pub first_input: Vec<u8>,
    pub script_args: Vec<u8>,
    pub script_hash: Vec<u8>,
}

impl TxView {
    /// What the host guarantees of every snapshot it hands out: the executing
    /// script's hash is exactly 32 bytes.
    pub open spec fn wf(self) -> bool {
        self.script_hash@.len() == 32
    }
}

/// The oracle record: an immutable 32-byte identity and the millisecond
/// timestamp of its last accepted update.
pub struct TimeOracle {
    pub oracle_id: Vec<u8>,
    pub last_updated_timestamp: u64,
}

/// What a transaction does to the oracle, decided from the number of
/// oracle-typed cells in the script's own input and output groups.
#[derive(Debug, Clone, Copy, PartialEq, Eq, Structural)]
pub enum OracleMode {
    Initializing,
    Updating,
}

} // verus!
