//! The inventory transaction that a document hands to the inventory engine.
//!
//! Every stock change goes through one committed transaction; the documents
//! of this library only plan it.

use vstd::prelude::*;

verus! {

/// A decimal quantity: `mantissa * 10^-scale`.
#[derive(Debug, Clone, Copy, PartialEq, Eq, Structural)]
pub struct Qty {
    pub mantissa: i128,
    pub scale: u32,
}

impl Qty {
    /// The quantity is greater than zero.
    pub open spec fn spec_positive(self) -> bool {
        self.mantissa > 0
    }

    pub fn is_positive(&self) -> (r: bool)
        ensures
            r == self.spec_positive(),
    {
        self.mantissa > 0
    }
}

/// Direction of a transaction line.
#[derive(Debug, Clone, Copy, PartialEq, Eq, Structural)]
pub enum IoFlag {
    In,
    Out,
}

/// Status of stock at a location.
#[derive(Debug, Clone, Copy, PartialEq, Eq, Structural)]
pub enum StockStatus {
    Qualified,
    ToCheck,
    Bad,
    Scrapped,
}

/// Kind of transaction.
#[derive(Debug, Clone, Copy, PartialEq, Eq, Structural)]
pub enum TxnType {
    In,
    Out,
    Transfer,
}

/// One side (source or target) of a transaction.
#[derive(Debug, Clone, Copy, PartialEq, Eq, Structural)]
pub struct TxnSideInput {
    pub wh_id: i64,
    pub loc_id: i64,
    pub status: Option<StockStatus>,
}

/// One line of a transaction.
#[derive(Debug, Clone, PartialEq, Eq)]
pub struct TxnLineInput {
    pub line_no: i32,
    pub material_id: i64,
    pub batch_no: String,
    pub qty: Qty,
    pub unit: String,
    pub io_flag: IoFlag,
    pub source_material_id: Option<i64>,
    pub target_material_id: Option<i64>,
    pub stock_status: Option<StockStatus>,
    pub status_change_flag: bool,
    pub location_change_flag: bool,
    pub item_change_flag: bool,
    pub recoverable_flag: bool,
    pub scrap_flag: bool,
    pub note: Option<String>,
}

/// A transaction handed to the inventory engine.
#[derive(Debug, Clone, PartialEq, Eq)]
pub struct CommitTxnCommand {
    pub txn_type: TxnType,
    pub scene_code: String,
    pub scene_name: Option<String>,
    pub doc_type: String,
    pub doc_no: String,
    pub source_object_type: Option<String>,
    pub source_object_id: Option<i64>,
    pub target_object_type: Option<String>,
    pub target_object_id: Option<i64>,
    pub source: Option<TxnSideInput>,
    pub target: Option<TxnSideInput>,
    pub lines: Vec<TxnLineInput>,
    pub is_exception: bool,
    pub exception_type: Option<String>,
    pub related_doc_no: Option<String>,
    /// Fields of the document snapshot kept with the transaction, as
    /// (key, value) pairs, if any.
    pub snapshot: Option<Vec<(String, String)>>,
    pub remark: Option<String>,
}

} // verus!
