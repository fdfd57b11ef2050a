use vstd::prelude::*;
use crate::text::str_eq;

verus! {

/// Lifecycle state of a stored intent.
#[derive(Clone, Copy, Debug, PartialEq, Eq, Structural)]
pub enum IntentStatus {
    Pending,
    Executed,
    Expired,
    Cancelled,
}

/// The text under which a status is kept in the `status` column.
pub open spec fn status_db_text(s: IntentStatus) -> Seq<char> {
    match s {
        IntentStatus::Pending => "PENDING"@,
        IntentStatus::Executed => "EXECUTED"@,
        IntentStatus::Expired => "EXPIRED"@,
        IntentStatus::Cancelled => "CANCELLED"@,
    }
}

/// Reading a `status` column: the three non-pending texts map to their
/// status, and anything else is read as pending.
pub open spec fn status_from_db_text(raw: Seq<char>) -> IntentStatus {
    if raw == "EXECUTED"@ {
        IntentStatus::Executed
    } else if raw == "EXPIRED"@ {
        IntentStatus::Expired
    } else if raw == "CANCELLED"@ {
        IntentStatus::Cancelled
    } else {
        IntentStatus::Pending
    }
}

impl IntentStatus {
    pub fn as_db_str(self) -> (res: &'static str)
        ensures
            res@ == status_db_text(self),
    {
        match self {
            IntentStatus::Pending => "PENDING",
            IntentStatus::Executed => "EXECUTED",
            IntentStatus::Expired => "EXPIRED",
            IntentStatus::Cancelled => "CANCELLED",
        }
    }

    pub fn from_db_str(raw: &str) -> (res: Self)
        ensures
            res == status_from_db_text(raw@),
    {
        if str_eq(raw, "EXECUTED") {
            IntentStatus::Executed
        } else if str_eq(raw, "EXPIRED") {
            IntentStatus::Expired
        } else if str_eq(raw, "CANCELLED") {
            IntentStatus::Cancelled
        } else {
            IntentStatus::Pending
        }
    }
}

/// Every status survives a round trip through its database text.
pub proof fn lemma_status_db_roundtrip(s: IntentStatus)
    ensures
        status_from_db_text(status_db_text(s)) == s,
{
    reveal_strlit("PENDING");
    reveal_strlit("EXECUTED");
    reveal_strlit("EXPIRED");
    reveal_strlit("CANCELLED");
    assert("PENDING"@.len() != "EXECUTED"@.len());
    assert("PENDING"@.len() != "CANCELLED"@.len());
    assert("PENDING"@[0] != "EXPIRED"@[0]);
    assert("EXPIRED"@.len() != "EXECUTED"@.len());
    assert("CANCELLED"@.len() != "EXECUTED"@.len());
    assert("CANCELLED"@.len() != "EXPIRED"@.len());
}


/// The intent a maker signs: sell `amount_in` of `token_in` for at least
/// `min_amount_out` of `token_out`, delivered to `receiver`, before `deadline`.
#[derive(Clone, Debug)]
pub struct IntentPayload {
    pub maker: String,
    pub token_in: String,
    pub token_out: String,
    pub amount_in: String,
    pub min_amount_out: String,
    pub receiver: String,
    pub deadline: i64,
    pub nonce: u64,
    pub salt: String,
    pub max_relayer_fee_bps: u16,
    pub allowed_relayer: Option<String>,
    pub referral_code: Option<String>,
    pub partial_fill_allowed: bool,
}

/// A signed intent as submitted for relaying.
#[derive(Clone, Debug)]
pub struct CreateIntentRequest {
    pub intent: IntentPayload,
    pub signature: String,
}


/// An instant in UTC: seconds since the Unix epoch and the nanoseconds past them.
#[derive(Clone, Copy, Debug, PartialEq, Eq, Structural)]
pub struct Timestamp {
    pub secs: i64,
    pub nanos: u32,
}

/// A row of the `intents` table as the database returns it.
#[derive(Clone, Debug)]
pub struct DbIntentRow {
    pub id: u128,
    pub intent_hash: String,
    pub maker: String,
    pub token_in: String,
    pub token_out: String,
    pub amount_in: String,
    pub min_amount_out: String,
    pub receiver: String,
    pub deadline: i64,
    pub nonce: i64,
    pub salt: String,
    pub max_relayer_fee_bps: i32,
    pub allowed_relayer: Option<String>,
    pub referral_code: Option<String>,
    pub partial_fill_allowed: bool,
    pub signature: String,
    pub status: String,
    pub created_at: Timestamp,
    pub executed_at: Option<Timestamp>,
    pub executed_by: Option<String>,
    pub final_amount_out: Option<String>,
    pub execution_tx_hash: Option<String>,
}

/// A relayed intent with its lifecycle data.
#[derive(Clone, Debug)]
pub struct StoredIntent {
    pub id: u128,
    pub intent_hash: String,
    pub intent: IntentPayload,
    pub signature: String,
    pub status: IntentStatus,
    pub created_at: Timestamp,
    pub executed_at: Option<Timestamp>,
    pub executed_by: Option<String>,
    pub final_amount_out: Option<String>,
    pub execution_tx_hash: Option<String>,
}

/// A stored nonce column: negative values read as 0.
pub open spec fn nonce_from_column(raw: i64) -> u64 {
    if raw < 0 {
        0
    } else {
        raw as u64
    }
}

/// A stored fee column: negative values read as 0, others keep their low 16 bits.
pub open spec fn fee_bps_from_column(raw: i32) -> u16 {
    if raw < 0 {
        0
    } else {
        (raw % 65536) as u16
    }
}

pub fn nonce_from_db(raw: i64) -> (res: u64)
    ensures
        res == nonce_from_column(raw),
{
    if raw < 0 {
        0
    } else {
        raw as u64
    }
}

pub fn fee_bps_from_db(raw: i32) -> (res: u16)
    ensures
        res == fee_bps_from_column(raw),
{
    if raw < 0 {
        0
    } else {
        let r: u16 = raw as u16;
        assert(raw >= 0 ==> (raw as u16) == ((raw % 65536) as u16)) by (bit_vector);
        r
    }
}

/// The stored intent that a row denotes.
pub open spec fn stored_intent_of(row: DbIntentRow) -> StoredIntent {
    StoredIntent {
        id: row.id,
        intent_hash: row.intent_hash,
        intent: IntentPayload {
            maker: row.maker,
            token_in: row.token_in,
            token_out: row.token_out,
            amount_in: row.amount_in,
            min_amount_out: row.min_amount_out,
            receiver: row.receiver,
            deadline: row.deadline,
            nonce: nonce_from_column(row.nonce),
            salt: row.salt,
            max_relayer_fee_bps: fee_bps_from_column(row.max_relayer_fee_bps),
            allowed_relayer: row.allowed_relayer,
            referral_code: row.referral_code,
            partial_fill_allowed: row.partial_fill_allowed,
        },
        signature: row.signature,
        status: status_from_db_text(row.status@),
        created_at: row.created_at,
        executed_at: row.executed_at,
        executed_by: row.executed_by,
        final_amount_out: row.final_amount_out,
        execution_tx_hash: row.execution_tx_hash,
    }
}

impl From<DbIntentRow> for StoredIntent {
    fn from(row: DbIntentRow) -> (res: Self) {
        let status = IntentStatus::from_db_str(row.status.as_str());
        let nonce = nonce_from_db(row.nonce);
        let fee = fee_bps_from_db(row.max_relayer_fee_bps);
        StoredIntent {
            id: row.id,
            intent_hash: row.intent_hash,
            intent: IntentPayload {
                maker: row.maker,
                token_in: row.token_in,
                token_out: row.token_out,
                amount_in: row.amount_in,
                min_amount_out: row.min_amount_out,
                receiver: row.receiver,
                deadline: row.deadline,
                nonce,
                salt: row.salt,
                max_relayer_fee_bps: fee,
                allowed_relayer: row.allowed_relayer,
                referral_code: row.referral_code,
                partial_fill_allowed: row.partial_fill_allowed,
            },
            signature: row.signature,
            status,
            created_at: row.created_at,
            executed_at: row.executed_at,
            executed_by: row.executed_by,
            final_amount_out: row.final_amount_out,
            execution_tx_hash: row.execution_tx_hash,
        }
    }
}

impl vstd::std_specs::convert::FromSpecImpl<DbIntentRow> for StoredIntent {
    open spec fn obeys_from_spec() -> bool {
        true
    }

    open spec fn from_spec(row: DbIntentRow) -> StoredIntent {
        stored_intent_of(row)
    }
}


/// The answer to an accepted intent.
#[derive(Clone, Debug)]
pub struct IntentCreatedResponse {
    pub intent_hash: String,
    pub status: IntentStatus,
    pub created_at: Timestamp,
}

/// The answer to a status request.
#[derive(Clone, Debug)]
pub struct IntentStatusResponse {
    pub status: IntentStatus,
    pub created_at: Timestamp,
    pub executed_at: Option<Timestamp>,
    pub executed_by: Option<String>,
    pub final_amount_out: Option<String>,
}

/// The status by which intents can be listed.
#[derive(Clone, Copy, Debug, PartialEq, Eq, Structural)]
pub enum IntentStatusFilter {
    Pending,
    Executed,
    Expired,
    Cancelled,
}

/// The status that a filter selects.
pub open spec fn filter_status(f: IntentStatusFilter) -> IntentStatus {
    match f {
        IntentStatusFilter::Pending => IntentStatus::Pending,
        IntentStatusFilter::Executed => IntentStatus::Executed,
        IntentStatusFilter::Expired => IntentStatus::Expired,
        IntentStatusFilter::Cancelled => IntentStatus::Cancelled,
    }
}

/// The column text that a filter compares with.
pub open spec fn filter_db_text(f: IntentStatusFilter) -> Seq<char> {
    match f {
        IntentStatusFilter::Pending => "PENDING"@,
        IntentStatusFilter::Executed => "EXECUTED"@,
        IntentStatusFilter::Expired => "EXPIRED"@,
        IntentStatusFilter::Cancelled => "CANCELLED"@,
    }
}

impl IntentStatusFilter {
    pub fn as_db_str(&self) -> (res: &'static str)
        ensures
            res@ == filter_db_text(*self),
    {
        match self {
            IntentStatusFilter::Pending => "PENDING",
            IntentStatusFilter::Executed => "EXECUTED",
            IntentStatusFilter::Expired => "EXPIRED",
            IntentStatusFilter::Cancelled => "CANCELLED",
        }
    }
}

/// A filter compares with the very text under which its status is stored, and
/// that text reads back as that status: listing by a status finds exactly the
/// intents stored with it.
pub proof fn lemma_filter_matches_stored_status(f: IntentStatusFilter)
    ensures
        filter_db_text(f) == status_db_text(filter_status(f)),
        status_from_db_text(filter_db_text(f)) == filter_status(f),
{
    lemma_status_db_roundtrip(filter_status(f));
}

/// The query of an intent listing.
#[derive(Clone, Debug)]
pub struct ListIntentsQuery {
    pub maker: Option<String>,
    pub status: Option<IntentStatusFilter>,
    pub limit: Option<usize>,
    pub offset: Option<usize>,
}

/// A maker's request to cancel one of its intents.
#[derive(Clone, Debug)]
pub struct CancelIntentRequest {
    pub maker: String,
}

/// A whitelisted relayer's offer to execute an intent.
#[derive(Clone, Debug)]
pub struct RelayerProposalRequest {
    pub intent_hash: String,
    pub relayer_address: String,
    pub proposed_route: String,
    pub expected_output: String,
    pub gas_estimate: String,
    pub proposed_fee_bps: u16,
    pub signature: String,
}

/// What subscribers are told of a new or changed intent.
#[derive(Clone, Debug)]
pub struct IntentBroadcastEvent {
    pub kind: String,
    pub intent_hash: String,
    pub status: IntentStatus,
    pub maker: String,
    pub token_in: String,
    pub token_out: String,
    pub amount_in: String,
    pub min_amount_out: String,
    pub created_at: Timestamp,
}

/// The per-intent analytics summary.
#[derive(Clone, Debug)]
pub struct IntentAnalyticsResponse {
    pub intent_hash: String,
    pub status: IntentStatus,
    pub relayer_proposals_count: usize,
    pub executed_by: Option<String>,
    pub final_amount_out: Option<String>,
    pub created_at: Timestamp,
    pub executed_at: Option<Timestamp>,
}

/// A stored `total_executed` column: negative values read as 0.
pub open spec fn executed_count_from_column(raw: i64) -> u64 {
    if raw < 0 {
        0
    } else {
        raw as u64
    }
}

/// The executed count of a relayer record read from the database.
pub fn executed_count_from_db(raw: i64) -> (res: u64)
    ensures
        res == executed_count_from_column(raw),
{
    if raw < 0 {
        0
    } else {
        raw as u64
    }
}


/// Reading a row keeps everything it holds but the three decoded columns: the
/// identifier, texts, deadline, flags, signature, creation time and the whole
/// lifecycle (execution time, executor, final amount, transaction) come out as
/// stored, for every row.
pub proof fn lemma_row_read_keeps_columns(row: DbIntentRow)
    ensures
        ({
            let s = stored_intent_of(row);
            &&& s.id == row.id
            &&& s.intent_hash == row.intent_hash
            &&& s.intent.maker == row.maker
            &&& s.intent.token_in == row.token_in
            &&& s.intent.token_out == row.token_out
            &&& s.intent.amount_in == row.amount_in
            &&& s.intent.min_amount_out == row.min_amount_out
            &&& s.intent.receiver == row.receiver
            &&& s.intent.deadline == row.deadline
            &&& s.intent.salt == row.salt
            &&& s.intent.allowed_relayer == row.allowed_relayer
            &&& s.intent.referral_code == row.referral_code
            &&& s.intent.partial_fill_allowed == row.partial_fill_allowed
            &&& s.signature == row.signature
            &&& s.created_at == row.created_at
            &&& s.executed_at == row.executed_at
            &&& s.executed_by == row.executed_by
            &&& s.final_amount_out == row.final_amount_out
            &&& s.execution_tx_hash == row.execution_tx_hash
        }),
        row.nonce >= 0 ==> stored_intent_of(row).intent.nonce == row.nonce,
        0 <= row.max_relayer_fee_bps <= 65535 ==> stored_intent_of(row).intent.max_relayer_fee_bps
            == row.max_relayer_fee_bps,
{
}

} // verus!
