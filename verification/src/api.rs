//! The decisions of the relay's HTTP and WebSocket endpoints: which requests are
//! refused and how, what is stored, and what subscribers are told.
use vstd::prelude::*;
use vstd::string::*;
use crate::models::{
    CancelIntentRequest, CreateIntentRequest, IntentAnalyticsResponse, IntentBroadcastEvent,
    IntentStatus, IntentStatusFilter, IntentStatusResponse, ListIntentsQuery,
    RelayerProposalRequest, StoredIntent, Timestamp, filter_db_text, status_db_text, DbIntentRow,
    stored_intent_of,
};
use crate::signature::{
    compute_intent_hash_hex, eip712_signature_check, fault_message, intent_hash_hex,
    verify_eip712_signature, SignatureConfig, SignatureFault,
};
use crate::text::{ascii_lowercase, is_ascii_text, lowercase_of, str_eq, to_lowercase};

verus! {

/// The HTTP status of a refusal.
#[derive(Clone, Copy, Debug, PartialEq, Eq, Structural)]
pub enum HttpStatus {
    BadRequest,
    Unauthorized,
    Forbidden,
    NotFound,
    Conflict,
    InternalServerError,
}

/// The numeric code of a status.
pub open spec fn status_code_of(s: HttpStatus) -> u16 {
    match s {
        HttpStatus::BadRequest => 400,
        HttpStatus::Unauthorized => 401,
        HttpStatus::Forbidden => 403,
        HttpStatus::NotFound => 404,
        HttpStatus::Conflict => 409,
        HttpStatus::InternalServerError => 500,
    }
}

impl HttpStatus {
    pub fn code(&self) -> (res: u16)
        ensures
            res == status_code_of(*self),
    {
        match self {
            HttpStatus::BadRequest => 400,
            HttpStatus::Unauthorized => 401,
            HttpStatus::Forbidden => 403,
            HttpStatus::NotFound => 404,
            HttpStatus::Conflict => 409,
            HttpStatus::InternalServerError => 500,
        }
    }
}

/// A refused request: its status and the text of its `error` field.
#[derive(Debug)]
pub struct ApiError {
    pub status: HttpStatus,
    pub message: String,
}

impl View for ApiError {
    type V = (HttpStatus, Seq<char>);

    open spec fn view(&self) -> (HttpStatus, Seq<char>) {
        (self.status, self.message@)
    }
}

/// A refusal as 400 Bad Request.
pub fn bad_request(message: String) -> (res: ApiError)
    ensures
        res@ == (HttpStatus::BadRequest, message@),
{
    ApiError { status: HttpStatus::BadRequest, message }
}

/// A refusal as 404 Not Found.
pub fn not_found(message: &str) -> (res: ApiError)
    ensures
        res@ == (HttpStatus::NotFound, message@),
{
    ApiError { status: HttpStatus::NotFound, message: String::from_str(message) }
}

fn refuse(status: HttpStatus, message: &str) -> (res: ApiError)
    ensures
        res@ == (status, message@),
{
    ApiError { status, message: String::from_str(message) }
}

/// How a failed database operation is answered: a unique-key violation (SQLSTATE
/// 23505) as a conflict, anything else as an internal error.
pub open spec fn db_failure(code: Option<Seq<char>>) -> (HttpStatus, Seq<char>) {
    if code == Some("23505"@) {
        (HttpStatus::Conflict, "resource already exists"@)
    } else {
        (HttpStatus::InternalServerError, "database operation failed"@)
    }
}

/// Answers a failed database operation, given the SQLSTATE code of the database
/// error if it carries one.
pub fn db_error(code: Option<String>) -> (res: ApiError)
    ensures
        res@ == db_failure(
            match code {
                Some(c) => Some(c@),
                None => None,
            },
        ),
{
    let unique_violation = match &code {
        Some(c) => str_eq(c.as_str(), "23505"),
        None => false,
    };
    if unique_violation {
        refuse(HttpStatus::Conflict, "resource already exists")
    } else {
        refuse(HttpStatus::InternalServerError, "database operation failed")
    }
}

/// What a new intent is answered, at time `now` (seconds since the epoch): its
/// identifier if accepted, else the refusal; the checks run in this order.
pub open spec fn create_intent_check(cfg: SignatureConfig, req: CreateIntentRequest, now: i64) -> Result<
    Seq<char>,
    (HttpStatus, Seq<char>),
> {
    let i = req.intent;
    if i.deadline <= now {
        Err((HttpStatus::BadRequest, "deadline must be in the future"@))
    } else if i.max_relayer_fee_bps > 10000 {
        Err((HttpStatus::BadRequest, "maxRelayerFeeBps cannot exceed 10000"@))
    } else if i.amount_in@ == "0"@ || i.min_amount_out@ == "0"@ {
        Err((HttpStatus::BadRequest, "amount values must be greater than zero"@))
    } else {
        match eip712_signature_check(cfg, i, req.signature@) {
            Err(f) => Err((HttpStatus::BadRequest, fault_message(f))),
            Ok(valid) => if !valid {
                Err((HttpStatus::Unauthorized, "invalid EIP-712 signature"@))
            } else {
                match intent_hash_hex(i) {
                    Ok(h) => Ok(h),
                    Err(f) => Err((HttpStatus::BadRequest, fault_message(f))),
                }
            },
        }
    }
}

/// Checks a new intent at time `now` and returns its identifier.
pub fn check_create_intent(config: &SignatureConfig, request: &CreateIntentRequest, now: i64) -> (res:
    Result<String, ApiError>)
    requires
        config.wf(),
    ensures
        match res {
            Ok(h) => create_intent_check(*config, *request, now) == Ok::<
                Seq<char>,
                (HttpStatus, Seq<char>),
            >(h@),
            Err(e) => create_intent_check(*config, *request, now) == Err::<
                Seq<char>,
                (HttpStatus, Seq<char>),
            >(e@),
        },
{
    let intent = &request.intent;
    if intent.deadline <= now {
        return Err(refuse(HttpStatus::BadRequest, "deadline must be in the future"));
    }
    if intent.max_relayer_fee_bps > 10000 {
        return Err(refuse(HttpStatus::BadRequest, "maxRelayerFeeBps cannot exceed 10000"));
    }
    if str_eq(intent.amount_in.as_str(), "0") || str_eq(intent.min_amount_out.as_str(), "0") {
        return Err(refuse(HttpStatus::BadRequest, "amount values must be greater than zero"));
    }
    let valid = match verify_eip712_signature(config, intent, request.signature.as_str()) {
        Ok(v) => v,
        Err(e) => {
            return Err(bad_request(e.message()));
        },
    };
    if !valid {
        return Err(refuse(HttpStatus::Unauthorized, "invalid EIP-712 signature"));
    }
    match compute_intent_hash_hex(intent) {
        Ok(h) => Ok(h),
        Err(e) => Err(bad_request(e.message())),
    }
}


/// Copies an optional text.
pub fn clone_text_option(o: &Option<String>) -> (res: Option<String>)
    ensures
        res == *o,
{
    match o {
        Some(v) => Some(v.clone()),
        None => None,
    }
}

/// The integer that an `as i64` cast gives a `u64`: values above `i64::MAX` wrap
/// to negative ones.
pub open spec fn wrapped_i64(n: u64) -> int {
    if n <= i64::MAX {
        n as int
    } else {
        n as int - 18446744073709551616
    }
}

fn u64_to_i64_wrapping(n: u64) -> (res: i64)
    ensures
        res as int == wrapped_i64(n),
{
    let r = n as i64;
    assert(n <= 0x7fff_ffff_ffff_ffffu64 ==> (n as i64) as int == n as int) by (bit_vector);
    assert(n > 0x7fff_ffff_ffff_ffffu64 ==> (n as i64) as int == n as int - 0x1_0000_0000_0000_0000int)
        by (bit_vector);
    r
}

/// The values with which an accepted intent is inserted into the `intents` table.
pub struct NewIntentRecord {
    pub intent_hash: String,
    pub maker: String,
    pub token_in: String,
    pub token_out: String,
    pub amount_in: String,
    pub min_amount_out: String,
    pub receiver: String,
    pub deadline: i64,
    pub nonce: i64,
    pub salt: String,
    pub max_relayer_fee_bps: i32,
    pub allowed_relayer: Option<String>,
    pub referral_code: Option<String>,
    pub partial_fill_allowed: bool,
    pub signature: String,
    pub status: &'static str,
}

/// What is stored of an accepted intent: addresses lower-cased, the nonce as a
/// signed column, and the pending status.
pub open spec fn record_for_request(rec: NewIntentRecord, request: CreateIntentRequest, intent_hash: String) -> bool {
    &&& rec.intent_hash == intent_hash
    &&& rec.maker@ == lowercase_of(request.intent.maker@)
    &&& rec.token_in@ == lowercase_of(request.intent.token_in@)
    &&& rec.token_out@ == lowercase_of(request.intent.token_out@)
    &&& rec.amount_in == request.intent.amount_in
    &&& rec.min_amount_out == request.intent.min_amount_out
    &&& rec.receiver@ == lowercase_of(request.intent.receiver@)
    &&& rec.deadline == request.intent.deadline
    &&& rec.nonce as int == wrapped_i64(request.intent.nonce)
    &&& rec.salt == request.intent.salt
    &&& rec.max_relayer_fee_bps as int == request.intent.max_relayer_fee_bps as int
    &&& match request.intent.allowed_relayer {
        Some(a) => rec.allowed_relayer matches Some(l) && l@ == lowercase_of(a@),
        None => rec.allowed_relayer is None,
    }
    &&& rec.referral_code == request.intent.referral_code
    &&& rec.partial_fill_allowed == request.intent.partial_fill_allowed
    &&& rec.signature == request.signature
    &&& rec.status@ == status_db_text(IntentStatus::Pending)
}

/// The record to insert for an accepted intent.
pub fn new_intent_record(request: &CreateIntentRequest, intent_hash: String) -> (res: NewIntentRecord)
    ensures
        record_for_request(res, *request, intent_hash),
        is_ascii_text(request.intent.maker@) ==> res.maker@ == ascii_lowercase(request.intent.maker@),
{
    let i = &request.intent;
    let allowed_relayer = match &i.allowed_relayer {
        Some(a) => Some(to_lowercase(a.as_str())),
        None => None,
    };
    NewIntentRecord {
        intent_hash,
        maker: to_lowercase(i.maker.as_str()),
        token_in: to_lowercase(i.token_in.as_str()),
        token_out: to_lowercase(i.token_out.as_str()),
        amount_in: i.amount_in.clone(),
        min_amount_out: i.min_amount_out.clone(),
        receiver: to_lowercase(i.receiver.as_str()),
        deadline: i.deadline,
        nonce: u64_to_i64_wrapping(i.nonce),
        salt: i.salt.clone(),
        max_relayer_fee_bps: i.max_relayer_fee_bps as i32,
        allowed_relayer,
        referral_code: clone_text_option(&i.referral_code),
        partial_fill_allowed: i.partial_fill_allowed,
        signature: request.signature.clone(),
        status: IntentStatus::Pending.as_db_str(),
    }
}

/// The event that announces an accepted intent, as submitted.
pub fn new_intent_event(request: &CreateIntentRequest, intent_hash: String, created_at: Timestamp) -> (res:
    IntentBroadcastEvent)
    ensures
        res.kind@ == "NEW_INTENT"@,
        res.intent_hash == intent_hash,
        res.status == IntentStatus::Pending,
        res.maker == request.intent.maker,
        res.token_in == request.intent.token_in,
        res.token_out == request.intent.token_out,
        res.amount_in == request.intent.amount_in,
        res.min_amount_out == request.intent.min_amount_out,
        res.created_at == created_at,
{
    IntentBroadcastEvent {
        kind: String::from_str("NEW_INTENT"),
        intent_hash,
        status: IntentStatus::Pending,
        maker: request.intent.maker.clone(),
        token_in: request.intent.token_in.clone(),
        token_out: request.intent.token_out.clone(),
        amount_in: request.intent.amount_in.clone(),
        min_amount_out: request.intent.min_amount_out.clone(),
        created_at,
    }
}

/// One condition of an intent listing: the connector that joins it to the query
/// (`" WHERE "` first, `" AND "` after), the column comparison, and the bound value.
pub struct ListFilter {
    pub connector: &'static str,
    pub condition: &'static str,
    pub value: String,
}

/// How an intent listing is queried: its conditions in order, its ordering, page
/// size and offset.
pub struct IntentListPlan {
    pub filters: Vec<ListFilter>,
    /// The ordering of the listing, placed after the conditions.
    pub order: &'static str,
    pub limit: i64,
    pub offset: i64,
}

/// The ordering of every listing, as SQL that follows the conditions: newest first,
/// by creation time (`created_at` descending).
pub open spec fn listing_order() -> Seq<char> {
    " ORDER BY created_at DESC"@
}

/// The page size of a listing: 50 unless given, and never more than 100.
pub open spec fn listing_limit(requested: Option<usize>) -> int {
    match requested {
        Some(l) => if l < 100 {
            l as int
        } else {
            100
        },
        None => 50,
    }
}

/// The offset of a listing as bound to the query: 0 unless given; a value beyond
/// `i64::MAX` wraps as an `as i64` cast does.
pub open spec fn listing_offset(requested: Option<usize>) -> int {
    match requested {
        Some(o) => if o <= i64::MAX {
            o as int
        } else {
            o as int - 18446744073709551616
        },
        None => 0,
    }
}

fn usize_to_i64_wrapping(n: usize) -> (res: i64)
    ensures
        res as int == (if n <= i64::MAX {
            n as int
        } else {
            n as int - 18446744073709551616
        }),
{
    let w: u64 = n as u64;
    u64_to_i64_wrapping(w)
}

impl ListIntentsQuery {
    /// The query of a listing: filter by lower-cased maker, then by status.
    pub fn plan(&self) -> (res: IntentListPlan)
        ensures
            res.limit as int == listing_limit(self.limit),
            res.offset as int == listing_offset(self.offset),
            res.order@ == listing_order(),
            res.filters@.len() == (if self.maker is Some { 1int } else { 0 }) + (if self.status is Some {
                1int
            } else {
                0
            }),
            self.maker matches Some(m) ==> {
                &&& res.filters@[0].connector@ == " WHERE "@
                &&& res.filters@[0].condition@ == "maker = "@
                &&& res.filters@[0].value@ == lowercase_of(m@)
                &&& is_ascii_text(m@) ==> res.filters@[0].value@ == ascii_lowercase(m@)
            },
            self.status matches Some(f) ==> {
                let k = res.filters@.len() - 1;
                &&& res.filters@[k].connector@ == (if self.maker is Some {
                    " AND "@
                } else {
                    " WHERE "@
                })
                &&& res.filters@[k].condition@ == "status = "@
                &&& res.filters@[k].value@ == filter_db_text(f)
            },
    {
        let mut filters: Vec<ListFilter> = Vec::new();
        let mut has_where = false;
        if let Some(maker) = &self.maker {
            filters.push(
                ListFilter {
                    connector: " WHERE ",
                    condition: "maker = ",
                    value: to_lowercase(maker.as_str()),
                },
            );
            has_where = true;
        }
        if let Some(status) = &self.status {
            let connector = if has_where {
                " AND "
            } else {
                " WHERE "
            };
            filters.push(
                ListFilter {
                    connector,
                    condition: "status = ",
                    value: String::from_str(status.as_db_str()),
                },
            );
        }
        let requested: usize = match self.limit {
            Some(l) => l,
            None => 50,
        };
        let limit: i64 = if requested < 100 {
            requested as i64
        } else {
            100
        };
        let offset: usize = match self.offset {
            Some(o) => o,
            None => 0,
        };
        IntentListPlan {
            filters,
            order: " ORDER BY created_at DESC",
            limit,
            offset: usize_to_i64_wrapping(offset),
        }
    }
}

impl StoredIntent {
    /// The status view of a stored intent.
    pub fn into_status_response(self) -> (res: IntentStatusResponse)
        ensures
            res.status == self.status,
            res.created_at == self.created_at,
            res.executed_at == self.executed_at,
            res.executed_by == self.executed_by,
            res.final_amount_out == self.final_amount_out,
    {
        IntentStatusResponse {
            status: self.status,
            created_at: self.created_at,
            executed_at: self.executed_at,
            executed_by: self.executed_by,
            final_amount_out: self.final_amount_out,
        }
    }
}

/// The analytics summary of an intent with `proposal_count` relayer proposals
/// (a negative count reads as 0).
pub open spec fn analytics_of(intent: StoredIntent, proposal_count: i64) -> IntentAnalyticsResponse {
    IntentAnalyticsResponse {
        intent_hash: intent.intent_hash,
        status: intent.status,
        relayer_proposals_count: (if proposal_count < 0 {
            0
        } else {
            proposal_count
        }) as usize,
        executed_by: intent.executed_by,
        final_amount_out: intent.final_amount_out,
        created_at: intent.created_at,
        executed_at: intent.executed_at,
    }
}

pub fn analytics_response(intent: StoredIntent, proposal_count: i64) -> (res: IntentAnalyticsResponse)
    ensures
        res == analytics_of(intent, proposal_count),
{
    let count: i64 = if proposal_count < 0 {
        0
    } else {
        proposal_count
    };
    IntentAnalyticsResponse {
        intent_hash: intent.intent_hash,
        status: intent.status,
        relayer_proposals_count: count as usize,
        executed_by: intent.executed_by,
        final_amount_out: intent.final_amount_out,
        created_at: intent.created_at,
        executed_at: intent.executed_at,
    }
}


/// Whether `requester` may cancel `intent` now: the maker must match, compared
/// after lower-casing both, and the intent must still be pending.
pub open spec fn cancel_check(intent: StoredIntent, requester: Seq<char>) -> Result<
    (),
    (HttpStatus, Seq<char>),
> {
    if lowercase_of(intent.intent.maker@) != lowercase_of(requester) {
        Err((HttpStatus::Forbidden, "maker does not match intent owner"@))
    } else if intent.status != IntentStatus::Pending {
        Err((HttpStatus::Conflict, "intent is not pending"@))
    } else {
        Ok(())
    }
}

/// `intent` with its status replaced.
pub open spec fn with_status(intent: StoredIntent, status: IntentStatus) -> StoredIntent {
    StoredIntent { status, ..intent }
}

/// Cancels `intent` on behalf of the requesting maker, as `POST
/// /intents/{hash}/cancel` does for the intent stored under `path_hash`. On success
/// the intent becomes cancelled and the event for subscribers is returned; on
/// refusal the intent is left as it was.
pub fn cancel_intent(intent: &mut StoredIntent, request: &CancelIntentRequest, path_hash: String) -> (res:
    Result<IntentBroadcastEvent, ApiError>)
    ensures
        match cancel_check(*old(intent), request.maker@) {
            Ok(_) => {
                &&& *final(intent) == with_status(*old(intent), IntentStatus::Cancelled)
                &&& res matches Ok(ev) && {
                    &&& ev.kind@ == "INTENT_CANCELLED"@
                    &&& ev.intent_hash == path_hash
                    &&& ev.status == IntentStatus::Cancelled
                    &&& ev.maker == old(intent).intent.maker
                    &&& ev.token_in == old(intent).intent.token_in
                    &&& ev.token_out == old(intent).intent.token_out
                    &&& ev.amount_in == old(intent).intent.amount_in
                    &&& ev.min_amount_out == old(intent).intent.min_amount_out
                    &&& ev.created_at == old(intent).created_at
                }
            },
            Err(refusal) => {
                &&& *final(intent) == *old(intent)
                &&& res matches Err(e) && e@ == refusal
            },
        },
        is_ascii_text(old(intent).intent.maker@) && is_ascii_text(request.maker@) ==> (res is Ok <==> (
        ascii_lowercase(old(intent).intent.maker@) == ascii_lowercase(request.maker@)
            && old(intent).status == IntentStatus::Pending)),
{
    let owner = to_lowercase(intent.intent.maker.as_str());
    let claimed = to_lowercase(request.maker.as_str());
    if !str_eq(owner.as_str(), claimed.as_str()) {
        return Err(refuse(HttpStatus::Forbidden, "maker does not match intent owner"));
    }
    if intent.status != IntentStatus::Pending {
        return Err(refuse(HttpStatus::Conflict, "intent is not pending"));
    }
    intent.status = IntentStatus::Cancelled;
    Ok(
        IntentBroadcastEvent {
            kind: String::from_str("INTENT_CANCELLED"),
            intent_hash: path_hash,
            status: IntentStatus::Cancelled,
            maker: intent.intent.maker.clone(),
            token_in: intent.intent.token_in.clone(),
            token_out: intent.intent.token_out.clone(),
            amount_in: intent.intent.amount_in.clone(),
            min_amount_out: intent.intent.min_amount_out.clone(),
            created_at: intent.created_at,
        },
    )
}

/// An intent can be cancelled only while pending, and only once: after a successful
/// cancellation every further request is refused, and one by the same maker as a
/// conflict.
pub proof fn lemma_cancel_only_once(intent: StoredIntent, requester: Seq<char>, later: Seq<char>)
    requires
        cancel_check(intent, requester) is Ok,
    ensures
        intent.status == IntentStatus::Pending,
        cancel_check(with_status(intent, IntentStatus::Cancelled), later) is Err,
        cancel_check(with_status(intent, IntentStatus::Cancelled), requester) == Err::<
            (),
            (HttpStatus, Seq<char>),
        >((HttpStatus::Conflict, "intent is not pending"@)),
{
}

/// Whether a relayer's proposal is accepted, given whether the relayer is on the
/// whitelist and active (absent: not on it) and the stored status text of the
/// intent (absent: no such intent).
pub open spec fn proposal_check(relayer_active: Option<bool>, current_status: Option<Seq<char>>) -> Result<
    (),
    (HttpStatus, Seq<char>),
> {
    match relayer_active {
        None => Err((HttpStatus::Forbidden, "relayer is not whitelisted"@)),
        Some(active) => if !active {
            Err((HttpStatus::Forbidden, "relayer is inactive"@))
        } else {
            match current_status {
                None => Err((HttpStatus::NotFound, "intent not found"@)),
                Some(st) => if st != status_db_text(IntentStatus::Pending) {
                    Err((HttpStatus::Conflict, "intent is not pending"@))
                } else {
                    Ok(())
                },
            }
        },
    }
}

/// Decides a relayer proposal, as `POST /relayers/propose` does.
pub fn check_relayer_proposal(relayer_active: Option<bool>, current_status: Option<String>) -> (res:
    Result<(), ApiError>)
    ensures
        match res {
            Ok(_) => proposal_check(
                relayer_active,
                match current_status {
                    Some(s) => Some(s@),
                    None => None,
                },
            ) is Ok,
            Err(e) => proposal_check(
                relayer_active,
                match current_status {
                    Some(s) => Some(s@),
                    None => None,
                },
            ) == Err::<(), (HttpStatus, Seq<char>)>(e@),
        },
{
    match relayer_active {
        None => {
            return Err(refuse(HttpStatus::Forbidden, "relayer is not whitelisted"));
        },
        Some(active) => {
            if !active {
                return Err(refuse(HttpStatus::Forbidden, "relayer is inactive"));
            }
        },
    }
    match current_status {
        None => Err(not_found("intent not found")),
        Some(st) => {
            if !str_eq(st.as_str(), IntentStatus::Pending.as_db_str()) {
                Err(refuse(HttpStatus::Conflict, "intent is not pending"))
            } else {
                Ok(())
            }
        },
    }
}

/// The address under which a proposing relayer is looked up and recorded.
pub fn relayer_lookup_address(request: &RelayerProposalRequest) -> (res: String)
    ensures
        res@ == lowercase_of(request.relayer_address@),
        is_ascii_text(request.relayer_address@) ==> res@ == ascii_lowercase(request.relayer_address@),
{
    to_lowercase(request.relayer_address.as_str())
}

/// The values with which an accepted proposal is inserted into `relayer_proposals`.
pub struct NewProposalRecord {
    pub intent_hash: String,
    pub relayer_address: String,
    pub proposed_route: String,
    pub expected_output: String,
    pub gas_estimate: String,
    pub proposed_fee_bps: i32,
    pub signature: String,
}

pub fn new_proposal_record(request: &RelayerProposalRequest) -> (res: NewProposalRecord)
    ensures
        res.intent_hash == request.intent_hash,
        res.relayer_address@ == lowercase_of(request.relayer_address@),
        res.proposed_route == request.proposed_route,
        res.expected_output == request.expected_output,
        res.gas_estimate == request.gas_estimate,
        res.proposed_fee_bps as int == request.proposed_fee_bps as int,
        res.signature == request.signature,
{
    NewProposalRecord {
        intent_hash: request.intent_hash.clone(),
        relayer_address: relayer_lookup_address(request),
        proposed_route: request.proposed_route.clone(),
        expected_output: request.expected_output.clone(),
        gas_estimate: request.gas_estimate.clone(),
        proposed_fee_bps: request.proposed_fee_bps as i32,
        signature: request.signature.clone(),
    }
}

/// What happened on an intent subscription.
pub enum SubscriptionEvent {
    /// The client closed the socket, or its stream ended.
    ClientClosed,
    /// The client sent a message other than a close.
    ClientMessage,
    /// Receiving from the client failed.
    ClientError,
    /// An event was broadcast; its JSON text if it could be serialised.
    Broadcast(Option<String>),
    /// The broadcast channel failed (lagged or closed).
    BroadcastError,
    /// Sending a text to the client failed.
    SendFailed,
}

/// What a subscription does next.
pub enum SubscriptionAction {
    /// Keep waiting for events.
    Continue,
    /// Send this text to the client, then keep waiting.
    Send(String),
    /// End the subscription.
    Stop,
}

/// One step of an intent subscription: forward each serialisable broadcast,
/// ignore client messages and unserialisable events, and stop on close, on any
/// receive error and on a failed send.
pub fn subscription_step(event: SubscriptionEvent) -> (res: SubscriptionAction)
    ensures
        match event {
            SubscriptionEvent::Broadcast(Some(text)) => res == SubscriptionAction::Send(text),
            SubscriptionEvent::Broadcast(None) | SubscriptionEvent::ClientMessage => res
                == SubscriptionAction::Continue,
            _ => res == SubscriptionAction::Stop,
        },
{
    match event {
        SubscriptionEvent::ClientClosed => SubscriptionAction::Stop,
        SubscriptionEvent::ClientMessage => SubscriptionAction::Continue,
        SubscriptionEvent::ClientError => SubscriptionAction::Stop,
        SubscriptionEvent::Broadcast(Some(text)) => SubscriptionAction::Send(text),
        SubscriptionEvent::Broadcast(None) => SubscriptionAction::Continue,
        SubscriptionEvent::BroadcastError => SubscriptionAction::Stop,
        SubscriptionEvent::SendFailed => SubscriptionAction::Stop,
    }
}


/// An intent is accepted only if its deadline lies after `now`, its relayer fee is
/// at most 10000 basis points, neither amount is the text "0" and its signature
/// recovers to its maker; it is then identified by the hex of its struct hash.
pub proof fn lemma_accepted_intent(cfg: SignatureConfig, req: CreateIntentRequest, now: i64)
    requires
        create_intent_check(cfg, req, now) is Ok,
    ensures
        req.intent.deadline > now,
        req.intent.max_relayer_fee_bps <= 10000,
        req.intent.amount_in@ != "0"@,
        req.intent.min_amount_out@ != "0"@,
        eip712_signature_check(cfg, req.intent, req.signature@) == Ok::<bool, SignatureFault>(true),
        intent_hash_hex(req.intent) matches Ok(h) && create_intent_check(cfg, req, now) == Ok::<
            Seq<char>,
            (HttpStatus, Seq<char>),
        >(h),
{
}

/// A relayer's proposal is accepted exactly when the relayer is whitelisted and
/// active and the intent exists and is pending.
pub proof fn lemma_proposal_accepted(relayer_active: Option<bool>, current_status: Option<Seq<char>>)
    ensures
        proposal_check(relayer_active, current_status) is Ok <==> (relayer_active == Some(true)
            && current_status == Some(status_db_text(IntentStatus::Pending))),
{
}

/// A listing page holds at most 100 intents, and 50 unless told otherwise.
pub proof fn lemma_listing_limit(requested: Option<usize>)
    ensures
        0 <= listing_limit(requested) <= 100,
        requested is None ==> listing_limit(requested) == 50,
        requested matches Some(l) ==> (l <= 100 ==> listing_limit(requested) == l),
{
}


/// A stored intent row, or the refusal of a request for an intent that is not stored.
pub fn found_intent(found: Option<StoredIntent>) -> (res: Result<StoredIntent, ApiError>)
    ensures
        match found {
            Some(s) => res matches Ok(t) && t == s,
            None => res matches Err(e) && e@ == (HttpStatus::NotFound, "intent not found"@),
        },
{
    match found {
        Some(s) => Ok(s),
        None => Err(not_found("intent not found")),
    }
}

/// The positions, in order, of the relayers that are active.
pub open spec fn active_positions(active: Seq<bool>) -> Seq<usize>
    decreases active.len(),
{
    if active.len() == 0 {
        Seq::empty()
    } else {
        let prev = active_positions(active.drop_last());
        if active.last() {
            prev.push((active.len() - 1) as usize)
        } else {
            prev
        }
    }
}

/// Which relayers `GET /relayers` lists, given whether each one in turn is active:
/// the active ones, in the order given.
pub fn active_relayers(active: &Vec<bool>) -> (res: Vec<usize>)
    ensures
        res@ == active_positions(active@),
{
    let n = active.len();
    let mut res: Vec<usize> = Vec::new();
    let mut i: usize = 0;
    assert(active@.take(0) =~= Seq::<bool>::empty());
    while i < n
        invariant
            n == active@.len(),
            i <= n,
            res@ == active_positions(active@.take(i as int)),
        decreases n - i,
    {
        let ghost t = active@.take(i + 1);
        assert(t.drop_last() =~= active@.take(i as int));
        assert(t.last() == active@[i as int]);
        if active[i] {
            res.push(i);
        }
        i = i + 1;
    }
    assert(active@.take(n as int) =~= active@);
    res
}

/// The listed relayers are exactly the active ones, each once, in the order given.
pub proof fn lemma_active_positions(active: Seq<bool>)
    requires
        active.len() <= usize::MAX,
    ensures
        forall|k: int|
            0 <= k < active_positions(active).len() ==> (#[trigger] active_positions(active)[k])
                < active.len() && active[active_positions(active)[k] as int],
        forall|k: int, l: int|
            0 <= k < l < active_positions(active).len() ==> #[trigger] active_positions(active)[k]
                < #[trigger] active_positions(active)[l],
        forall|i: int| 0 <= i < active.len() && active[i] ==> active_positions(active).contains(i as usize),
    decreases active.len(),
{
    if active.len() > 0 {
        let prev_active = active.drop_last();
        lemma_active_positions(prev_active);
        let prev = active_positions(prev_active);
        let p = active_positions(active);
        assert forall|k: int| 0 <= k < p.len() implies (#[trigger] p[k]) < active.len() && active[p[k] as int] by {
            if k < prev.len() {
                assert(p[k] == prev[k]);
                assert(active[prev[k] as int] == prev_active[prev[k] as int]);
            }
        }
        assert forall|k: int, l: int| 0 <= k < l < p.len() implies #[trigger] p[k] < #[trigger] p[l] by {
            assert(p[k] == prev[k]);
            if l < prev.len() {
                assert(p[l] == prev[l]);
            }
        }
        assert forall|i: int| 0 <= i < active.len() && active[i] implies p.contains(i as usize) by {
            if i < active.len() - 1 {
                assert(prev_active[i] == active[i]);
                let k = choose|k: int| 0 <= k < prev.len() && prev[k] == i as usize;
                assert(p[k] == prev[k]);
            } else {
                assert(p[p.len() - 1] == i as usize);
            }
        }
    }
}

/// Each accepted proposal adds one to an intent's analytics count, and the rest of
/// the summary stays as it was.
pub proof fn lemma_each_proposal_counts(intent: StoredIntent, count: i64)
    requires
        0 <= count < i64::MAX,
        count + 1 <= usize::MAX,
    ensures
        analytics_of(intent, (count + 1) as i64).relayer_proposals_count == analytics_of(
            intent,
            count,
        ).relayer_proposals_count + 1,
        analytics_of(intent, (count + 1) as i64).status == analytics_of(intent, count).status,
        analytics_of(intent, (count + 1) as i64).intent_hash == intent.intent_hash,
{
}

/// What the `intents` table holds after the record of an accepted intent is
/// inserted at `created_at`: the record's values, and no execution yet.
pub open spec fn row_holds_record(row: DbIntentRow, rec: NewIntentRecord, created_at: Timestamp) -> bool {
    &&& row.intent_hash == rec.intent_hash
    &&& row.maker == rec.maker
    &&& row.token_in == rec.token_in
    &&& row.token_out == rec.token_out
    &&& row.amount_in == rec.amount_in
    &&& row.min_amount_out == rec.min_amount_out
    &&& row.receiver == rec.receiver
    &&& row.deadline == rec.deadline
    &&& row.nonce == rec.nonce
    &&& row.salt == rec.salt
    &&& row.max_relayer_fee_bps == rec.max_relayer_fee_bps
    &&& row.allowed_relayer == rec.allowed_relayer
    &&& row.referral_code == rec.referral_code
    &&& row.partial_fill_allowed == rec.partial_fill_allowed
    &&& row.signature == rec.signature
    &&& row.status@ == rec.status@
    &&& row.created_at == created_at
    &&& row.executed_at is None
    &&& row.executed_by is None
    &&& row.final_amount_out is None
    &&& row.execution_tx_hash is None
}

/// An accepted intent reads back as stored: pending, under its hash, with its
/// signature and creation time, the intent as submitted but for its lower-cased
/// addresses, and found by a listing filtered by its maker or by the pending status.
pub proof fn lemma_created_intent_reads_back(
    req: CreateIntentRequest,
    hash: String,
    rec: NewIntentRecord,
    row: DbIntentRow,
    created_at: Timestamp,
)
    requires
        record_for_request(rec, req, hash),
        row_holds_record(row, rec, created_at),
        req.intent.nonce <= i64::MAX,
    ensures
        ({
            let s = stored_intent_of(row);
            &&& s.intent_hash == hash
            &&& s.status == IntentStatus::Pending
            &&& s.signature == req.signature
            &&& s.created_at == created_at
            &&& s.executed_at is None && s.executed_by is None
            &&& s.final_amount_out is None && s.execution_tx_hash is None
            &&& s.intent.maker@ == lowercase_of(req.intent.maker@)
            &&& s.intent.token_in@ == lowercase_of(req.intent.token_in@)
            &&& s.intent.token_out@ == lowercase_of(req.intent.token_out@)
            &&& s.intent.receiver@ == lowercase_of(req.intent.receiver@)
            &&& s.intent.amount_in == req.intent.amount_in
            &&& s.intent.min_amount_out == req.intent.min_amount_out
            &&& s.intent.deadline == req.intent.deadline
            &&& s.intent.nonce == req.intent.nonce
            &&& s.intent.salt == req.intent.salt
            &&& s.intent.max_relayer_fee_bps == req.intent.max_relayer_fee_bps
            &&& s.intent.referral_code == req.intent.referral_code
            &&& s.intent.partial_fill_allowed == req.intent.partial_fill_allowed
            &&& match req.intent.allowed_relayer {
                Some(a) => s.intent.allowed_relayer matches Some(l) && l@ == lowercase_of(a@),
                None => s.intent.allowed_relayer is None,
            }
        }),
        row.maker@ == lowercase_of(req.intent.maker@),
        row.status@ == filter_db_text(IntentStatusFilter::Pending),
{
    crate::models::lemma_status_db_roundtrip(IntentStatus::Pending);
    assert(row.max_relayer_fee_bps >= 0 && row.max_relayer_fee_bps < 65536);
}


/// Acceptance is exact: an intent whose deadline lies after `now`, whose fee is at
/// most 10000 basis points, whose amounts are not the text "0" and whose signature
/// checks out is accepted, whatever else it holds (its nonce, say), and answered
/// with its identifier.
pub proof fn lemma_acceptable_intent_is_accepted(cfg: SignatureConfig, req: CreateIntentRequest, now: i64)
    requires
        req.intent.deadline > now,
        req.intent.max_relayer_fee_bps <= 10000,
        req.intent.amount_in@ != "0"@,
        req.intent.min_amount_out@ != "0"@,
        eip712_signature_check(cfg, req.intent, req.signature@) == Ok::<bool, SignatureFault>(true),
    ensures
        intent_hash_hex(req.intent) is Ok,
        create_intent_check(cfg, req, now) == Ok::<Seq<char>, (HttpStatus, Seq<char>)>(
            intent_hash_hex(req.intent)->Ok_0,
        ),
{
}

/// Paging binds the offset asked for: any offset up to `i64::MAX` is kept as it
/// is, none means 0; only the page size is capped.
pub proof fn lemma_listing_offset(requested: Option<usize>)
    ensures
        requested is None ==> listing_offset(requested) == 0,
        requested matches Some(o) ==> (o <= i64::MAX ==> listing_offset(requested) == o),
{
}

} // verus!
