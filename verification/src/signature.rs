//! EIP-712 typed-data hashing and signature checking of intents.
use vstd::prelude::*;
use vstd::string::*;
use vstd::slice::slice_to_vec;
use vstd::utf8::encode_utf8;
use crate::encoding::{
    be32, dec_value, hex_pairs_to_bytes, hex_value, is_hex_text, lemma_lower_hex_roundtrip,
    lower_hex_digit, lower_hex_of, word_from_u64, zeros,
};
use crate::eth::{
    abi_encode, abi_encoding, abi_token_ok, abi_word, address_digits, address_from_str,
    ecrecover_address, is_address_text, is_signature_text, is_u256_dec_text, is_u256_hex_text,
    keccak256, keccak256_digest, recover_signer, signature_digits, signature_from_str,
    u256_from_dec_str, u256_from_hex_str, u256_hex_digits, AbiToken,
};
use crate::hexcodec::{hex_decode, hex_encode};
use crate::text::{
    has_0x_prefix, lemma_trim_noop, parse_u64, skip_two, u64_from_text, starts_with_0x, trim, trim_chars,
};
use crate::models::IntentPayload;

verus! {

/// Why hashing or checking a signed intent failed.
#[derive(Debug)]
pub enum SignatureError {
    /// A field that must be an address is not one; `raw` is the field's text.
    InvalidAddress { raw: String },
    /// A `0x`-prefixed amount is no hex `uint256`.
    InvalidUint { raw: String },
    /// An amount without prefix is no decimal `uint256`.
    InvalidUintDecimal { raw: String },
    /// A `0x`-prefixed `bytes32` field holds no hex bytes.
    InvalidBytes32Hex,
    /// A `bytes32` field holds more than 32 bytes.
    Bytes32TooLarge,
    /// The signature text is not 65 hex-encoded bytes.
    InvalidSignatureEncoding,
    /// No signer can be recovered from the signature.
    RecoveryFailed,
}

/// The mathematical view of a `SignatureError`.
pub enum SignatureFault {
    InvalidAddress(Seq<char>),
    InvalidUint(Seq<char>),
    InvalidUintDecimal(Seq<char>),
    InvalidBytes32Hex,
    Bytes32TooLarge,
    InvalidSignatureEncoding,
    RecoveryFailed,
}

impl View for SignatureError {
    type V = SignatureFault;

    open spec fn view(&self) -> SignatureFault {
        match self {
            SignatureError::InvalidAddress { raw } => SignatureFault::InvalidAddress(raw@),
            SignatureError::InvalidUint { raw } => SignatureFault::InvalidUint(raw@),
            SignatureError::InvalidUintDecimal { raw } => SignatureFault::InvalidUintDecimal(raw@),
            SignatureError::InvalidBytes32Hex => SignatureFault::InvalidBytes32Hex,
            SignatureError::Bytes32TooLarge => SignatureFault::Bytes32TooLarge,
            SignatureError::InvalidSignatureEncoding => SignatureFault::InvalidSignatureEncoding,
            SignatureError::RecoveryFailed => SignatureFault::RecoveryFailed,
        }
    }
}

/// The text by which an error is reported to a client.
pub open spec fn fault_message(f: SignatureFault) -> Seq<char> {
    match f {
        SignatureFault::InvalidAddress(raw) => "invalid address: "@ + raw,
        SignatureFault::InvalidUint(raw) => "invalid uint256 value: "@ + raw,
        SignatureFault::InvalidUintDecimal(raw) => "invalid uint256 decimal value: "@ + raw,
        SignatureFault::InvalidBytes32Hex => "invalid hex bytes32 value"@,
        SignatureFault::Bytes32TooLarge => "value too large for bytes32"@,
        SignatureFault::InvalidSignatureEncoding => "invalid signature encoding"@,
        SignatureFault::RecoveryFailed => "failed recovering signer from signature"@,
    }
}

impl SignatureError {
    pub fn message(&self) -> (res: String)
        ensures
            res@ == fault_message(self@),
    {
        match self {
            SignatureError::InvalidAddress { raw } => {
                let mut m = String::from_str("invalid address: ");
                m.append(raw.as_str());
                m
            },
            SignatureError::InvalidUint { raw } => {
                let mut m = String::from_str("invalid uint256 value: ");
                m.append(raw.as_str());
                m
            },
            SignatureError::InvalidUintDecimal { raw } => {
                let mut m = String::from_str("invalid uint256 decimal value: ");
                m.append(raw.as_str());
                m
            },
            SignatureError::InvalidBytes32Hex => String::from_str("invalid hex bytes32 value"),
            SignatureError::Bytes32TooLarge => String::from_str("value too large for bytes32"),
            SignatureError::InvalidSignatureEncoding => String::from_str(
                "invalid signature encoding",
            ),
            SignatureError::RecoveryFailed => String::from_str(
                "failed recovering signer from signature",
            ),
        }
    }
}

/// The view of a byte-string result.
pub open spec fn bytes_result(r: Result<Vec<u8>, SignatureError>) -> Result<Seq<u8>, SignatureFault> {
    match r {
        Ok(b) => Ok(b@),
        Err(e) => Err(e@),
    }
}

/// What a `uint256` field denotes: hex after a `0x`/`0X` prefix, decimal otherwise,
/// as 32 big-endian bytes.
pub open spec fn uint256_from_text(raw: Seq<char>) -> Result<Seq<u8>, SignatureFault> {
    if has_0x_prefix(raw) {
        if is_u256_hex_text(raw) {
            Ok(be32(hex_value(u256_hex_digits(raw))))
        } else {
            Err(SignatureFault::InvalidUint(raw))
        }
    } else {
        if is_u256_dec_text(raw) {
            Ok(be32(dec_value(raw)))
        } else {
            Err(SignatureFault::InvalidUintDecimal(raw))
        }
    }
}

pub fn parse_uint256(raw: &str) -> (res: Result<Vec<u8>, SignatureError>)
    ensures
        bytes_result(res) == uint256_from_text(raw@),
{
    if starts_with_0x(raw) {
        match u256_from_hex_str(raw) {
            Some(w) => Ok(w),
            None => Err(SignatureError::InvalidUint { raw: String::from_str(raw) }),
        }
    } else {
        match u256_from_dec_str(raw) {
            Some(w) => Ok(w),
            None => Err(SignatureError::InvalidUintDecimal { raw: String::from_str(raw) }),
        }
    }
}

/// What an address field denotes: its 20 bytes.
pub open spec fn address_from_text(raw: Seq<char>) -> Result<Seq<u8>, SignatureFault> {
    if is_address_text(raw) {
        Ok(hex_pairs_to_bytes(address_digits(raw)))
    } else {
        Err(SignatureFault::InvalidAddress(raw))
    }
}

pub fn parse_address(raw: &str) -> (res: Result<Vec<u8>, SignatureError>)
    ensures
        bytes_result(res) == address_from_text(raw@),
        res matches Ok(a) ==> a@.len() == 20,
{
    match address_from_str(raw) {
        Some(a) => Ok(a),
        None => Err(SignatureError::InvalidAddress { raw: String::from_str(raw) }),
    }
}

/// The bytes that a `bytes32` field carries before padding: after trimming, hex
/// after a `0x`/`0X` prefix (an error if it is not hex), else hex if the text is
/// hex, else the UTF-8 bytes of the text itself.
pub open spec fn bytes32_content(raw: Seq<char>) -> Result<Seq<u8>, SignatureFault> {
    let v = trim_chars(raw);
    if has_0x_prefix(v) {
        let h = v.subrange(2, v.len() as int);
        if is_hex_text(h) {
            Ok(hex_pairs_to_bytes(h))
        } else {
            Err(SignatureFault::InvalidBytes32Hex)
        }
    } else if is_hex_text(v) {
        Ok(hex_pairs_to_bytes(v))
    } else {
        Ok(encode_utf8(v))
    }
}

/// What a `bytes32` field denotes: its content, left-padded with zeros to 32 bytes.
pub open spec fn bytes32_from_text(raw: Seq<char>) -> Result<Seq<u8>, SignatureFault> {
    match bytes32_content(raw) {
        Ok(b) => if b.len() > 32 {
            Err(SignatureFault::Bytes32TooLarge)
        } else {
            Ok(zeros((32 - b.len()) as nat) + b)
        },
        Err(e) => Err(e),
    }
}

pub fn parse_bytes32(raw: &str) -> (res: Result<Vec<u8>, SignatureError>)
    ensures
        bytes_result(res) == bytes32_from_text(raw@),
        res matches Ok(b) ==> b@.len() == 32,
{
    let value = trim(raw);
    let bytes: Vec<u8> = if starts_with_0x(value) {
        match hex_decode(skip_two(value)) {
            Some(b) => b,
            None => {
                return Err(SignatureError::InvalidBytes32Hex);
            },
        }
    } else {
        match hex_decode(value) {
            Some(b) => b,
            None => value.as_bytes_vec(),
        }
    };
    assert(Ok::<Seq<u8>, SignatureFault>(bytes@) == bytes32_content(raw@));
    let len = bytes.len();
    if len > 32 {
        return Err(SignatureError::Bytes32TooLarge);
    }
    let start: usize = 32 - len;
    let mut out: Vec<u8> = vec![0u8; 32];
    let mut i: usize = 0;
    while i < len
        invariant
            len == bytes@.len(),
            len <= 32,
            start == 32 - len,
            i <= len,
            out@.len() == 32,
            forall|k: int| 0 <= k < start ==> out@[k] == 0u8,
            forall|k: int| 0 <= k < i ==> out@[start + k] == bytes@[k],
        decreases len - i,
    {
        out.set(start + i, bytes[i]);
        i = i + 1;
    }
    assert(out@ =~= zeros((32 - len) as nat) + bytes@);
    Ok(out)
}


/// The EIP-712 type string of the signing domain.
pub const EIP712_DOMAIN_TYPE: &'static str =
    "EIP712Domain(string name,string version,uint256 chainId,address verifyingContract)";

/// The EIP-712 type string of an intent.
pub const INTENT_TYPE: &'static str = "Intent(address maker,address tokenIn,address tokenOut,uint256 amountIn,uint256 minAmountOut,address receiver,uint256 deadline,uint256 nonce,bytes32 salt,uint16 maxRelayerFeeBps,address allowedRelayer,bytes32 referralCode,bool partialFillAllowed)";

/// The domain in which intents are signed.
#[derive(Clone, Debug)]
pub struct SignatureConfig {
    pub domain_name: String,
    pub domain_version: String,
    pub chain_id: u64,
    /// The 20-byte address of the verifying contract.
    pub verifying_contract: Vec<u8>,
}

impl SignatureConfig {
    /// The verifying contract is an address.
    pub open spec fn wf(&self) -> bool {
        self.verifying_contract@.len() == 20
    }
}

/// Appends the word of the next field to an encoding, or keeps the first error.
pub open spec fn then_word(
    acc: Result<Seq<u8>, SignatureFault>,
    next: Result<Seq<u8>, SignatureFault>,
) -> Result<Seq<u8>, SignatureFault> {
    match acc {
        Err(e) => Err(e),
        Ok(a) => match next {
            Err(e) => Err(e),
            Ok(w) => Ok(a + w),
        },
    }
}

/// The ABI word of a parsed address.
pub open spec fn address_word(r: Result<Seq<u8>, SignatureFault>) -> Result<Seq<u8>, SignatureFault> {
    match r {
        Ok(a) => Ok(zeros(12) + a),
        Err(e) => Err(e),
    }
}

/// The word of an optional address field: the zero address where it is absent.
pub open spec fn optional_address_word(raw: Option<String>) -> Result<Seq<u8>, SignatureFault> {
    match raw {
        Some(v) => address_word(address_from_text(v@)),
        None => Ok(zeros(32)),
    }
}

/// The word of the referral code: zero where it is absent or blank.
pub open spec fn referral_word(raw: Option<String>) -> Result<Seq<u8>, SignatureFault> {
    match raw {
        Some(v) => if trim_chars(v@).len() > 0 {
            bytes32_from_text(v@)
        } else {
            Ok(zeros(32))
        },
        None => Ok(zeros(32)),
    }
}

/// The word of a boolean.
pub open spec fn bool_word(b: bool) -> Seq<u8> {
    zeros(31).push(if b { 1u8 } else { 0u8 })
}

/// A negative deadline is encoded as 0.
pub open spec fn deadline_value(deadline: i64) -> nat {
    if deadline < 0 {
        0
    } else {
        deadline as nat
    }
}

/// The hash of the intent type string.
pub open spec fn intent_typehash() -> Seq<u8> {
    keccak256_digest(encode_utf8(INTENT_TYPE@))
}

/// The EIP-712 encoding of an intent: the type hash, then one word per field in
/// declaration order; the first field that does not parse gives the error.
pub open spec fn intent_struct_encoding(i: IntentPayload) -> Result<Seq<u8>, SignatureFault> {
    let acc = Ok(intent_typehash());
    let acc = then_word(acc, address_word(address_from_text(i.maker@)));
    let acc = then_word(acc, address_word(address_from_text(i.token_in@)));
    let acc = then_word(acc, address_word(address_from_text(i.token_out@)));
    let acc = then_word(acc, uint256_from_text(i.amount_in@));
    let acc = then_word(acc, uint256_from_text(i.min_amount_out@));
    let acc = then_word(acc, address_word(address_from_text(i.receiver@)));
    let acc = then_word(acc, Ok(be32(deadline_value(i.deadline))));
    let acc = then_word(acc, Ok(be32(i.nonce as nat)));
    let acc = then_word(acc, bytes32_from_text(i.salt@));
    let acc = then_word(acc, Ok(be32(i.max_relayer_fee_bps as nat)));
    let acc = then_word(acc, optional_address_word(i.allowed_relayer));
    let acc = then_word(acc, referral_word(i.referral_code));
    then_word(acc, Ok(bool_word(i.partial_fill_allowed)))
}

/// The EIP-712 struct hash of an intent.
pub open spec fn intent_struct_hash(i: IntentPayload) -> Result<Seq<u8>, SignatureFault> {
    match intent_struct_encoding(i) {
        Ok(e) => Ok(keccak256_digest(e)),
        Err(f) => Err(f),
    }
}

proof fn lemma_abi_push(ts: Seq<AbiToken>, t: AbiToken)
    ensures
        abi_encoding(ts.push(t)) == abi_encoding(ts) + abi_word(t),
{
    assert(ts.push(t).drop_last() =~= ts);
}

/// Appends a token to a list whose encoding so far is `prefix`.
fn push_token(tokens: &mut Vec<AbiToken>, t: AbiToken, Ghost(prefix): Ghost<Seq<u8>>)
    requires
        abi_encoding(old(tokens)@) == prefix,
        forall|k: int| 0 <= k < old(tokens)@.len() ==> abi_token_ok(#[trigger] old(tokens)@[k]),
        abi_token_ok(t),
    ensures
        final(tokens)@ == old(tokens)@.push(t),
        abi_encoding(final(tokens)@) == prefix + abi_word(t),
        forall|k: int| 0 <= k < final(tokens)@.len() ==> abi_token_ok(#[trigger] final(tokens)@[k]),
{
    proof {
        lemma_abi_push(old(tokens)@, t);
    }
    tokens.push(t);
}

fn optional_address(raw: &Option<String>) -> (res: Result<Vec<u8>, SignatureError>)
    ensures
        match res {
            Ok(a) => a@.len() == 20 && optional_address_word(*raw) == Ok::<Seq<u8>, SignatureFault>(zeros(12) + a@),
            Err(e) => optional_address_word(*raw) == Err::<Seq<u8>, SignatureFault>(e@),
        },
{
    match raw {
        Some(v) => parse_address(v.as_str()),
        None => {
            let z: Vec<u8> = vec![0u8; 20];
            assert(zeros(12) + z@ =~= zeros(32));
            Ok(z)
        },
    }
}

fn referral_bytes(raw: &Option<String>) -> (res: Result<Vec<u8>, SignatureError>)
    ensures
        match res {
            Ok(b) => b@.len() == 32 && referral_word(*raw) == Ok::<Seq<u8>, SignatureFault>(b@),
            Err(e) => referral_word(*raw) == Err::<Seq<u8>, SignatureFault>(e@),
        },
{
    match raw {
        Some(v) => {
            if trim(v.as_str()).unicode_len() > 0 {
                parse_bytes32(v.as_str())
            } else {
                let z: Vec<u8> = vec![0u8; 32];
                assert(z@ =~= zeros(32));
                Ok(z)
            }
        },
        None => {
            let z: Vec<u8> = vec![0u8; 32];
            assert(z@ =~= zeros(32));
            Ok(z)
        },
    }
}


fn fixed_word(b: Vec<u8>) -> (t: AbiToken)
    requires
        b@.len() == 32,
    ensures
        t == AbiToken::FixedBytes(b),
        abi_token_ok(t),
        abi_word(t) == b@,
{
    assert(b@ + zeros(0) =~= b@);
    AbiToken::FixedBytes(b)
}

fn uint_word(w: Vec<u8>) -> (t: AbiToken)
    requires
        w@.len() == 32,
    ensures
        abi_token_ok(t),
        abi_word(t) == w@,
{
    AbiToken::Uint(w)
}

fn address_token(a: Vec<u8>) -> (t: AbiToken)
    requires
        a@.len() == 20,
    ensures
        abi_token_ok(t),
        abi_word(t) == zeros(12) + a@,
{
    AbiToken::Address(a)
}

/// The EIP-712 struct hash of an intent: Keccak-256 of its encoding.
pub fn compute_intent_struct_hash(intent: &IntentPayload) -> (res: Result<Vec<u8>, SignatureError>)
    ensures
        bytes_result(res) == intent_struct_hash(*intent),
        res matches Ok(h) ==> h@.len() == 32,
{
    let typehash = keccak256(INTENT_TYPE.as_bytes());
    let maker = parse_address(intent.maker.as_str())?;
    let token_in = parse_address(intent.token_in.as_str())?;
    let token_out = parse_address(intent.token_out.as_str())?;
    let amount_in = parse_uint256(intent.amount_in.as_str())?;
    let min_amount_out = parse_uint256(intent.min_amount_out.as_str())?;
    let receiver = parse_address(intent.receiver.as_str())?;
    let deadline = word_from_u64(
        if intent.deadline < 0 {
            0
        } else {
            intent.deadline as u64
        },
    );
    let nonce = word_from_u64(intent.nonce);
    let salt = parse_bytes32(intent.salt.as_str())?;
    let max_relayer_fee_bps = word_from_u64(intent.max_relayer_fee_bps as u64);
    let allowed_relayer = optional_address(&intent.allowed_relayer)?;
    let referral_code = referral_bytes(&intent.referral_code)?;

    let mut tokens: Vec<AbiToken> = Vec::new();
    let ghost e0: Seq<u8> = Seq::empty();
    push_token(&mut tokens, fixed_word(typehash), Ghost(e0));
    let ghost e1 = abi_encoding(tokens@);
    push_token(&mut tokens, address_token(maker), Ghost(e1));
    let ghost e2 = abi_encoding(tokens@);
    push_token(&mut tokens, address_token(token_in), Ghost(e2));
    let ghost e3 = abi_encoding(tokens@);
    push_token(&mut tokens, address_token(token_out), Ghost(e3));
    let ghost e4 = abi_encoding(tokens@);
    push_token(&mut tokens, uint_word(amount_in), Ghost(e4));
    let ghost e5 = abi_encoding(tokens@);
    push_token(&mut tokens, uint_word(min_amount_out), Ghost(e5));
    let ghost e6 = abi_encoding(tokens@);
    push_token(&mut tokens, address_token(receiver), Ghost(e6));
    let ghost e7 = abi_encoding(tokens@);
    push_token(&mut tokens, uint_word(deadline), Ghost(e7));
    let ghost e8 = abi_encoding(tokens@);
    push_token(&mut tokens, uint_word(nonce), Ghost(e8));
    let ghost e9 = abi_encoding(tokens@);
    push_token(&mut tokens, fixed_word(salt), Ghost(e9));
    let ghost e10 = abi_encoding(tokens@);
    push_token(&mut tokens, uint_word(max_relayer_fee_bps), Ghost(e10));
    let ghost e11 = abi_encoding(tokens@);
    push_token(&mut tokens, address_token(allowed_relayer), Ghost(e11));
    let ghost e12 = abi_encoding(tokens@);
    push_token(&mut tokens, fixed_word(referral_code), Ghost(e12));
    let ghost e13 = abi_encoding(tokens@);
    let flag = AbiToken::Bool(intent.partial_fill_allowed);
    assert(abi_word(flag) == bool_word(intent.partial_fill_allowed));
    push_token(&mut tokens, flag, Ghost(e13));
    let encoded = abi_encode(&tokens);
    assert(intent_struct_encoding(*intent) == Ok::<Seq<u8>, SignatureFault>(encoded@));
    Ok(keccak256(encoded.as_slice()))
}


/// The EIP-712 domain separator of a configuration.
pub open spec fn domain_separator(cfg: SignatureConfig) -> Seq<u8> {
    keccak256_digest(
        keccak256_digest(encode_utf8(EIP712_DOMAIN_TYPE@)) + keccak256_digest(
            encode_utf8(cfg.domain_name@),
        ) + keccak256_digest(encode_utf8(cfg.domain_version@)) + be32(cfg.chain_id as nat)
            + (zeros(12) + cfg.verifying_contract@),
    )
}

pub fn compute_domain_separator(config: &SignatureConfig) -> (res: Vec<u8>)
    requires
        config.wf(),
    ensures
        res@ == domain_separator(*config),
        res@.len() == 32,
{
    let domain_typehash = keccak256(EIP712_DOMAIN_TYPE.as_bytes());
    let name_hash = keccak256(config.domain_name.as_str().as_bytes());
    let version_hash = keccak256(config.domain_version.as_str().as_bytes());
    let chain_id = word_from_u64(config.chain_id);
    let contract = slice_to_vec(config.verifying_contract.as_slice());
    let mut tokens: Vec<AbiToken> = Vec::new();
    let ghost e0: Seq<u8> = Seq::empty();
    push_token(&mut tokens, fixed_word(domain_typehash), Ghost(e0));
    let ghost e1 = abi_encoding(tokens@);
    push_token(&mut tokens, fixed_word(name_hash), Ghost(e1));
    let ghost e2 = abi_encoding(tokens@);
    push_token(&mut tokens, fixed_word(version_hash), Ghost(e2));
    let ghost e3 = abi_encoding(tokens@);
    push_token(&mut tokens, uint_word(chain_id), Ghost(e3));
    let ghost e4 = abi_encoding(tokens@);
    push_token(&mut tokens, address_token(contract), Ghost(e4));
    let encoded = abi_encode(&tokens);
    keccak256(encoded.as_slice())
}

/// The EIP-712 digest that the maker signs: Keccak-256 of `0x19 0x01`, the domain
/// separator and the struct hash.
pub open spec fn eip712_digest(cfg: SignatureConfig, i: IntentPayload) -> Result<Seq<u8>, SignatureFault> {
    match intent_struct_hash(i) {
        Ok(h) => Ok(keccak256_digest(seq![0x19u8, 0x01u8] + domain_separator(cfg) + h)),
        Err(e) => Err(e),
    }
}

pub fn compute_eip712_digest(config: &SignatureConfig, intent: &IntentPayload) -> (res: Result<
    Vec<u8>,
    SignatureError,
>)
    requires
        config.wf(),
    ensures
        bytes_result(res) == eip712_digest(*config, *intent),
        res matches Ok(d) ==> d@.len() == 32,
{
    let domain_separator = compute_domain_separator(config);
    let struct_hash = compute_intent_struct_hash(intent)?;
    let mut bytes: Vec<u8> = Vec::with_capacity(66);
    bytes.push(0x19);
    bytes.push(0x01);
    bytes.extend_from_slice(domain_separator.as_slice());
    bytes.extend_from_slice(struct_hash.as_slice());
    assert(bytes@ =~= seq![0x19u8, 0x01u8] + domain_separator@ + struct_hash@);
    Ok(keccak256(bytes.as_slice()))
}

/// The outcome of checking an intent's signature: the digest is recovered from the
/// signature text, and the signature is valid exactly when the recovered signer is
/// the maker.
pub open spec fn eip712_signature_check(
    cfg: SignatureConfig,
    i: IntentPayload,
    signature: Seq<char>,
) -> Result<bool, SignatureFault> {
    match eip712_digest(cfg, i) {
        Err(e) => Err(e),
        Ok(d) => if !is_signature_text(signature) {
            Err(SignatureFault::InvalidSignatureEncoding)
        } else {
            let b = hex_pairs_to_bytes(signature_digits(signature));
            match ecrecover_address(b.subrange(0, 32), b.subrange(32, 64), b[64] as u64, d) {
                None => Err(SignatureFault::RecoveryFailed),
                Some(signer) => match address_from_text(i.maker@) {
                    Err(e) => Err(e),
                    Ok(maker) => Ok(signer == maker),
                },
            }
        },
    }
}

pub fn verify_eip712_signature(
    config: &SignatureConfig,
    intent: &IntentPayload,
    signature_hex: &str,
) -> (res: Result<bool, SignatureError>)
    requires
        config.wf(),
    ensures
        match res {
            Ok(b) => eip712_signature_check(*config, *intent, signature_hex@) == Ok::<
                bool,
                SignatureFault,
            >(b),
            Err(e) => eip712_signature_check(*config, *intent, signature_hex@) == Err::<
                bool,
                SignatureFault,
            >(e@),
        },
{
    let digest = compute_eip712_digest(config, intent)?;
    let signature = match signature_from_str(signature_hex) {
        Some(s) => s,
        None => {
            return Err(SignatureError::InvalidSignatureEncoding);
        },
    };
    let recovered = match recover_signer(&signature, digest.as_slice()) {
        Some(a) => a,
        None => {
            return Err(SignatureError::RecoveryFailed);
        },
    };
    let maker = parse_address(intent.maker.as_str())?;
    let same = recovered == maker;
    proof {
        if same {
            assert(recovered@ =~= maker@);
        }
    }
    Ok(same)
}

/// The identifier of an intent: `0x` and the lower-case hex of its struct hash.
pub open spec fn intent_hash_hex(i: IntentPayload) -> Result<Seq<char>, SignatureFault> {
    match intent_struct_hash(i) {
        Ok(h) => Ok("0x"@ + lower_hex_of(h)),
        Err(e) => Err(e),
    }
}

pub fn compute_intent_hash_hex(intent: &IntentPayload) -> (res: Result<String, SignatureError>)
    ensures
        match res {
            Ok(h) => intent_hash_hex(*intent) == Ok::<Seq<char>, SignatureFault>(h@),
            Err(e) => intent_hash_hex(*intent) == Err::<Seq<char>, SignatureFault>(e@),
        },
        res matches Ok(h) ==> bytes32_from_text(h@) == intent_struct_hash(*intent),
{
    let struct_hash = compute_intent_struct_hash(intent)?;
    let mut out = String::from_str("0x");
    let encoded = hex_encode(struct_hash.as_slice());
    out.append(encoded.as_str());
    proof {
        lemma_hash_text_reads_back(struct_hash@);
    }
    Ok(out)
}

/// The `0x` text of a 32-byte hash, read as a `bytes32` field, gives the hash back.
pub proof fn lemma_hash_text_reads_back(hash: Seq<u8>)
    requires
        hash.len() == 32,
    ensures
        bytes32_from_text("0x"@ + lower_hex_of(hash)) == Ok::<Seq<u8>, SignatureFault>(hash),
{
    reveal_strlit("0x");
    let h = "0x"@ + lower_hex_of(hash);
    lemma_lower_hex_roundtrip(hash);
    let last = (hash[31] % 16) as int;
    assert(h.last() == lower_hex_of(hash)[63]);
    assert(63int % 2 == 1 && 63int / 2 == 31);
    assert(h.last() == lower_hex_digit(last));
    lemma_trim_noop(h);
    assert(h.subrange(2, h.len() as int) =~= lower_hex_of(hash));
    assert(zeros(0) + hash =~= hash);
}


/// The chain id in effect: a `u64` text as `str::parse` reads it, else 1.
pub open spec fn configured_chain_id(raw: Option<String>) -> u64 {
    match raw {
        Some(t) => match u64_from_text(t@) {
            Some(v) => v,
            None => 1,
        },
        None => 1,
    }
}

/// The verifying contract in effect: a non-blank text must be an address; absent
/// or blank, the zero address.
pub open spec fn configured_contract(raw: Option<String>) -> Result<Seq<u8>, SignatureFault> {
    match raw {
        Some(t) => if trim_chars(t@).len() > 0 {
            address_from_text(t@)
        } else {
            Ok(zeros(20))
        },
        None => Ok(zeros(20)),
    }
}

/// The domain name in effect.
pub open spec fn configured_name(raw: Option<String>) -> Seq<char> {
    match raw {
        Some(n) => n@,
        None => "IntentSwap Relay"@,
    }
}

/// The domain version in effect.
pub open spec fn configured_version(raw: Option<String>) -> Seq<char> {
    match raw {
        Some(v) => v@,
        None => "1"@,
    }
}

/// Builds the signing domain from the configured texts (each absent where the
/// setting is not given): name and version default to "IntentSwap Relay" and
/// "1", an unreadable chain id to 1, a blank contract to the zero address.
pub fn load_signature_config(
    domain_name: Option<String>,
    domain_version: Option<String>,
    chain_id: Option<String>,
    verifying_contract: Option<String>,
) -> (res: Result<SignatureConfig, SignatureError>)
    ensures
        match res {
            Ok(c) => {
                &&& c.wf()
                &&& c.domain_name@ == configured_name(domain_name)
                &&& c.domain_version@ == configured_version(domain_version)
                &&& c.chain_id == configured_chain_id(chain_id)
                &&& configured_contract(verifying_contract) == Ok::<Seq<u8>, SignatureFault>(
                    c.verifying_contract@,
                )
            },
            Err(e) => configured_contract(verifying_contract) == Err::<Seq<u8>, SignatureFault>(
                e@,
            ),
        },
{
    let contract: Vec<u8> = match &verifying_contract {
        Some(text) => {
            if trim(text.as_str()).unicode_len() > 0 {
                parse_address(text.as_str())?
            } else {
                let z: Vec<u8> = vec![0u8; 20];
                assert(z@ =~= zeros(20));
                z
            }
        },
        None => {
            let z: Vec<u8> = vec![0u8; 20];
            assert(z@ =~= zeros(20));
            z
        },
    };
    let chain: u64 = match &chain_id {
        Some(text) => match parse_u64(text.as_str()) {
            Some(v) => v,
            None => 1,
        },
        None => 1,
    };
    let name = match domain_name {
        Some(n) => n,
        None => String::from_str("IntentSwap Relay"),
    };
    let version = match domain_version {
        Some(v) => v,
        None => String::from_str("1"),
    };
    Ok(SignatureConfig {
        domain_name: name,
        domain_version: version,
        chain_id: chain,
        verifying_contract: contract,
    })
}


/// A signature check succeeds only where the signature recovers, from the EIP-712
/// digest of the intent, to the intent's maker.
pub proof fn lemma_valid_signature_recovers_maker(
    cfg: SignatureConfig,
    i: IntentPayload,
    signature: Seq<char>,
)
    requires
        eip712_signature_check(cfg, i, signature) == Ok::<bool, SignatureFault>(true),
    ensures
        is_signature_text(signature),
        match (eip712_digest(cfg, i), address_from_text(i.maker@)) {
            (Ok(d), Ok(maker)) => {
                let b = hex_pairs_to_bytes(signature_digits(signature));
                ecrecover_address(b.subrange(0, 32), b.subrange(32, 64), b[64] as u64, d) == Some(
                    maker,
                )
            },
            _ => false,
        },
{
}


/// Completeness of the signature check: whenever the digest and the maker parse
/// and the signature recovers, from that digest, to the maker's 20 bytes, the
/// check answers `true`, however the maker's letters are cased.
pub proof fn lemma_recovering_maker_is_valid(
    cfg: SignatureConfig,
    i: IntentPayload,
    signature: Seq<char>,
    digest: Seq<u8>,
    maker: Seq<u8>,
)
    requires
        eip712_digest(cfg, i) == Ok::<Seq<u8>, SignatureFault>(digest),
        address_from_text(i.maker@) == Ok::<Seq<u8>, SignatureFault>(maker),
        is_signature_text(signature),
        ({
            let b = hex_pairs_to_bytes(signature_digits(signature));
            ecrecover_address(b.subrange(0, 32), b.subrange(32, 64), b[64] as u64, digest) == Some(
                maker,
            )
        }),
    ensures
        eip712_signature_check(cfg, i, signature) == Ok::<bool, SignatureFault>(true),
{
}

/// The check depends on the maker only through the address it denotes: two intents
/// alike but for makers that parse to the same bytes (say, written in different
/// letter case) get the same answer.
pub proof fn lemma_signature_check_ignores_maker_spelling(
    cfg: SignatureConfig,
    i: IntentPayload,
    j: IntentPayload,
    signature: Seq<char>,
)
    requires
        address_from_text(i.maker@) is Ok,
        address_from_text(i.maker@) == address_from_text(j.maker@),
        eip712_digest(cfg, i) == eip712_digest(cfg, j),
    ensures
        eip712_signature_check(cfg, i, signature) == eip712_signature_check(cfg, j, signature),
{
}

/// An intent's struct encoding ends with the word of its own `partialFillAllowed`
/// flag: 31 zero bytes, then 1 for true and 0 for false. So two intents that differ
/// only in that flag are encoded, and signed, differently.
pub proof fn lemma_encoding_ends_with_fill_flag(i: IntentPayload)
    requires
        intent_struct_encoding(i) is Ok,
    ensures
        ({
            let e = intent_struct_encoding(i)->Ok_0;
            &&& e.len() >= 32
            &&& forall|k: int| e.len() - 32 <= k < e.len() - 1 ==> #[trigger] e[k] == 0u8
            &&& e[e.len() - 1] == (if i.partial_fill_allowed { 1u8 } else { 0u8 })
        }),
{
    let e = intent_struct_encoding(i)->Ok_0;
    let w = bool_word(i.partial_fill_allowed);
    assert(w.len() == 32);
    let acc_before = {
        let acc = Ok::<Seq<u8>, SignatureFault>(intent_typehash());
        let acc = then_word(acc, address_word(address_from_text(i.maker@)));
        let acc = then_word(acc, address_word(address_from_text(i.token_in@)));
        let acc = then_word(acc, address_word(address_from_text(i.token_out@)));
        let acc = then_word(acc, uint256_from_text(i.amount_in@));
        let acc = then_word(acc, uint256_from_text(i.min_amount_out@));
        let acc = then_word(acc, address_word(address_from_text(i.receiver@)));
        let acc = then_word(acc, Ok(be32(deadline_value(i.deadline))));
        let acc = then_word(acc, Ok(be32(i.nonce as nat)));
        let acc = then_word(acc, bytes32_from_text(i.salt@));
        let acc = then_word(acc, Ok(be32(i.max_relayer_fee_bps as nat)));
        let acc = then_word(acc, optional_address_word(i.allowed_relayer));
        then_word(acc, referral_word(i.referral_code))
    };
    assert(intent_struct_encoding(i) == then_word(acc_before, Ok(w)));
    let a = acc_before->Ok_0;
    assert(e == a + w);
    assert forall|k: int| e.len() - 32 <= k < e.len() - 1 implies #[trigger] e[k] == 0u8 by {
        assert(e[k] == w[k - a.len()]);
    }
    assert(e[e.len() - 1] == w[31]);
}

/// Two intents that differ only in `partialFillAllowed` never share an encoding.
pub proof fn lemma_fill_flag_changes_encoding(i: IntentPayload)
    requires
        intent_struct_encoding(i) is Ok,
        intent_struct_encoding(IntentPayload { partial_fill_allowed: !i.partial_fill_allowed, ..i })
            is Ok,
    ensures
        intent_struct_encoding(i) != intent_struct_encoding(
            IntentPayload { partial_fill_allowed: !i.partial_fill_allowed, ..i },
        ),
{
    let j = IntentPayload { partial_fill_allowed: !i.partial_fill_allowed, ..i };
    lemma_encoding_ends_with_fill_flag(i);
    lemma_encoding_ends_with_fill_flag(j);
    let e = intent_struct_encoding(i)->Ok_0;
    let f = intent_struct_encoding(j)->Ok_0;
    if e == f {
        assert(e[e.len() - 1] == f[f.len() - 1]);
    }
}


/// The layout of an intent's encoding once its fields parse: the type hash, then the
/// maker, token in, token out (each left-padded to 32 bytes), the two amounts, the
/// receiver, the deadline (0 if negative), the nonce, the salt, the fee, the allowed
/// relayer, the referral code, and the fill flag, in that order.
pub proof fn lemma_encoding_layout(
    i: IntentPayload,
    maker: Seq<u8>,
    token_in: Seq<u8>,
    token_out: Seq<u8>,
    amount_in: Seq<u8>,
    min_amount_out: Seq<u8>,
    receiver: Seq<u8>,
    salt: Seq<u8>,
    allowed_word: Seq<u8>,
    referral: Seq<u8>,
)
    requires
        address_from_text(i.maker@) == Ok::<Seq<u8>, SignatureFault>(maker),
        address_from_text(i.token_in@) == Ok::<Seq<u8>, SignatureFault>(token_in),
        address_from_text(i.token_out@) == Ok::<Seq<u8>, SignatureFault>(token_out),
        uint256_from_text(i.amount_in@) == Ok::<Seq<u8>, SignatureFault>(amount_in),
        uint256_from_text(i.min_amount_out@) == Ok::<Seq<u8>, SignatureFault>(min_amount_out),
        address_from_text(i.receiver@) == Ok::<Seq<u8>, SignatureFault>(receiver),
        bytes32_from_text(i.salt@) == Ok::<Seq<u8>, SignatureFault>(salt),
        optional_address_word(i.allowed_relayer) == Ok::<Seq<u8>, SignatureFault>(allowed_word),
        referral_word(i.referral_code) == Ok::<Seq<u8>, SignatureFault>(referral),
    ensures
        intent_struct_encoding(i) == Ok::<Seq<u8>, SignatureFault>(
            keccak256_digest(encode_utf8(INTENT_TYPE@)) + (zeros(12) + maker) + (zeros(12) + token_in)
                + (zeros(12) + token_out) + amount_in + min_amount_out + (zeros(12) + receiver)
                + be32(if i.deadline < 0 { 0 } else { i.deadline as nat }) + be32(i.nonce as nat)
                + salt + be32(i.max_relayer_fee_bps as nat) + allowed_word + referral + zeros(31).push(
                if i.partial_fill_allowed { 1u8 } else { 0u8 },
            ),
        ),
{
}

} // verus!
