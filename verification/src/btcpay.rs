//! Invoices and webhooks of a BTCPay server.

use crate::config::MarketConfig;
use crate::text::{digit, same_text, strip_prefix, trim_end_of, trimmed_end_of, without_prefix};
use hmac::Mac;
use vstd::prelude::*;
use vstd::utf8::{encode_utf8, encode_utf8_decode_utf8};

verus! {

// ── signatures ────────────────────────────────────────────────────

/// The HMAC-SHA256 of `data` under `key`.
pub uninterp spec fn hmac_sha256(key: Seq<u8>, data: Seq<u8>) -> Seq<u8>;

/// `hmac::Hmac::<sha2::Sha256>`, keyed with `key` and fed with `data`: a function
/// of the two, named [`hmac_sha256`], of 32 bytes. Every key length is taken.
#[verifier::external_body]
fn hmac_sha256_bytes(key: &[u8], data: &[u8]) -> (code: Vec<u8>)
    ensures
        code@ == hmac_sha256(key@, data@),
        code@.len() == 32,
{
    let mut mac = hmac::Hmac::<sha2::Sha256>::new_from_slice(key).expect("hmac key");
    mac.update(data);
    mac.finalize().into_bytes().to_vec()
}

/// Bytes in hexadecimal: two lower-case digits for each.
pub open spec fn hex_text(bytes: Seq<u8>) -> Seq<char> {
    Seq::new(
        2 * bytes.len(),
        |i: int|
            if i % 2 == 0 {
                digit((bytes[i / 2] / 16) as nat, false)
            } else {
                digit((bytes[i / 2] % 16) as nat, false)
            },
    )
}

/// `hex::encode`: two lower-case hexadecimal digits for each byte.
#[verifier::external_body]
fn hex_encode(bytes: &Vec<u8>) -> (out: String)
    ensures
        out@ == hex_text(bytes@),
{
    hex::encode(bytes)
}

/// Whether two byte strings are equal. The time it takes depends on their
/// lengths and not on where they differ.
pub fn constant_time_eq(a: &[u8], b: &[u8]) -> (same: bool)
    ensures
        same == (a@ == b@),
{
    if a.len() != b.len() {
        return false;
    }
    let mut diff: u8 = 0u8;
    let mut i: usize = 0;
    while i < a.len()
        invariant
            a.len() == b.len(),
            i <= a.len(),
            diff == 0 <==> forall|k: int| 0 <= k < i ==> a@[k] == b@[k],
        decreases a.len() - i,
    {
        let x: u8 = a[i];
        let y: u8 = b[i];
        assert((diff | (x ^ y)) == 0 <==> (diff == 0 && x == y)) by (bit_vector);
        diff = diff | (x ^ y);
        i = i + 1;
    }
    if diff == 0 {
        assert(a@ =~= b@);
    }
    diff == 0
}

/// The digest in a signature header, with or without its `sha256=` prefix.
pub open spec fn signature_digest(signature: Seq<char>) -> Seq<char> {
    match without_prefix(signature, "sha256="@) {
        Some(digest) => digest,
        None => signature,
    }
}

/// The signature of `body` under `secret`.
pub open spec fn webhook_digest(secret: Seq<char>, body: Seq<u8>) -> Seq<char> {
    hex_text(hmac_sha256(encode_utf8(secret), body))
}

// ── the client ────────────────────────────────────────────────────

/// An invoice as BTCPay returns it.
#[derive(Clone, Debug)]
pub struct InvoiceResponse {
    /// Its identifier.
    pub id: String,
    /// Where it is paid.
    pub checkout_link: Option<String>,
    /// Where it stands.
    pub status: Option<String>,
}

/// What BTCPay reports.
#[derive(Clone, Debug)]
pub struct WebhookPayload {
    /// The invoice it is about.
    pub invoice_id: String,
    /// What happened.
    pub event_type: String,
}

/// An invoice to be made.
#[derive(Clone, Debug)]
pub struct CreateInvoiceRequest {
    /// The amount in bitcoin.
    pub amount: String,
    /// The currency.
    pub currency: String,
    /// The order it is for.
    pub order_id: String,
    /// Who it is for.
    pub github_handle: String,
    /// How long it can be paid.
    pub expiration_minutes: i64,
}

/// How requests reach a BTCPay server.
#[derive(Clone, Debug)]
pub struct BtcPayClient {
    /// Where it answers.
    pub base_url: String,
    /// The key for it.
    pub api_key: String,
    /// The store.
    pub store_id: String,
    /// The secret that it signs with.
    pub webhook_secret: String,
}

impl BtcPayClient {
    /// A client with the settings of the marketplace.
    pub fn new(config: &MarketConfig) -> (client: BtcPayClient)
        ensures
            client.base_url@ == trim_end_of(config@.btcpay_url, '/'),
            client.api_key@ == config@.btcpay_api_key,
            client.store_id@ == config@.btcpay_store_id,
            client.webhook_secret@ == config@.btcpay_webhook_secret,
    {
        BtcPayClient {
            base_url: trimmed_end_of(config.btcpay_url.as_str(), '/').to_owned(),
            api_key: config.btcpay_api_key.clone(),
            store_id: config.btcpay_store_id.clone(),
            webhook_secret: config.btcpay_webhook_secret.clone(),
        }
    }

    /// The request for an invoice over `amount_btc` bitcoin, which can be paid
    /// for an hour.
    pub fn create_invoice(&self, amount_btc: &str, order_id: &str, github_handle: &str) -> (req:
        CreateInvoiceRequest)
        ensures
            req.amount@ == amount_btc@,
            req.currency@ == "BTC"@,
            req.order_id@ == order_id@,
            req.github_handle@ == github_handle@,
            req.expiration_minutes == 60,
    {
        CreateInvoiceRequest {
            amount: amount_btc.to_owned(),
            currency: "BTC".to_owned(),
            order_id: order_id.to_owned(),
            github_handle: github_handle.to_owned(),
            expiration_minutes: 60,
        }
    }

    /// Where invoices are made.
    pub fn invoices_url(&self) -> (url: String)
        ensures
            url@ == self.base_url@ + "/api/v1/stores/"@ + self.store_id@ + "/invoices"@,
    {
        let mut url: String = self.base_url.clone();
        url.append("/api/v1/stores/");
        url.append(self.store_id.as_str());
        url.append("/invoices");
        url
    }

    /// The `Authorization` header of requests.
    pub fn authorization(&self) -> (value: String)
        ensures
            value@ == "token "@ + self.api_key@,
    {
        let mut value: String = "token ".to_owned();
        value.append(self.api_key.as_str());
        value
    }

    /// Whether `signature` is the server's signature of `body`: its digest has
    /// 64 digits, so an empty or a shorter signature is not.
    pub fn verify_webhook(&self, body: &[u8], signature: &str) -> (ok: bool)
        ensures
            ok == (signature_digest(signature@) == webhook_digest(self.webhook_secret@, body@)),
            webhook_digest(self.webhook_secret@, body@).len() == 64,
    {
        let code: Vec<u8> = hmac_sha256_bytes(self.webhook_secret.as_str().as_bytes(), body);
        let expected: String = hex_encode(&code);
        let sig: &str = match strip_prefix(signature, "sha256=") {
            Some(digest) => digest,
            None => signature,
        };
        proof {
            encode_utf8_decode_utf8(sig@);
            encode_utf8_decode_utf8(expected@);
        }
        constant_time_eq(sig.as_bytes(), expected.as_str().as_bytes())
    }

    /// Where an invoice is paid.
    pub fn checkout_url(&self, invoice_id: &str) -> (url: String)
        ensures
            url@ == self.base_url@ + "/i/"@ + invoice_id@,
    {
        let mut url: String = self.base_url.clone();
        url.append("/i/");
        url.append(invoice_id);
        url
    }
}

/// Whether an event says that an invoice was settled.
pub open spec fn is_settlement(event_type: Seq<char>) -> bool {
    event_type == "InvoiceSettled"@ || event_type == "InvoicePaymentSettled"@
}

/// Whether an event says that an invoice was settled.
pub fn settles(payload: &WebhookPayload) -> (yes: bool)
    ensures
        yes == is_settlement(payload.event_type@),
{
    same_text(payload.event_type.as_str(), "InvoiceSettled") || same_text(
        payload.event_type.as_str(),
        "InvoicePaymentSettled",
    )
}

// ── laws ──────────────────────────────────────────────────────────

/// A body is accepted with its own digest, with or without the prefix: a
/// digest is made of hexadecimal digits, so it does not begin with the prefix
/// itself.
pub proof fn law_own_signature_is_accepted(secret: Seq<char>, body: Seq<u8>)
    ensures
        signature_digest("sha256="@ + webhook_digest(secret, body)) == webhook_digest(secret, body),
        signature_digest(webhook_digest(secret, body)) == webhook_digest(secret, body),
{
    reveal_strlit("sha256=");
    let digest = webhook_digest(secret, body);
    let whole = "sha256="@ + digest;
    assert(whole.subrange(0, 7) =~= "sha256="@);
    assert(whole.subrange(7, whole.len() as int) =~= digest);
    if digest.len() >= 7 {
        let code = hmac_sha256(encode_utf8(secret), body);
        assert(digest.len() == 2 * code.len());
        lemma_hex_digits(code, 0);
        assert(digest[0] != 's');
        assert(digest.subrange(0, 7)[0] == digest[0]);
    }
}

/// Two byte strings with the same hexadecimal text are the same.
pub proof fn law_hex_text_is_injective(a: Seq<u8>, b: Seq<u8>)
    requires
        hex_text(a) == hex_text(b),
    ensures
        a == b,
{
    assert(hex_text(a).len() == 2 * a.len());
    assert(hex_text(b).len() == 2 * b.len());
    assert forall|i: int| 0 <= i < a.len() implies a[i] == b[i] by {
        assert(hex_text(a)[2 * i] == hex_text(b)[2 * i]);
        assert(hex_text(a)[2 * i + 1] == hex_text(b)[2 * i + 1]);
        lemma_hex_digits(a, i);
        lemma_hex_digits(b, i);
        lemma_digit_is_injective((a[i] / 16) as nat, (b[i] / 16) as nat);
        lemma_digit_is_injective((a[i] % 16) as nat, (b[i] % 16) as nat);
    }
    assert(a =~= b);
}

proof fn lemma_hex_digits(a: Seq<u8>, i: int)
    requires
        0 <= i < a.len(),
    ensures
        hex_text(a)[2 * i] == digit((a[i] / 16) as nat, false),
        hex_text(a)[2 * i + 1] == digit((a[i] % 16) as nat, false),
        a[i] / 16 < 16,
{
    assert((2 * i) / 2 == i && (2 * i) % 2 == 0);
    assert((2 * i + 1) / 2 == i && (2 * i + 1) % 2 == 1);
}

proof fn lemma_digit_is_injective(x: nat, y: nat)
    requires
        x < 16,
        y < 16,
        digit(x, false) == digit(y, false),
    ensures
        x == y,
{
}

} // verus!
