//! Webhook authentication, event routing and the branch naming that links pull
//! requests back to their issues.

pub mod errors;
pub mod handlers;
pub mod inflight;
pub mod models;

use hmac::Mac;
use vstd::prelude::*;
use vstd::string::*;
use vstd::utf8::*;

use crate::text::{
    chars_of, concat2, decimal, find, find_spec, leading_digits, owned, parse_unsigned,
    parse_unsigned_spec, slice_range, starts_with, starts_with_spec, str_eq,
    take_leading_digits, trim_start_matches, trim_start_matches_spec,
};
use handlers::HttpReply;
use models::GiteaEvent;

verus! {

// ---------------------------------------------------------------------------
// HMAC-SHA256 signatures
// ---------------------------------------------------------------------------

/// What HMAC-SHA256 (crates `hmac` with `sha2::Sha256`) computes for a key and a
/// message.
pub uninterp spec fn hmac_sha256_digest(key: Seq<u8>, message: Seq<u8>) -> Seq<u8>;

/// Computes HMAC-SHA256 of `message` under `key` with `Hmac::<Sha256>::new_from_slice`,
/// `Mac::update` and `Mac::finalize`. HMAC takes keys of any length, so the key is
/// always accepted; the contract names the digest `hmac_sha256_digest` and claims
/// its documented length of 32 bytes.
#[verifier::external_body]
fn hmac_sha256(key: &[u8], message: &[u8]) -> (r: Vec<u8>)
    ensures
        r@ == hmac_sha256_digest(key@, message@),
        r@.len() == 32,
{
    let mut mac = <hmac::Hmac<sha2::Sha256> as Mac>::new_from_slice(key).expect(
        "HMAC-SHA256 accepts keys of any size",
    );
    mac.update(message);
    mac.finalize().into_bytes().to_vec()
}

pub open spec fn hex_digit_lower(n: nat) -> char {
    if n < 10 {
        crate::text::digit_char(n)
    } else if n == 10 {
        'a'
    } else if n == 11 {
        'b'
    } else if n == 12 {
        'c'
    } else if n == 13 {
        'd'
    } else if n == 14 {
        'e'
    } else {
        'f'
    }
}

/// Lowercase hexadecimal rendering of bytes, two digits per byte, high nibble first.
pub open spec fn hex_lower(bytes: Seq<u8>) -> Seq<char>
    decreases bytes.len(),
{
    if bytes.len() == 0 {
        seq![]
    } else {
        hex_lower(bytes.drop_last()) + seq![
            hex_digit_lower((bytes.last() / 16) as nat),
            hex_digit_lower((bytes.last() % 16) as nat),
        ]
    }
}

/// Encodes bytes as lowercase hex with `hex::encode`: two characters per byte from
/// `0123456789abcdef`, high nibble first.
#[verifier::external_body]
fn hex_encode(bytes: &[u8]) -> (r: String)
    ensures
        r@ == hex_lower(bytes@),
{
    hex::encode(bytes)
}

/// The signature of `body` under `secret`: `sha256=` and the hex HMAC-SHA256 digest.
pub open spec fn signature_spec(secret: Seq<char>, body: Seq<u8>) -> Seq<char> {
    "sha256="@ + hex_lower(hmac_sha256_digest(encode_utf8(secret), body))
}

/// A signature header as compared: headers without the `sha256=` prefix (as Forgejo
/// sends them) get it prepended.
pub open spec fn normalized_signature(header: Seq<char>) -> Seq<char> {
    if starts_with_spec(header, "sha256="@) {
        header
    } else {
        "sha256="@ + header
    }
}

/// HMAC-SHA256 verification of webhook bodies.
pub struct WebhookVerifier {
    pub secret: String,
}

proof fn lemma_xor_or_zero(r: u8, a: u8, b: u8)
    by (bit_vector)
    ensures
        ((r | (a ^ b)) == 0) == (r == 0 && a == b),
{
}

proof fn lemma_encode_utf8_injective(a: Seq<char>, b: Seq<char>)
    ensures
        (encode_utf8(a) == encode_utf8(b)) == (a == b),
{
    encode_utf8_decode_utf8(a);
    encode_utf8_decode_utf8(b);
}

/// Compares two strings byte by byte without stopping at the first difference.
fn constant_time_eq(a: &str, b: &str) -> (r: bool)
    ensures
        r == (a@ == b@),
{
    let ab = a.as_bytes();
    let bb = b.as_bytes();
    proof {
        lemma_encode_utf8_injective(a@, b@);
    }
    if ab.len() != bb.len() {
        return false;
    }
    let mut result: u8 = 0;
    let mut i: usize = 0;
    while i < ab.len()
        invariant
            i <= ab.len(),
            ab.len() == bb.len(),
            (result == 0) == (forall|k: int| 0 <= k < i ==> ab@[k] == bb@[k]),
        decreases ab.len() - i,
    {
        proof {
            lemma_xor_or_zero(result, ab@[i as int], bb@[i as int]);
        }
        result = result | (ab[i] ^ bb[i]);
        i = i + 1;
    }
    proof {
        if result == 0 {
            assert(ab@ =~= bb@);
        }
    }
    result == 0
}

impl WebhookVerifier {
    pub fn new(secret: String) -> (v: WebhookVerifier)
        ensures
            v.secret == secret,
    {
        WebhookVerifier { secret }
    }

    /// The HMAC-SHA256 signature of `body`: `sha256=` and the lowercase hex digest.
    pub fn compute_signature(&self, body: &[u8]) -> (r: String)
        ensures
            r@ == signature_spec(self.secret@, body@),
    {
        let digest = hmac_sha256(self.secret.as_str().as_bytes(), body);
        let hex = hex_encode(digest.as_slice());
        concat2("sha256=", hex.as_str())
    }

    /// Whether `signature_header` (with or without the `sha256=` prefix) is the
    /// signature of `body`. The comparison runs over every byte.
    pub fn verify_signature(&self, body: &[u8], signature_header: &str) -> (r: bool)
        ensures
            r == (normalized_signature(signature_header@) == signature_spec(self.secret@, body@)),
    {
        let expected = self.compute_signature(body);
        let signature = if starts_with(signature_header, "sha256=") {
            owned(signature_header)
        } else {
            concat2("sha256=", signature_header)
        };
        constant_time_eq(expected.as_str(), signature.as_str())
    }
}

/// The signature a verifier computes for a body is accepted for that body, both
/// as computed and as the bare hex digest that Forgejo sends.
pub proof fn law_computed_signature_verifies(secret: Seq<char>, body: Seq<u8>)
    ensures
        normalized_signature(signature_spec(secret, body)) == signature_spec(secret, body),
        normalized_signature(hex_lower(hmac_sha256_digest(encode_utf8(secret), body)))
            == signature_spec(secret, body),
{
    let s = signature_spec(secret, body);
    assert(s.subrange(0, "sha256="@.len() as int) =~= "sha256="@);
    let h = hex_lower(hmac_sha256_digest(encode_utf8(secret), body));
    lemma_hex_lower_chars(hmac_sha256_digest(encode_utf8(secret), body));
    reveal_strlit("sha256=");
    if h.len() >= 7 {
        assert(h[0] != 's');
        assert(h.subrange(0, 7)[0] != "sha256="@[0]);
    }
}

/// Every character of a lowercase hex rendering is a hex digit.
pub proof fn lemma_hex_lower_chars(bytes: Seq<u8>)
    ensures
        forall|i: int|
            0 <= i < hex_lower(bytes).len() ==> ('0' <= #[trigger] hex_lower(bytes)[i] <= '9' || 'a'
                <= hex_lower(bytes)[i] <= 'f'),
        hex_lower(bytes).len() == 2 * bytes.len(),
    decreases bytes.len(),
{
    if bytes.len() > 0 {
        lemma_hex_lower_chars(bytes.drop_last());
        let h = hex_lower(bytes);
        let p = hex_lower(bytes.drop_last());
        assert forall|i: int| 0 <= i < h.len() implies ('0' <= #[trigger] h[i] <= '9' || 'a' <= h[i]
            <= 'f') by {
            if i < p.len() {
                assert(h[i] == p[i]);
            }
        }
    }
}

// ---------------------------------------------------------------------------
// Authenticating a delivery
// ---------------------------------------------------------------------------

/// The `X-Gitea-Signature` header of a request.
#[derive(Debug, Clone, PartialEq, Eq)]
pub enum SignatureHeader {
    Missing,
    /// Present but not visible ASCII text.
    NotText,
    Text(String),
}

/// What a delivery is answered when it is refused before its event is handled.
pub open spec fn refusal(r: HttpReply, status: u16, body: Seq<char>) -> bool {
    r.status == status && r.body@ == body
}

fn reply(status: u16, body: &str) -> (r: HttpReply)
    ensures
        refusal(r, status, body@),
{
    HttpReply { status, body: owned(body) }
}

/// Checks a delivery's signature: a missing or unreadable signature header is
/// refused with `401`, an unreadable body with `400`, and a body whose signature
/// under the verifier's secret is not the header's with `401`. An accepted delivery
/// gives its body and its event type (`X-Gitea-Event`, or `unknown`).
pub fn extract_and_verify_body(
    verifier: &WebhookVerifier,
    signature: SignatureHeader,
    event_header: Option<String>,
    body: Result<Vec<u8>, String>,
) -> (r: Result<(Vec<u8>, String), HttpReply>)
    ensures
        match signature {
            SignatureHeader::Missing => r matches Err(e) && refusal(e, 401, "Missing signature header"@),
            SignatureHeader::NotText => r matches Err(e) && refusal(
                e,
                401,
                "Invalid signature header encoding"@,
            ),
            SignatureHeader::Text(sig) => match body {
                Err(_) => r matches Err(e) && refusal(e, 400, "Failed to read body"@),
                Ok(b) => if normalized_signature(sig@) == signature_spec(verifier.secret@, b@) {
                    r matches Ok((rb, event)) && rb@ == b@ && event@ == match event_header {
                        Some(h) => h@,
                        None => "unknown"@,
                    }
                } else {
                    r matches Err(e) && refusal(e, 401, "Invalid signature"@)
                },
            },
        },
{
    let sig = match signature {
        SignatureHeader::Missing => {
            return Err(reply(401, "Missing signature header"));
        },
        SignatureHeader::NotText => {
            return Err(reply(401, "Invalid signature header encoding"));
        },
        SignatureHeader::Text(s) => s,
    };
    let event_type = match event_header {
        Some(h) => h,
        None => owned("unknown"),
    };
    let bytes = match body {
        Ok(b) => b,
        Err(_) => {
            return Err(reply(400, "Failed to read body"));
        },
    };
    if !verifier.verify_signature(bytes.as_slice(), sig.as_str()) {
        return Err(reply(401, "Invalid signature"));
    }
    Ok((bytes, event_type))
}

/// The answer to a payload that does not parse as its event's JSON.
pub fn invalid_json_reply(message: &str) -> (r: HttpReply)
    ensures
        refusal(r, 400, "Invalid JSON: "@ + message@),
{
    HttpReply { status: 400, body: concat2("Invalid JSON: ", message) }
}

// ---------------------------------------------------------------------------
// Event types
// ---------------------------------------------------------------------------

pub open spec fn event_name(e: GiteaEvent) -> Seq<char> {
    match e {
        GiteaEvent::Issues => "issues"@,
        GiteaEvent::IssueComment => "issue_comment"@,
        GiteaEvent::PullRequest => "pull_request"@,
        GiteaEvent::PullRequestReviewComment => "pull_request_review_comment"@,
        GiteaEvent::Other => "other"@,
    }
}

pub open spec fn parse_event_spec(s: Seq<char>) -> GiteaEvent {
    if s == "issues"@ {
        GiteaEvent::Issues
    } else if s == "issue_comment"@ {
        GiteaEvent::IssueComment
    } else if s == "pull_request"@ {
        GiteaEvent::PullRequest
    } else if s == "pull_request_review_comment"@ {
        GiteaEvent::PullRequestReviewComment
    } else {
        GiteaEvent::Other
    }
}

impl GiteaEvent {
    /// The event's name as the `X-Gitea-Event` header carries it.
    pub fn as_str(self) -> (s: &'static str)
        ensures
            s@ == event_name(self),
    {
        match self {
            GiteaEvent::Issues => "issues",
            GiteaEvent::IssueComment => "issue_comment",
            GiteaEvent::PullRequest => "pull_request",
            GiteaEvent::PullRequestReviewComment => "pull_request_review_comment",
            GiteaEvent::Other => "other",
        }
    }

    /// The event an `X-Gitea-Event` header value names; any other value is `Other`.
    pub fn from_header(value: &str) -> (e: GiteaEvent)
        ensures
            e == parse_event_spec(value@),
    {
        if str_eq(value, "issues") {
            GiteaEvent::Issues
        } else if str_eq(value, "issue_comment") {
            GiteaEvent::IssueComment
        } else if str_eq(value, "pull_request") {
            GiteaEvent::PullRequest
        } else if str_eq(value, "pull_request_review_comment") {
            GiteaEvent::PullRequestReviewComment
        } else {
            GiteaEvent::Other
        }
    }
}

// ---------------------------------------------------------------------------
// Agent branches
// ---------------------------------------------------------------------------

/// The branch an issue's worktree is created on: `agent/issue-{issue_id}`.
pub open spec fn branch_name_spec(issue_id: u64) -> Seq<char> {
    "agent/issue-"@ + decimal(issue_id as nat)
}

/// The issue ID a head branch names: after an optional repeated `refs/heads/`
/// prefix, the ASCII digits that follow the first `agent/issue-`, if they form a
/// `u64`.
pub open spec fn issue_id_from_branch_spec(branch: Seq<char>) -> Option<u64> {
    let clean = trim_start_matches_spec(branch, "refs/heads/"@);
    match find_spec(clean, "agent/issue-"@) {
        Some(idx) => match parse_unsigned_spec(
            leading_digits(clean.skip(idx + "agent/issue-"@.len())),
            u64::MAX as nat,
        ) {
            Some(v) => Some(v as u64),
            None => None,
        },
        None => None,
    }
}

/// The branch name for an issue's worktree.
pub fn branch_name_for_issue(issue_id: u64) -> (r: String)
    ensures
        r@ == branch_name_spec(issue_id),
{
    concat2("agent/issue-", crate::text::u64_to_decimal(issue_id).as_str())
}

/// Extracts the issue ID from a branch name like `agent/issue-42` or
/// `refs/heads/agent/issue-42`.
pub fn extract_issue_id_from_branch(branch: &str) -> (r: Option<u64>)
    ensures
        r == issue_id_from_branch_spec(branch@),
{
    let clean = trim_start_matches(branch, "refs/heads/");
    let prefix = "agent/issue-";
    match find(clean.as_str(), prefix) {
        Some(idx) => {
            let cv = chars_of(clean.as_str());
            let plen = prefix.unicode_len();
            proof {
                crate::text::lemma_find_from_sound(clean@, prefix@, 0);
                assert(crate::text::occurs_at(clean@, prefix@, idx as int));
                assert(plen == prefix@.len());
                assert(cv@.len() == clean@.len());
                assert(idx + prefix@.len() <= clean@.len());
                assert(idx + plen <= cv.len());
            }
            let after = slice_range(&cv, idx + plen, cv.len());
            assert(after@ =~= clean@.skip(idx + prefix@.len()));
            let digits = take_leading_digits(after.as_str());
            match parse_unsigned(digits.as_str(), u64::MAX) {
                Some(v) => Some(v),
                None => None,
            }
        },
        None => None,
    }
}

proof fn lemma_not_refs_prefix(n: u64)
    ensures
        trim_start_matches_spec(branch_name_spec(n), "refs/heads/"@) == branch_name_spec(n),
{
    reveal_strlit("refs/heads/");
    reveal_strlit("agent/issue-");
    let b = branch_name_spec(n);
    assert(b[0] == 'a');
    if starts_with_spec(b, "refs/heads/"@) {
        assert(b.subrange(0, 11)[0] == 'r');
    }
}

proof fn lemma_find_at_start(s: Seq<char>, p: Seq<char>)
    requires
        starts_with_spec(s, p),
    ensures
        find_spec(s, p) == Some(0int),
{
}

proof fn lemma_parse_decimal(n: u64)
    ensures
        parse_unsigned_spec(decimal(n as nat), u64::MAX as nat) == Some(n as nat),
        leading_digits(decimal(n as nat)) == decimal(n as nat),
{
    let d = decimal(n as nat);
    crate::text::lemma_decimal_digits(n as nat);
    crate::text::lemma_leading_digits_of_digits(d);
    assert(crate::text::is_ascii_digit(d[0]));
}

proof fn lemma_branch_parses(n: u64)
    ensures
        issue_id_from_branch_spec(branch_name_spec(n)) == Some(n),
{
    let b = branch_name_spec(n);
    let pre = "agent/issue-"@;
    let d = decimal(n as nat);
    lemma_not_refs_prefix(n);
    assert(b.subrange(0, pre.len() as int) =~= pre);
    lemma_find_at_start(b, pre);
    assert(b.skip(pre.len() as int) =~= d);
    lemma_parse_decimal(n);
}

proof fn lemma_trim_refs_once(b: Seq<char>)
    requires
        trim_start_matches_spec(b, "refs/heads/"@) == b,
    ensures
        trim_start_matches_spec("refs/heads/"@ + b, "refs/heads/"@) == b,
{
    let p = "refs/heads/"@;
    let r = p + b;
    reveal_strlit("refs/heads/");
    assert(r.subrange(0, p.len() as int) =~= p);
    assert(r.skip(p.len() as int) =~= b);
}

/// The branch created for an issue names that issue: parsing it, bare or under
/// `refs/heads/`, gives back the issue ID.
pub proof fn law_branch_name_roundtrip(issue_id: u64)
    ensures
        issue_id_from_branch_spec(branch_name_spec(issue_id)) == Some(issue_id),
        issue_id_from_branch_spec("refs/heads/"@ + branch_name_spec(issue_id)) == Some(issue_id),
{
    lemma_branch_parses(issue_id);
    lemma_not_refs_prefix(issue_id);
    lemma_trim_refs_once(branch_name_spec(issue_id));
}

} // verus!
