//! Rules that every HTTP handler applies.

use rand::Rng;
use vstd::prelude::*;

use crate::models::db_data::Account;
use crate::models::http_data::{CreateInvitationProRes, InvitationRes, SignInProRes, SignInRes};

verus! {

/// The largest request body that a handler reads into memory: 256 KiB.
pub const MAX_SIZE: usize = 262_144;

/// Why a request body was refused.
#[derive(Clone, Copy, Debug, PartialEq, Eq)]
pub enum PayloadError {
    /// The body grew past `MAX_SIZE`.
    Overflow,
}

/// Adds one received chunk to the request body, unless the body would then
/// hold more than `MAX_SIZE` bytes; a refused chunk leaves the body as it was.
pub fn append_chunk(body: &mut Vec<u8>, chunk: &[u8]) -> (r: Result<(), PayloadError>)
    ensures
        r is Ok <==> old(body)@.len() + chunk@.len() <= MAX_SIZE,
        r is Ok ==> final(body)@ == old(body)@ + chunk@,
        r is Err ==> final(body)@ == old(body)@,
{
    if body.len() > MAX_SIZE || chunk.len() > MAX_SIZE - body.len() {
        return Err(PayloadError::Overflow);
    }
    body.extend_from_slice(chunk);
    assert(body@ =~= old(body)@ + chunk@);
    Ok(())
}

/// The total number of bytes in a sequence of chunks.
pub open spec fn total_len(chunks: Seq<Seq<u8>>) -> int
    decreases chunks.len(),
{
    if chunks.len() == 0 {
        0
    } else {
        total_len(chunks.drop_last()) + chunks.last().len()
    }
}

/// The body that results from offering `chunks`, in order, to
/// `append_chunk`, starting from an empty body: `None` once a chunk is
/// refused.
pub open spec fn body_after(chunks: Seq<Seq<u8>>) -> Option<Seq<u8>>
    decreases chunks.len(),
{
    if chunks.len() == 0 {
        Some(Seq::empty())
    } else {
        match body_after(chunks.drop_last()) {
            None => None,
            Some(b) => if b.len() + chunks.last().len() <= MAX_SIZE {
                Some(b + chunks.last())
            } else {
                None
            },
        }
    }
}

/// A request body is read whole exactly when all its chunks together hold at
/// most `MAX_SIZE` bytes, and what is read is then the chunks joined in
/// order: checking each chunk as it arrives refuses the same bodies as
/// checking the total.
pub proof fn law_body_limit(chunks: Seq<Seq<u8>>)
    ensures
        body_after(chunks) is Some <==> total_len(chunks) <= MAX_SIZE,
        body_after(chunks) is Some ==> body_after(chunks)->0 == chunks.flatten_alt(),
        body_after(chunks) is Some ==> body_after(chunks)->0.len() == total_len(chunks),
    decreases chunks.len(),
{
    if chunks.len() > 0 {
        let init = chunks.drop_last();
        law_body_limit(init);
        lemma_total_len_nonneg(init);
        assert(chunks.flatten_alt() == init.flatten_alt() + chunks.last());
    }
}

proof fn lemma_total_len_nonneg(chunks: Seq<Seq<u8>>)
    ensures
        total_len(chunks) >= 0,
    decreases chunks.len(),
{
    if chunks.len() > 0 {
        lemma_total_len_nonneg(chunks.drop_last());
    }
}


// ------------------------------------------------------------------------
// Refusals and reply status
// ------------------------------------------------------------------------

/// Why a handler refuses a request.
#[derive(Clone, Copy, Debug, PartialEq, Eq)]
pub enum Refusal {
    /// The request body is larger than `MAX_SIZE`.
    BodyTooLarge,
    /// The session token is not active.
    NotActive,
    /// No operator matches the credentials or the name.
    AccountMissing,
}

/// The HTTP status of a refusal.
pub fn refusal_status(r: Refusal) -> (s: u16)
    ensures
        s == match r {
            Refusal::BodyTooLarge => 400u16,
            Refusal::NotActive => 404u16,
            Refusal::AccountMissing => 404u16,
        },
{
    match r {
        Refusal::BodyTooLarge => 400,
        Refusal::NotActive => 404,
        Refusal::AccountMissing => 404,
    }
}

/// The message of a refusal.
pub fn refusal_message(r: Refusal) -> (m: &'static str)
    ensures
        m@ == match r {
            Refusal::BodyTooLarge => "overflow"@,
            Refusal::NotActive => "account not active"@,
            Refusal::AccountMissing => "account not exist"@,
        },
{
    match r {
        Refusal::BodyTooLarge => "overflow",
        Refusal::NotActive => "account not active",
        Refusal::AccountMissing => "account not exist",
    }
}

/// Lets a request through only when its session token is active.
pub fn require_active(active: bool) -> (r: Result<(), Refusal>)
    ensures
        r is Ok <==> active,
        r is Err ==> r == Err::<(), Refusal>(Refusal::NotActive),
{
    if active {
        Ok(())
    } else {
        Err(Refusal::NotActive)
    }
}

/// The status written into the reply of a request whose work succeeded or
/// failed: 200 or 404.
pub fn outcome_status(succeeded: bool) -> (s: u32)
    ensures
        s == if succeeded { 200u32 } else { 404u32 },
{
    if succeeded {
        200
    } else {
        404
    }
}

// ------------------------------------------------------------------------
// Sessions and invitations
// ------------------------------------------------------------------------

/// The length of a session token.
pub const SESSION_TOKEN_LEN: usize = 15;

/// The length of an invitation code.
pub const INVITATION_CODE_LEN: usize = 5;

/// Whether `c` is an ASCII letter or digit.
pub open spec fn is_alphanumeric(c: char) -> bool {
    ('A' <= c && c <= 'Z') || ('a' <= c && c <= 'z') || ('0' <= c && c <= '9')
}

/// Whether a text is `len` ASCII letters and digits.
pub open spec fn is_alphanumeric_text(s: Seq<char>, len: nat) -> bool {
    s.len() == len && forall|i: int| 0 <= i < s.len() ==> is_alphanumeric(#[trigger] s[i])
}

/// Draws `len` characters from the thread-local generator of `rand`.
///
/// Calls `rand::thread_rng().sample_iter(rand::distributions::Alphanumeric)`
/// and takes `len` of the drawn bytes as characters. Trusted: the text has
/// `len` characters, each an ASCII letter or digit, as `Alphanumeric` draws
/// from `A-Z`, `a-z` and `0-9`. Which characters are drawn is chance and is
/// not stated.
#[verifier::external_body]
fn random_alphanumeric(len: usize) -> (r: String)
    ensures
        is_alphanumeric_text(r@, len as nat),
{
    rand::thread_rng().sample_iter(rand::distributions::Alphanumeric).take(len).map(char::from).collect()
}

/// A fresh session token: fifteen random ASCII letters and digits.
pub fn new_session_token() -> (r: String)
    ensures
        is_alphanumeric_text(r@, SESSION_TOKEN_LEN as nat),
{
    random_alphanumeric(SESSION_TOKEN_LEN)
}

/// A fresh invitation code: five random ASCII letters and digits.
pub fn new_invitation_code() -> (r: String)
    ensures
        is_alphanumeric_text(r@, INVITATION_CODE_LEN as nat),
{
    random_alphanumeric(INVITATION_CODE_LEN)
}

/// The reply to a sign-in: the operator's name, number and admin flag, the
/// products the operator sees and the new session token.
pub fn sign_in_reply(account: &Account, products: Vec<SignInProRes>, token: String) -> (r: SignInRes)
    ensures
        r.name == account.acc_name,
        r.account == account.acc_id,
        r.admin == account.admin,
        r.products == products,
        r.token == token,
{
    SignInRes {
        name: account.acc_name.clone(),
        account: account.acc_id,
        admin: account.admin.clone(),
        products,
        token,
    }
}

/// The reply to the creation of an invitation code: the admin's name and the
/// admin's codes.
pub fn invitation_reply(admin_name: String, codes: Vec<CreateInvitationProRes>) -> (r: InvitationRes)
    ensures
        r.name == admin_name,
        r.invitation == codes,
{
    InvitationRes { name: admin_name, invitation: codes }
}

} // verus!
