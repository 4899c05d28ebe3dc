//! The client of the Chiffreur, whose password policy and encryption service
//! phase 3 tests, and the reading of its answers.

use crate::comms::http::{HttpOutcome, endpoint, is_client_error, is_success, spec_succeeded};
use crate::control::state::{copy_opt, opt_seq};
use vstd::prelude::*;
use vstd::string::*;

verus! {

/// Where and how the Chiffreur is reached.
#[derive(Debug)]
pub struct ChiffreurClient {
    pub url: String,
    pub token: String,
    pub dry_run: bool,
}

/// The verdict of one cryptographic test.
#[derive(Debug)]
pub enum CryptoTestResult {
    /// The service behaved as required.
    Success,
    /// A weak password was refused, as required.
    RejectedAsExpected,
    /// The test failed; the text says how.
    Failed(String),
}

/// What `<str as Debug>::fmt` writes for a string with the characters `s`:
/// the text between double quotes, each character escaped as
/// `char::escape_debug` escapes it.
pub uninterp spec fn str_debug(s: Seq<char>) -> Seq<char>;

/// `format!("{:?}", s)`, std's `Debug` notation of a string. The result is a
/// function of `s` alone; the contract names it and claims no more.
#[verifier::external_body]
fn debug_quoted(s: &str) -> (r: String)
    ensures
        r@ == str_debug(s@),
{
    format!("{:?}", s)
}

/// The debug text of a test verdict (the first variant is spelt `Ok`).
pub open spec fn crypto_debug_text(r: CryptoTestResult) -> Seq<char> {
    match r {
        CryptoTestResult::Success => "Ok"@,
        CryptoTestResult::RejectedAsExpected => "RejectedAsExpected"@,
        CryptoTestResult::Failed(m) => "Failed("@ + str_debug(m@) + ")"@,
    }
}

impl CryptoTestResult {
    /// The debug text of the verdict.
    pub fn debug_text(&self) -> (r: String)
        ensures
            r@ == crypto_debug_text(*self),
    {
        match self {
            CryptoTestResult::Success => String::from_str("Ok"),
            CryptoTestResult::RejectedAsExpected => String::from_str("RejectedAsExpected"),
            CryptoTestResult::Failed(m) => {
                let mut r = String::from_str("Failed(");
                let q = debug_quoted(m.as_str());
                r.append(q.as_str());
                r.append(")");
                r
            },
        }
    }

    /// A copy of the verdict.
    pub fn duplicate(&self) -> (r: Self)
        ensures
            r == *self,
    {
        match self {
            CryptoTestResult::Success => CryptoTestResult::Success,
            CryptoTestResult::RejectedAsExpected => CryptoTestResult::RejectedAsExpected,
            CryptoTestResult::Failed(m) => CryptoTestResult::Failed(m.clone()),
        }
    }
}

/// The failure `prefix` followed by `detail`.
fn failed_with(prefix: &str, detail: &str) -> (r: CryptoTestResult)
    ensures
        r matches CryptoTestResult::Failed(m) && m@ == prefix@ + detail@,
{
    let mut m = String::from_str(prefix);
    m.append(detail);
    CryptoTestResult::Failed(m)
}

impl ChiffreurClient {
    pub fn new(url: String, token: String, dry_run: bool) -> (r: Self)
        ensures
            r.url@ == url@,
            r.token@ == token@,
            r.dry_run == dry_run,
    {
        ChiffreurClient { url, token, dry_run }
    }

    pub fn encrypt_endpoint(&self) -> (r: String)
        ensures
            r@ == self.url@ + "/encrypt"@,
    {
        endpoint(self.url.as_str(), "/encrypt")
    }

    pub fn decrypt_endpoint(&self) -> (r: String)
        ensures
            r@ == self.url@ + "/decrypt"@,
    {
        endpoint(self.url.as_str(), "/decrypt")
    }

    pub fn rotate_endpoint(&self) -> (r: String)
        ensures
            r@ == self.url@ + "/credential/rotate"@,
    {
        endpoint(self.url.as_str(), "/credential/rotate")
    }

    /// The weak-password test of a dry run: a password shorter than 8 bytes
    /// counts as refused.
    pub fn dry_run_weak_password(password: &str) -> (r: CryptoTestResult)
        ensures
            password.len() < 8 ==> r is RejectedAsExpected,
            password.len() >= 8 ==> (r matches CryptoTestResult::Failed(m) && m@
                == "dry_run: mot de passe trop fort pour le test"@),
    {
        if password.len() < 8 {
            CryptoTestResult::RejectedAsExpected
        } else {
            CryptoTestResult::Failed(String::from_str("dry_run: mot de passe trop fort pour le test"))
        }
    }

    /// The reading of the answer to a weak password: a 4xx refusal is what
    /// the test wants, a 2xx acceptance fails it, as does anything else.
    pub fn weak_password_verdict(outcome: &HttpOutcome) -> (r: CryptoTestResult)
        ensures
            match *outcome {
                HttpOutcome::Failed(e) => r matches CryptoTestResult::Failed(m) && m@
                    == "weak password test: "@ + e@,
                HttpOutcome::Status { code, text } => if is_client_error(code) {
                    r is RejectedAsExpected
                } else if is_success(code) {
                    r matches CryptoTestResult::Failed(m) && m@ == "mot de passe faible accepté"@
                } else {
                    r matches CryptoTestResult::Failed(m) && m@ == "HTTP "@ + text@
                },
            },
    {
        match outcome {
            HttpOutcome::Failed(e) => failed_with("weak password test: ", e.as_str()),
            HttpOutcome::Status { code, text } => {
                if 400 <= *code && *code <= 499 {
                    CryptoTestResult::RejectedAsExpected
                } else if 200 <= *code && *code <= 299 {
                    CryptoTestResult::Failed(String::from_str("mot de passe faible accepté"))
                } else {
                    failed_with("HTTP ", text.as_str())
                }
            },
        }
    }

    /// The reading of the answer to the encryption request: a failure ends
    /// the round trip, a 2xx answer lets it go on (`None`).
    pub fn encrypt_verdict(outcome: &HttpOutcome) -> (r: Option<CryptoTestResult>)
        ensures
            match *outcome {
                HttpOutcome::Failed(e) => r matches Some(CryptoTestResult::Failed(m)) && m@
                    == "encrypt: "@ + e@,
                HttpOutcome::Status { code, text } => if is_success(code) {
                    r is None
                } else {
                    r matches Some(CryptoTestResult::Failed(m)) && m@ == "encrypt HTTP "@ + text@
                },
            },
    {
        match outcome {
            HttpOutcome::Failed(e) => Some(failed_with("encrypt: ", e.as_str())),
            HttpOutcome::Status { code, text } => {
                if 200 <= *code && *code <= 299 {
                    None
                } else {
                    Some(failed_with("encrypt HTTP ", text.as_str()))
                }
            },
        }
    }

    /// The verdict when the encryption answer is not readable JSON.
    pub fn encrypt_json_verdict(error: &str) -> (r: CryptoTestResult)
        ensures
            r matches CryptoTestResult::Failed(m) && m@ == "encrypt JSON: "@ + error@,
    {
        failed_with("encrypt JSON: ", error)
    }

    /// The reading of the answer to the decryption request, which ends the
    /// round trip.
    pub fn decrypt_verdict(outcome: &HttpOutcome) -> (r: CryptoTestResult)
        ensures
            match *outcome {
                HttpOutcome::Failed(e) => r matches CryptoTestResult::Failed(m) && m@
                    == "decrypt: "@ + e@,
                HttpOutcome::Status { code, text } => if is_success(code) {
                    r is Success
                } else {
                    r matches CryptoTestResult::Failed(m) && m@ == "decrypt HTTP "@ + text@
                },
            },
    {
        match outcome {
            HttpOutcome::Failed(e) => failed_with("decrypt: ", e.as_str()),
            HttpOutcome::Status { code, text } => {
                if 200 <= *code && *code <= 299 {
                    CryptoTestResult::Success
                } else {
                    failed_with("decrypt HTTP ", text.as_str())
                }
            },
        }
    }
}

/// The fields of the Chiffreur's encryption answer that the decryption
/// request carries on: the JSON text of each, where the answer has it.
#[derive(Debug)]
pub struct EncryptAnswer {
    pub ciphertext: Option<String>,
    pub iv: Option<String>,
    pub auth_tag: Option<String>,
}

/// Where an encryption round trip stands: the request whose answer it awaits.
#[derive(Debug, Clone, Copy, PartialEq, Eq, Structural)]
pub enum RoundtripStage {
    /// Not begun.
    Start,
    /// The encryption request is under way.
    Encrypting,
    /// The body of the encryption answer is being read.
    Reading,
    /// The decryption request is under way.
    Decrypting,
    /// The round trip is over.
    Done,
}

/// What the last request of a round trip came to.
#[derive(Debug)]
pub enum RoundtripEvent {
    /// The round trip begins.
    Start,
    /// The answer (or failure) of the request under way.
    Answered(HttpOutcome),
    /// The body of the encryption answer, or why it is not readable JSON.
    Read(Result<EncryptAnswer, String>),
}

/// What the caller is to do next in a round trip.
#[derive(Debug)]
pub enum RoundtripAction {
    /// POST an `encryption_request` of `plaintext` under `key_id` to `/encrypt`.
    Encrypt { plaintext: String, key_id: String },
    /// Read the body of the encryption answer.
    ReadAnswer,
    /// POST a `decryption_request` with these fields to `/decrypt`.
    Decrypt {
        ciphertext: Option<String>,
        iv: Option<String>,
        auth_tag: Option<String>,
        key_id: String,
    },
    /// The round trip is over, with this verdict.
    Finish(CryptoTestResult),
}

/// An encryption round trip with the Chiffreur: encrypt a text, then decrypt
/// what came back.
#[derive(Debug)]
pub struct Roundtrip {
    pub stage: RoundtripStage,
    pub dry_run: bool,
    pub plaintext: String,
}

/// The key under which the round trip encrypts.
pub open spec fn roundtrip_key_id() -> Seq<char> {
    "simulateur_communication_key"@
}

/// `a` ends the round trip with a failure whose text is `m`.
pub open spec fn finishes_failed(a: RoundtripAction, m: Seq<char>) -> bool {
    a matches RoundtripAction::Finish(CryptoTestResult::Failed(t)) && t@ == m
}

/// Which events a stage awaits.
pub open spec fn roundtrip_expects(stage: RoundtripStage, ev: RoundtripEvent) -> bool {
    match stage {
        RoundtripStage::Start => ev is Start,
        RoundtripStage::Encrypting | RoundtripStage::Decrypting => ev is Answered,
        RoundtripStage::Reading => ev is Read,
        RoundtripStage::Done => false,
    }
}

/// One step of a round trip from `pre` on `ev`: the round trip `post` and the
/// next action `a`. A dry run succeeds at once, without a request; otherwise
/// the answer to `/encrypt` must be a 2xx with a readable body before
/// `/decrypt` is asked, with that body's `ciphertext`, `iv` and `auth_tag`.
pub open spec fn roundtrip_step(
    pre: Roundtrip,
    ev: RoundtripEvent,
    post: Roundtrip,
    a: RoundtripAction,
) -> bool {
    &&& post.dry_run == pre.dry_run
    &&& post.plaintext == pre.plaintext
    &&& match pre.stage {
        RoundtripStage::Start => if pre.dry_run {
            post.stage == RoundtripStage::Done && (a matches RoundtripAction::Finish(r)
                && r is Success)
        } else {
            post.stage == RoundtripStage::Encrypting && (a matches RoundtripAction::Encrypt {
                plaintext,
                key_id,
            } && plaintext@ == pre.plaintext@ && key_id@ == roundtrip_key_id())
        },
        RoundtripStage::Encrypting => match ev {
            RoundtripEvent::Answered(HttpOutcome::Failed(e)) => post.stage == RoundtripStage::Done
                && finishes_failed(a, "encrypt: "@ + e@),
            RoundtripEvent::Answered(HttpOutcome::Status { code, text }) => if is_success(code) {
                post.stage == RoundtripStage::Reading && a is ReadAnswer
            } else {
                post.stage == RoundtripStage::Done && finishes_failed(a, "encrypt HTTP "@ + text@)
            },
            _ => false,
        },
        RoundtripStage::Reading => match ev {
            RoundtripEvent::Read(Err(e)) => post.stage == RoundtripStage::Done && finishes_failed(
                a,
                "encrypt JSON: "@ + e@,
            ),
            RoundtripEvent::Read(Ok(ans)) => post.stage == RoundtripStage::Decrypting
                && (a matches RoundtripAction::Decrypt { ciphertext, iv, auth_tag, key_id }
                && opt_seq(ciphertext) == opt_seq(ans.ciphertext) && opt_seq(iv) == opt_seq(ans.iv)
                && opt_seq(auth_tag) == opt_seq(ans.auth_tag) && key_id@ == roundtrip_key_id()),
            _ => false,
        },
        RoundtripStage::Decrypting => match ev {
            RoundtripEvent::Answered(HttpOutcome::Failed(e)) => post.stage == RoundtripStage::Done
                && finishes_failed(a, "decrypt: "@ + e@),
            RoundtripEvent::Answered(HttpOutcome::Status { code, text }) => post.stage
                == RoundtripStage::Done && if is_success(code) {
                (a matches RoundtripAction::Finish(r) && r is Success)
            } else {
                finishes_failed(a, "decrypt HTTP "@ + text@)
            },
            _ => false,
        },
        RoundtripStage::Done => false,
    }
}

impl Roundtrip {
    /// A round trip of `plaintext`, not begun.
    pub fn new(dry_run: bool, plaintext: String) -> (r: Self)
        ensures
            r.stage == RoundtripStage::Start,
            r.dry_run == dry_run,
            r.plaintext == plaintext,
    {
        Roundtrip { stage: RoundtripStage::Start, dry_run, plaintext }
    }

    /// Takes the round trip one step forward (see `roundtrip_step`).
    pub fn step(&mut self, ev: RoundtripEvent) -> (a: RoundtripAction)
        requires
            roundtrip_expects(old(self).stage, ev),
        ensures
            roundtrip_step(*old(self), ev, *final(self), a),
    {
        match self.stage {
            RoundtripStage::Start => {
                if self.dry_run {
                    self.stage = RoundtripStage::Done;
                    RoundtripAction::Finish(CryptoTestResult::Success)
                } else {
                    self.stage = RoundtripStage::Encrypting;
                    RoundtripAction::Encrypt {
                        plaintext: self.plaintext.clone(),
                        key_id: String::from_str("simulateur_communication_key"),
                    }
                }
            },
            RoundtripStage::Encrypting => {
                match ev {
                    RoundtripEvent::Answered(o) => {
                        match ChiffreurClient::encrypt_verdict(&o) {
                            Some(v) => {
                                self.stage = RoundtripStage::Done;
                                RoundtripAction::Finish(v)
                            },
                            None => {
                                self.stage = RoundtripStage::Reading;
                                RoundtripAction::ReadAnswer
                            },
                        }
                    },
                    _ => RoundtripAction::ReadAnswer,
                }
            },
            RoundtripStage::Reading => {
                match ev {
                    RoundtripEvent::Read(Err(e)) => {
                        self.stage = RoundtripStage::Done;
                        RoundtripAction::Finish(ChiffreurClient::encrypt_json_verdict(e.as_str()))
                    },
                    RoundtripEvent::Read(Ok(ans)) => {
                        self.stage = RoundtripStage::Decrypting;
                        RoundtripAction::Decrypt {
                            ciphertext: copy_opt(&ans.ciphertext),
                            iv: copy_opt(&ans.iv),
                            auth_tag: copy_opt(&ans.auth_tag),
                            key_id: String::from_str("simulateur_communication_key"),
                        }
                    },
                    _ => RoundtripAction::ReadAnswer,
                }
            },
            RoundtripStage::Decrypting => {
                match ev {
                    RoundtripEvent::Answered(o) => {
                        self.stage = RoundtripStage::Done;
                        RoundtripAction::Finish(ChiffreurClient::decrypt_verdict(&o))
                    },
                    _ => RoundtripAction::ReadAnswer,
                }
            },
            RoundtripStage::Done => RoundtripAction::ReadAnswer,
        }
    }
}

/// The order of a round trip: a dry run ends at its first step with success
/// and asks nothing; `/decrypt` is asked only with the fields of a readable
/// encryption answer, and that answer is read only after a 2xx from
/// `/encrypt`.
pub proof fn law_roundtrip_order(pre: Roundtrip, ev: RoundtripEvent, post: Roundtrip, a: RoundtripAction)
    requires
        roundtrip_step(pre, ev, post, a),
    ensures
        pre.dry_run && pre.stage == RoundtripStage::Start ==> (a matches RoundtripAction::Finish(r)
            && r is Success),
        a is Decrypt ==> pre.stage == RoundtripStage::Reading && (ev matches RoundtripEvent::Read(
            Ok(ans),
        ) && (a matches RoundtripAction::Decrypt { ciphertext, iv, auth_tag, .. } && opt_seq(
            ciphertext,
        ) == opt_seq(ans.ciphertext) && opt_seq(iv) == opt_seq(ans.iv) && opt_seq(auth_tag)
            == opt_seq(ans.auth_tag))),
        post.stage == RoundtripStage::Reading ==> pre.stage == RoundtripStage::Encrypting && (
        ev matches RoundtripEvent::Answered(o) && spec_succeeded(o)),
        a is Encrypt ==> !pre.dry_run,
{
}

/// A round trip succeeds only in two ways: a dry run at its first step, or a
/// decryption request answered with a status from 200 to 299. Any other
/// answer to the decryption request fails the round trip, with the status as
/// displayed.
pub proof fn law_roundtrip_success_needs_2xx(
    pre: Roundtrip,
    ev: RoundtripEvent,
    post: Roundtrip,
    a: RoundtripAction,
)
    requires
        roundtrip_step(pre, ev, post, a),
    ensures
        (a matches RoundtripAction::Finish(r) && r is Success) ==> (pre.dry_run && pre.stage
            == RoundtripStage::Start) || (pre.stage == RoundtripStage::Decrypting && (
        ev matches RoundtripEvent::Answered(HttpOutcome::Status { code, .. }) && 200 <= code
            && code <= 299)),
        pre.stage == RoundtripStage::Decrypting ==> match ev {
            RoundtripEvent::Answered(HttpOutcome::Status { code, text }) => !(200 <= code && code
                <= 299) ==> (a matches RoundtripAction::Finish(CryptoTestResult::Failed(m)) && m@
                == "decrypt HTTP "@ + text@),
            _ => true,
        },
{
}

} // verus!
