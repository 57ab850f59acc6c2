//! The dispatcher: decode the request, decode its two sub-objects, ask the
//! verifier, and report one of three outcomes.
//!
//! The group-signature scheme itself is not part of this library. Whoever
//! calls `verify` hands in the scheme as three capabilities: how a signature
//! text decodes, how a key text decodes, and whether the verifier accepts.

use vstd::prelude::*;

use crate::codec::{decode, well_framed};
use crate::outcome::{DecodeError, Field, VerifyOutcome};
use crate::request::{RequestView, VerifyParams};

verus! {

/// What the scheme answered during one dispatch: the decoded signature, the
/// decoded key, and the verifier's verdict. A later answer means nothing where
/// an earlier one is `None`, since then it was never asked for.
pub struct Answers<S, G> {
    pub signature: Option<S>,
    pub gpk: Option<G>,
    pub accepted: bool,
}

impl<S, G> Answers<S, G> {
    /// The outcome that these answers lead to for a well-framed request. A
    /// sub-object that does not decode makes the request malformed, the
    /// signature first; the verdict counts only when both decode, and then the
    /// request is never malformed.
    pub open spec fn outcome(self) -> VerifyOutcome {
        match (self.signature, self.gpk) {
            (None, _) => VerifyOutcome::Malformed(DecodeError::SubObject { which: Field::Signature }),
            (Some(_), None) => VerifyOutcome::Malformed(
                DecodeError::SubObject { which: Field::Gpk },
            ),
            (Some(_), Some(_)) => if self.accepted {
                VerifyOutcome::Verified
            } else {
                VerifyOutcome::Rejected
            },
        }
    }
}

/// Whether `answer` is something that `decoder` may return for `text`.
pub open spec fn decodes<T, D: Fn(&str) -> Option<T>>(
    decoder: D,
    text: Seq<char>,
    answer: Option<T>,
) -> bool {
    exists|input: &str| input@ == text && #[trigger] call_ensures(decoder, (input,), answer)
}

/// Whether `verdict` is something that `accepts` may return for this message,
/// signature and key.
pub open spec fn judges<S, G, A: Fn(&[u8], &S, &G) -> bool>(
    accepts: A,
    message: Seq<u8>,
    signature: S,
    gpk: G,
    verdict: bool,
) -> bool {
    exists|input: &[u8]|
        input@ == message && #[trigger] call_ensures(accepts, (input, &signature, &gpk), verdict)
}

/// Whether `answers` is what the three capabilities may have answered for
/// `request`: the signature text was decoded; if that gave a signature, the
/// key text was decoded; and if that gave a key, the verifier was asked about
/// the message as it stands in the request.
pub open spec fn consulted<S, G, DS, DG, A>(
    request: RequestView,
    decode_signature: DS,
    decode_gpk: DG,
    accepts: A,
    answers: Answers<S, G>,
) -> bool where DS: Fn(&str) -> Option<S>, DG: Fn(&str) -> Option<G>, A: Fn(&[u8], &S, &G) -> bool {
    &&& decodes(decode_signature, request.signature, answers.signature)
    &&& answers.signature is Some ==> decodes(decode_gpk, request.gpk, answers.gpk)
    &&& answers.signature is Some && answers.gpk is Some ==> judges(
        accepts,
        request.message,
        answers.signature->0,
        answers.gpk->0,
        answers.accepted,
    )
}

/// Whether `outcome` is a result of dispatching `bytes` with the three
/// capabilities: `TooFewFields` where the framing is broken, and otherwise the
/// outcome of what the capabilities answered for the decoded request.
pub open spec fn dispatched<S, G, DS, DG, A>(
    bytes: Seq<u8>,
    decode_signature: DS,
    decode_gpk: DG,
    accepts: A,
    outcome: VerifyOutcome,
) -> bool where DS: Fn(&str) -> Option<S>, DG: Fn(&str) -> Option<G>, A: Fn(&[u8], &S, &G) -> bool {
    match decode(bytes) {
        None => outcome == VerifyOutcome::Malformed(DecodeError::TooFewFields),
        Some(request) => exists|answers: Answers<S, G>|
            #[trigger] consulted(request, decode_signature, decode_gpk, accepts, answers)
                && outcome == answers.outcome(),
    }
}

/// Whether a decoding capability gives one answer for one text.
pub open spec fn decoder_is_function<T, D: Fn(&str) -> Option<T>>(decoder: D) -> bool {
    forall|text: Seq<char>, a: Option<T>, b: Option<T>|
        #![trigger decodes(decoder, text, a), decodes(decoder, text, b)]
        decodes(decoder, text, a) && decodes(decoder, text, b) ==> a == b
}

/// Whether the verifier gives one verdict for one message, signature and key.
pub open spec fn verifier_is_function<S, G, A: Fn(&[u8], &S, &G) -> bool>(accepts: A) -> bool {
    forall|message: Seq<u8>, signature: S, gpk: G, a: bool, b: bool|
        #![trigger judges(accepts, message, signature, gpk, a), judges(accepts, message, signature, gpk, b)]
        judges(accepts, message, signature, gpk, a) && judges(accepts, message, signature, gpk, b)
            ==> a == b
}

/// Answers that the capabilities may have given for the request that `bytes`
/// carry lead to a dispatch of `bytes` with the outcome of these answers.
pub proof fn lemma_dispatched_with<S, G, DS, DG, A>(
    bytes: Seq<u8>,
    decode_signature: DS,
    decode_gpk: DG,
    accepts: A,
    answers: Answers<S, G>,
) where DS: Fn(&str) -> Option<S>, DG: Fn(&str) -> Option<G>, A: Fn(&[u8], &S, &G) -> bool
    requires
        decode(bytes) is Some,
        consulted(decode(bytes)->0, decode_signature, decode_gpk, accepts, answers),
    ensures
        dispatched(bytes, decode_signature, decode_gpk, accepts, answers.outcome()),
{
    let request = decode(bytes)->0;
    assert(exists|given: Answers<S, G>|
        #[trigger] consulted(request, decode_signature, decode_gpk, accepts, given)
            && answers.outcome() == given.outcome());
}

/// Verifies one request.
///
/// The bytes are decoded as a framed request. Its signature text and then its
/// key text are handed to `decode_signature` and `decode_gpk`; `None` from
/// either makes the request malformed. Only where both decode is `accepts`
/// asked, with the message bytes untouched, and its verdict alone tells
/// `Verified` from `Rejected`.
///
/// Each capability must be callable on every input.
pub fn verify<S, G, DS, DG, A>(
    params_bytes: &[u8],
    decode_signature: DS,
    decode_gpk: DG,
    accepts: A,
) -> (outcome: VerifyOutcome) where
    DS: Fn(&str) -> Option<S>,
    DG: Fn(&str) -> Option<G>,
    A: Fn(&[u8], &S, &G) -> bool,

    requires
        forall|text: &str| call_requires(decode_signature, (text,)),
        forall|text: &str| call_requires(decode_gpk, (text,)),
        forall|message: &[u8], signature: &S, gpk: &G|
            call_requires(accepts, (message, signature, gpk)),
    ensures
        dispatched(params_bytes@, decode_signature, decode_gpk, accepts, outcome),
        outcome == VerifyOutcome::Malformed(DecodeError::TooFewFields) <==> !well_framed(
            params_bytes@,
        ),
{
    let params = match VerifyParams::try_from(params_bytes) {
        Ok(params) => params,
        Err(error) => {
            return VerifyOutcome::Malformed(error);
        },
    };
    let signature_text = params.signature.as_str();
    let decoded_signature = decode_signature(signature_text);
    let ghost mut answers = Answers::<S, G> {
        signature: decoded_signature,
        gpk: None,
        accepted: false,
    };
    assert(decodes(decode_signature, params@.signature, answers.signature)) by {
        assert(call_ensures(decode_signature, (signature_text,), answers.signature));
    }
    let signature = match decoded_signature {
        Some(signature) => signature,
        None => {
            proof {
                lemma_dispatched_with(params_bytes@, decode_signature, decode_gpk, accepts, answers);
            }
            return VerifyOutcome::Malformed(DecodeError::SubObject { which: Field::Signature });
        },
    };
    let gpk_text = params.gpk.as_str();
    let decoded_gpk = decode_gpk(gpk_text);
    proof {
        answers.gpk = decoded_gpk;
        assert(decodes(decode_gpk, params@.gpk, answers.gpk)) by {
            assert(call_ensures(decode_gpk, (gpk_text,), answers.gpk));
        }
    }
    let gpk = match decoded_gpk {
        Some(gpk) => gpk,
        None => {
            proof {
                lemma_dispatched_with(params_bytes@, decode_signature, decode_gpk, accepts, answers);
            }
            return VerifyOutcome::Malformed(DecodeError::SubObject { which: Field::Gpk });
        },
    };
    let message = params.message.as_slice();
    let accepted = accepts(message, &signature, &gpk);
    proof {
        answers.accepted = accepted;
        assert(judges(accepts, params@.message, signature, gpk, accepted)) by {
            assert(call_ensures(accepts, (message, &signature, &gpk), accepted));
        }
        lemma_dispatched_with(params_bytes@, decode_signature, decode_gpk, accepts, answers);
    }
    if accepted {
        VerifyOutcome::Verified
    } else {
        VerifyOutcome::Rejected
    }
}

/// Where each capability gives one answer for one input, the outcome of a
/// well-framed request is the outcome of those answers. So a request whose
/// signature and key decode and which the verifier accepts is `Verified`; the
/// same signature and key with a message that the verifier does not accept is
/// `Rejected`, not `Malformed`; and a sub-object that does not decode makes
/// the request `Malformed`, not `Rejected`.
pub proof fn lemma_outcome_follows_answers<S, G, DS, DG, A>(
    bytes: Seq<u8>,
    decode_signature: DS,
    decode_gpk: DG,
    accepts: A,
    answers: Answers<S, G>,
    outcome: VerifyOutcome,
) where DS: Fn(&str) -> Option<S>, DG: Fn(&str) -> Option<G>, A: Fn(&[u8], &S, &G) -> bool
    requires
        decoder_is_function(decode_signature),
        decoder_is_function(decode_gpk),
        verifier_is_function(accepts),
        decode(bytes) is Some,
        consulted(decode(bytes)->0, decode_signature, decode_gpk, accepts, answers),
        dispatched(bytes, decode_signature, decode_gpk, accepts, outcome),
    ensures
        outcome == answers.outcome(),
{
    let request = decode(bytes)->0;
    let given = choose|given: Answers<S, G>|
        #[trigger] consulted(request, decode_signature, decode_gpk, accepts, given) && outcome
            == given.outcome();
    assert(given.signature == answers.signature);
    if given.signature is Some {
        assert(given.gpk == answers.gpk);
        if given.gpk is Some {
            assert(given.accepted == answers.accepted);
        }
    }
}

/// Verification is deterministic: where each capability gives one answer for
/// one input, the bytes of a request determine its outcome.
pub proof fn lemma_verify_deterministic<S, G, DS, DG, A>(
    bytes: Seq<u8>,
    decode_signature: DS,
    decode_gpk: DG,
    accepts: A,
    first: VerifyOutcome,
    second: VerifyOutcome,
) where DS: Fn(&str) -> Option<S>, DG: Fn(&str) -> Option<G>, A: Fn(&[u8], &S, &G) -> bool
    requires
        decoder_is_function(decode_signature),
        decoder_is_function(decode_gpk),
        verifier_is_function(accepts),
        dispatched(bytes, decode_signature, decode_gpk, accepts, first),
        dispatched(bytes, decode_signature, decode_gpk, accepts, second),
    ensures
        first == second,
{
    if let Some(request) = decode(bytes) {
        let answers = choose|answers: Answers<S, G>|
            #[trigger] consulted(request, decode_signature, decode_gpk, accepts, answers) && first
                == answers.outcome();
        lemma_outcome_follows_answers(
            bytes,
            decode_signature,
            decode_gpk,
            accepts,
            answers,
            second,
        );
    }
}

} // verus!
