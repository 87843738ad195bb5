//! Certificate Transparency: Signed Certificate Timestamps (SCTs) checked
//! against the logs that the verifier trusts.
//!
//! Evidence is opportunistic. A peer that presents none is accepted; a peer
//! that presents some must convince with one of them.

use crate::error::Failure;
use crate::error::TlsError;
use crate::key::Certificate;
use crate::time::millis_in_range;
use crate::time::unix_millis;
use crate::time::unix_time_millis;
use std::time::SystemTime;
use vstd::prelude::*;

verus! {

/// `sct::Log`: a log's description, with its public fields open to the
/// verifier.
#[verifier::external_type_specification]
pub struct ExLog<'a>(sct::Log<'a>);

/// What of a log takes part in checking an SCT: its public key and the
/// identifier that SCTs name it by.
pub struct LogView {
    pub key: Seq<u8>,
    pub id: Seq<u8>,
}

/// The key and identifier of each log of a list, in the list's order.
pub open spec fn logs_view(logs: Seq<&sct::Log>) -> Seq<LogView> {
    logs.map_values(|log: &sct::Log| LogView { key: log.key@, id: log.id@ })
}

/// The bytes of each blob of a list, in the list's order.
pub open spec fn blobs_view(blobs: Seq<&[u8]>) -> Seq<Seq<u8>> {
    blobs.map_values(|blob: &[u8]| blob@)
}

/// What `sct::verify_sct` returns for a certificate, one SCT, a time in
/// milliseconds since the epoch and the trusted logs: the index of the log
/// that signed the SCT, or why the SCT is refused.
pub uninterp spec fn sct_verdict(
    cert: Seq<u8>,
    sct: Seq<u8>,
    at_time: u64,
    logs: Seq<LogView>,
) -> Result<usize, sct::Error>;

/// `sct::verify_sct` parses the SCT, looks its log up by identifier, checks
/// the log's signature over the timestamp and the certificate, and compares
/// the timestamp with `at_time`. Of a log it reads `key` and `id` only. Its
/// result is named, not spelled out.
pub assume_specification[ sct::verify_sct ](
    cert: &[u8],
    sct: &[u8],
    at_time: u64,
    logs: &[&sct::Log],
) -> (r: Result<usize, sct::Error>)
    ensures
        r == sct_verdict(cert@, sct@, at_time, logs_view(logs@)),
;

/// `sct::Error::should_be_fatal`: every error but an unknown log and an
/// unsupported SCT version should end the handshake.
pub assume_specification[ sct::Error::should_be_fatal ](e: &sct::Error) -> (fatal: bool)
    ensures
        fatal == is_fatal(*e),
;

/// Whether an SCT error ends the handshake at once. The other errors are
/// soft: the SCT proves nothing, and the next one is tried.
pub open spec fn is_fatal(e: sct::Error) -> bool {
    !(e is UnknownLog || e is UnsupportedSctVersion)
}

/// Whether the verdict on one SCT settles the whole check: a valid SCT
/// does, and so does a fatal error.
pub open spec fn decides(verdict: Result<usize, sct::Error>) -> bool {
    match verdict {
        Ok(_) => true,
        Err(e) => is_fatal(e),
    }
}

/// Whether `i` is the place of the first verdict that settles the check.
pub open spec fn is_first_deciding(verdicts: Seq<Result<usize, sct::Error>>, i: int) -> bool {
    &&& 0 <= i < verdicts.len()
    &&& decides(verdicts[i])
    &&& forall|j: int| 0 <= j < i ==> !decides(#[trigger] verdicts[j])
}

/// The error that a run of verdicts ends in, if any.
///
/// The first verdict that settles the check settles it: a valid SCT
/// accepts, a fatal error refuses with that error. Where none does, the
/// evidence was unconvincing and the last error is reported, unless there
/// was no evidence at all, which is accepted.
pub open spec fn scts_outcome(verdicts: Seq<Result<usize, sct::Error>>) -> Option<sct::Error> {
    if exists|i: int| is_first_deciding(verdicts, i) {
        let first = choose|i: int| is_first_deciding(verdicts, i);
        match verdicts[first] {
            Ok(_) => None,
            Err(e) => Some(e),
        }
    } else if verdicts.len() > 0 {
        match verdicts.last() {
            Ok(_) => None,
            Err(e) => Some(e),
        }
    } else {
        None
    }
}

/// The verdict on each SCT of a list, in the list's order.
pub open spec fn sct_verdicts(
    cert: Seq<u8>,
    scts: Seq<Seq<u8>>,
    at_time: u64,
    logs: Seq<LogView>,
) -> Seq<Result<usize, sct::Error>> {
    Seq::new(scts.len(), |i: int| sct_verdict(cert, scts[i], at_time, logs))
}

/// The failure, if any, of checking `scts` for `cert` at `now` against
/// `logs`.
///
/// With no trusted log nothing is checked, not even the clock. Otherwise
/// the time must count in whole milliseconds since the epoch, within 64
/// bits, and then the verdicts at that time decide as [`scts_outcome`]
/// says.
pub open spec fn verify_scts_outcome(
    cert: Seq<u8>,
    now: SystemTime,
    scts: Seq<Seq<u8>>,
    logs: Seq<LogView>,
) -> Option<Failure> {
    if logs.len() == 0 {
        None
    } else {
        match millis_in_range(unix_millis(now)) {
            None => Some(Failure::FailedToGetCurrentTime),
            Some(millis) => match scts_outcome(sct_verdicts(cert, scts, millis, logs)) {
                Some(e) => Some(Failure::InvalidSct(e)),
                None => None,
            },
        }
    }
}

/// What follows an event of the check: the check ends, or the next SCT
/// is tried.
#[derive(Debug, PartialEq)]
pub enum SctAction {
    /// The check has ended, with this result.
    Finish(Result<(), TlsError>),
    /// The SCT met a soft error, which is to be remembered as the last;
    /// the next SCT is tried.
    Continue(sct::Error),
}

/// What follows an event, for every event.
///
/// The event is the verdict on the next SCT, or `None` where there is no
/// further SCT. `last_error` is the soft error of the SCT before, if there
/// was one. A valid SCT ends the check with success and a fatal error ends
/// it with that error. A soft error is remembered. With no further SCT the
/// check ends: with the error remembered, or with success where none was
/// presented.
pub open spec fn sct_next_spec(
    last_error: Option<sct::Error>,
    event: Option<Result<usize, sct::Error>>,
) -> SctAction {
    match event {
        None => match last_error {
            Some(e) => SctAction::Finish(Err(TlsError::InvalidSct(e))),
            None => SctAction::Finish(Ok(())),
        },
        Some(Ok(_)) => SctAction::Finish(Ok(())),
        Some(Err(e)) => if is_fatal(e) {
            SctAction::Finish(Err(TlsError::InvalidSct(e)))
        } else {
            SctAction::Continue(e)
        },
    }
}

/// Decides what follows an event of the check. A caller that draws its
/// SCTs from a source one by one runs the check with this: it hands over
/// each verdict with the error remembered, and stops at the first
/// `Finish`.
pub fn sct_next(last_error: Option<sct::Error>, event: Option<Result<usize, sct::Error>>) -> (action:
    SctAction)
    ensures
        action == sct_next_spec(last_error, event),
{
    match event {
        None => match last_error {
            Some(e) => SctAction::Finish(Err(TlsError::InvalidSct(e))),
            None => SctAction::Finish(Ok(())),
        },
        Some(Ok(_)) => SctAction::Finish(Ok(())),
        Some(Err(e)) => {
            if e.should_be_fatal() {
                SctAction::Finish(Err(TlsError::InvalidSct(e)))
            } else {
                SctAction::Continue(e)
            }
        },
    }
}

/// The result of a check that is run event by event over `verdicts`,
/// with `last_error` remembered at its start.
pub open spec fn stepwise_result(
    last_error: Option<sct::Error>,
    verdicts: Seq<Result<usize, sct::Error>>,
) -> Result<(), TlsError>
    decreases verdicts.len(),
{
    if verdicts.len() == 0 {
        match sct_next_spec(last_error, None) {
            SctAction::Finish(result) => result,
            SctAction::Continue(_) => Ok(()),
        }
    } else {
        match sct_next_spec(last_error, Some(verdicts[0])) {
            SctAction::Finish(result) => result,
            SctAction::Continue(e) => stepwise_result(Some(e), verdicts.drop_first()),
        }
    }
}

/// The result that an outcome of the verdicts stands for.
pub open spec fn outcome_result(outcome: Option<sct::Error>) -> Result<(), TlsError> {
    match outcome {
        Some(e) => Err(TlsError::InvalidSct(e)),
        None => Ok(()),
    }
}

/// The place of the first settling verdict is unique.
proof fn lemma_first_deciding_unique(verdicts: Seq<Result<usize, sct::Error>>, i: int, j: int)
    requires
        is_first_deciding(verdicts, i),
        is_first_deciding(verdicts, j),
    ensures
        i == j,
{
    if i < j {
        assert(!decides(verdicts[i]));
    } else if j < i {
        assert(!decides(verdicts[j]));
    }
}

/// Checks the SCTs that came with `cert` against the trusted `logs`, as of
/// `now`.
///
/// The SCTs are tried in order, and no further than the first that is
/// valid or fatally wrong.
pub fn verify_scts(
    cert: &Certificate,
    now: SystemTime,
    scts: &[&[u8]],
    logs: &[&sct::Log],
) -> (r: Result<(), TlsError>)
    ensures
        crate::error::reports(r, verify_scts_outcome(cert@, now, blobs_view(scts@), logs_view(logs@))),
{
    if logs.len() == 0 {
        return Ok(());
    }
    let now_millis = unix_time_millis(now)?;
    let ghost verdicts = sct_verdicts(cert@, blobs_view(scts@), now_millis, logs_view(logs@));
    let mut last_sct_error: Option<sct::Error> = None;
    let mut i: usize = 0;
    while i < scts.len()
        invariant
            i <= scts.len(),
            logs.len() != 0,
            millis_in_range(unix_millis(now)) == Some(now_millis),
            verdicts == sct_verdicts(cert@, blobs_view(scts@), now_millis, logs_view(logs@)),
            verdicts.len() == scts.len(),
            forall|j: int| 0 <= j < i ==> !decides(#[trigger] verdicts[j]),
            i == 0 ==> last_sct_error is None,
            i > 0 ==> verdicts[i - 1] == Err::<usize, sct::Error>(last_sct_error->0)
                && last_sct_error is Some,
        decreases scts.len() - i,
    {
        let verdict = sct::verify_sct(cert.as_bytes(), scts[i], now_millis, logs);
        assert(verdict == verdicts[i as int]);
        match sct_next(last_sct_error, Some(verdict)) {
            SctAction::Finish(result) => {
                proof {
                    lemma_first_deciding_settles(verdicts, i as int);
                }
                return result;
            },
            SctAction::Continue(e) => {
                last_sct_error = Some(e);
            },
        }
        i += 1;
    }
    assert(!exists|k: int| is_first_deciding(verdicts, k));
    match sct_next(last_sct_error, None) {
        SctAction::Finish(result) => result,
        SctAction::Continue(_) => Ok(()),
    }
}

/// The first verdict that settles the check gives its outcome, whatever
/// verdicts stand behind it: a valid SCT accepts, a fatal error refuses
/// with that error.
pub proof fn lemma_first_deciding_settles(verdicts: Seq<Result<usize, sct::Error>>, i: int)
    requires
        is_first_deciding(verdicts, i),
    ensures
        scts_outcome(verdicts) == match verdicts[i] {
            Ok(_) => None::<sct::Error>,
            Err(e) => Some(e),
        },
{
    let first = choose|k: int| is_first_deciding(verdicts, k);
    lemma_first_deciding_unique(verdicts, first, i);
}

/// Evidence that does not convince refuses: where SCTs were presented
/// and every one of them met a soft error, the last of those errors is
/// the outcome.
pub proof fn lemma_unconvincing_evidence_refuses(verdicts: Seq<Result<usize, sct::Error>>)
    requires
        verdicts.len() > 0,
        forall|i: int| 0 <= i < verdicts.len() ==> !decides(#[trigger] verdicts[i]),
    ensures
        verdicts.last() matches Err(e) && scts_outcome(verdicts) == Some(e),
{
    assert(!decides(verdicts[verdicts.len() - 1]));
    assert(!exists|k: int| is_first_deciding(verdicts, k));
}

/// With no trusted log every certificate passes, whatever SCTs came with
/// it.
pub proof fn lemma_no_logs_accepts(
    cert: Seq<u8>,
    now: SystemTime,
    scts: Seq<Seq<u8>>,
    logs: Seq<LogView>,
)
    requires
        logs.len() == 0,
    ensures
        verify_scts_outcome(cert, now, scts, logs) is None,
{
}

/// Evidence is not mandatory: a certificate that came with no SCT passes,
/// provided that the time counts in milliseconds.
pub proof fn lemma_no_scts_accepts(
    cert: Seq<u8>,
    now: SystemTime,
    scts: Seq<Seq<u8>>,
    logs: Seq<LogView>,
)
    requires
        scts.len() == 0,
        millis_in_range(unix_millis(now)) is Some,
    ensures
        verify_scts_outcome(cert, now, scts, logs) is None,
{
    if logs.len() != 0 {
        let millis = millis_in_range(unix_millis(now))->0;
        let verdicts = sct_verdicts(cert, scts, millis, logs);
        assert(!exists|k: int| is_first_deciding(verdicts, k));
    }
}

/// One SCT decides alone: a valid one passes, and one that is refused
/// fails the check with its error, soft or fatal.
pub proof fn lemma_single_sct_decides(
    cert: Seq<u8>,
    now: SystemTime,
    sct: Seq<u8>,
    logs: Seq<LogView>,
    millis: u64,
)
    requires
        logs.len() > 0,
        millis_in_range(unix_millis(now)) == Some(millis),
    ensures
        verify_scts_outcome(cert, now, seq![sct], logs) == match sct_verdict(
            cert,
            sct,
            millis,
            logs,
        ) {
            Ok(_) => None::<Failure>,
            Err(e) => Some(Failure::InvalidSct(e)),
        },
{
    let verdicts = sct_verdicts(cert, seq![sct], millis, logs);
    assert(verdicts[0] == sct_verdict(cert, sct, millis, logs));
    if decides(verdicts[0]) {
        assert(is_first_deciding(verdicts, 0));
        lemma_first_deciding_settles(verdicts, 0);
    } else {
        lemma_unconvincing_evidence_refuses(verdicts);
    }
}

/// A fatal error ends the check at once: where the SCTs before it met
/// soft errors only, the check fails with the fatal error, and no SCT
/// behind it can mend that, valid or not.
pub proof fn lemma_fatal_sct_ends_check(
    cert: Seq<u8>,
    now: SystemTime,
    scts: Seq<Seq<u8>>,
    logs: Seq<LogView>,
    millis: u64,
    i: int,
)
    requires
        logs.len() > 0,
        millis_in_range(unix_millis(now)) == Some(millis),
        0 <= i < scts.len(),
        sct_verdict(cert, scts[i], millis, logs) matches Err(e) && is_fatal(e),
        forall|j: int| 0 <= j < i ==> !decides(#[trigger] sct_verdict(cert, scts[j], millis, logs)),
    ensures
        sct_verdict(cert, scts[i], millis, logs) matches Err(e) && verify_scts_outcome(
            cert,
            now,
            scts,
            logs,
        ) == Some(Failure::InvalidSct(e)),
{
    let verdicts = sct_verdicts(cert, scts, millis, logs);
    assert forall|j: int| 0 <= j < i implies !decides(#[trigger] verdicts[j]) by {
        assert(!decides(sct_verdict(cert, scts[j], millis, logs)));
    }
    assert(is_first_deciding(verdicts, i));
    lemma_first_deciding_settles(verdicts, i);
}

/// A valid SCT is enough: where the SCTs before it met soft errors only,
/// the check passes.
pub proof fn lemma_valid_sct_accepts(
    cert: Seq<u8>,
    now: SystemTime,
    scts: Seq<Seq<u8>>,
    logs: Seq<LogView>,
    millis: u64,
    i: int,
)
    requires
        logs.len() > 0,
        millis_in_range(unix_millis(now)) == Some(millis),
        0 <= i < scts.len(),
        sct_verdict(cert, scts[i], millis, logs) is Ok,
        forall|j: int| 0 <= j < i ==> !decides(#[trigger] sct_verdict(cert, scts[j], millis, logs)),
    ensures
        verify_scts_outcome(cert, now, scts, logs) is None,
{
    let verdicts = sct_verdicts(cert, scts, millis, logs);
    assert forall|j: int| 0 <= j < i implies !decides(#[trigger] verdicts[j]) by {
        assert(!decides(sct_verdict(cert, scts[j], millis, logs)));
    }
    assert(is_first_deciding(verdicts, i));
    lemma_first_deciding_settles(verdicts, i);
}

/// A check run event by event ends as the verdicts say: the first that
/// settles the check settles it, and where none does the last error is
/// reported, which is the error remembered where no verdict is left.
proof fn lemma_stepwise_from(last_error: Option<sct::Error>, verdicts: Seq<Result<usize, sct::Error>>)
    ensures
        stepwise_result(last_error, verdicts) == if verdicts.len() == 0 {
            outcome_result(last_error)
        } else {
            outcome_result(scts_outcome(verdicts))
        },
    decreases verdicts.len(),
{
    if verdicts.len() > 0 {
        let rest = verdicts.drop_first();
        if decides(verdicts[0]) {
            assert(is_first_deciding(verdicts, 0));
            lemma_first_deciding_settles(verdicts, 0);
        } else {
            let e = verdicts[0]->Err_0;
            lemma_stepwise_from(Some(e), rest);
            if rest.len() == 0 {
                lemma_unconvincing_evidence_refuses(verdicts);
            } else if exists|k: int| is_first_deciding(rest, k) {
                let k = choose|k: int| is_first_deciding(rest, k);
                assert forall|j: int| 0 <= j < k + 1 implies !decides(#[trigger] verdicts[j]) by {
                    if j > 0 {
                        assert(verdicts[j] == rest[j - 1]);
                    }
                }
                assert(verdicts[k + 1] == rest[k]);
                assert(is_first_deciding(verdicts, k + 1));
                lemma_first_deciding_settles(verdicts, k + 1);
                lemma_first_deciding_settles(rest, k);
            } else {
                assert forall|j: int| 0 <= j < verdicts.len() implies !decides(
                    #[trigger] verdicts[j],
                ) by {
                    if j > 0 {
                        assert(verdicts[j] == rest[j - 1]);
                        if decides(rest[j - 1]) {
                            lemma_some_verdict_decides_first(rest, j - 1);
                        }
                    }
                }
                lemma_unconvincing_evidence_refuses(verdicts);
                assert(verdicts.last() == rest.last());
                assert forall|j: int| 0 <= j < rest.len() implies !decides(#[trigger] rest[j]) by {
                    if decides(rest[j]) {
                        lemma_some_verdict_decides_first(rest, j);
                    }
                }
                lemma_unconvincing_evidence_refuses(rest);
            }
        }
    }
}

/// Where some verdict settles the check, one is the first to do so.
proof fn lemma_some_verdict_decides_first(verdicts: Seq<Result<usize, sct::Error>>, i: int)
    requires
        0 <= i < verdicts.len(),
        decides(verdicts[i]),
    ensures
        exists|k: int| is_first_deciding(verdicts, k),
    decreases i,
{
    if forall|j: int| 0 <= j < i ==> !decides(#[trigger] verdicts[j]) {
        assert(is_first_deciding(verdicts, i));
    } else {
        let j = choose|j: int| 0 <= j < i && decides(#[trigger] verdicts[j]);
        lemma_some_verdict_decides_first(verdicts, j);
    }
}

/// A check that draws its SCTs one by one and takes [`sct_next`]'s word
/// after each ends exactly as the check of the whole list does.
pub proof fn lemma_stepwise_check_reaches_outcome(verdicts: Seq<Result<usize, sct::Error>>)
    ensures
        stepwise_result(None, verdicts) == outcome_result(scts_outcome(verdicts)),
{
    lemma_stepwise_from(None, verdicts);
    if verdicts.len() == 0 {
        assert(!exists|k: int| is_first_deciding(verdicts, k));
    }
}

} // verus!
