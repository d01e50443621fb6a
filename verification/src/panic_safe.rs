//! Containment of panics at a boundary that they must not cross.
//!
//! Running a callback, destroying a value and catching the panic of either is
//! the work of whoever stands at the boundary. What is decided here is what the
//! boundary does next, given how its last piece of work ended: which payload is
//! reported and destroyed, which one is left alone, in which order the phases
//! of a callback with cleanup run, and what the caller gets.
use vstd::prelude::*;

verus! {

/// The line of a report before the name of the callback.
pub const REPORT_SITE: &'static str = "doom-fish-utils: panic in ";

/// The line of a report between the name of the callback and the message.
pub const REPORT_MESSAGE: &'static str = " caught at C ABI boundary: ";

/// The message of a panic whose payload is no text.
pub const NO_MESSAGE: &'static str = "<non-string panic payload>";

/// The payload of a panic, as far as a report shows it.
#[derive(Debug, PartialEq, Eq)]
pub enum PayloadText<'a> {
    /// The payload is a string literal.
    Literal(&'a str),
    /// The payload is a `String`.
    Owned(&'a str),
    /// The payload is of another type.
    Opaque,
}

impl<'a> PayloadText<'a> {
    /// The message that a report shows.
    pub open spec fn message(self) -> Seq<char> {
        match self {
            PayloadText::Literal(text) => text@,
            PayloadText::Owned(text) => text@,
            PayloadText::Opaque => NO_MESSAGE@,
        }
    }
}

/// The line that reports a panic of the callback `site`.
pub fn log_callback_panic(site: &str, payload: PayloadText<'_>) -> (line: String)
    ensures
        line@ == REPORT_SITE@ + site@ + REPORT_MESSAGE@ + payload.message(),
{
    let message = match payload {
        PayloadText::Literal(text) => text,
        PayloadText::Owned(text) => text,
        PayloadText::Opaque => NO_MESSAGE,
    };
    let mut line = REPORT_SITE.to_string();
    line.append(site);
    line.append(REPORT_MESSAGE);
    line.append(message);
    line
}

/// Which payload a boundary is destroying.
#[derive(Debug, Clone, Copy, PartialEq, Eq, Structural)]
pub enum PayloadStage {
    /// The payload of the callback's own panic.
    Callback,
    /// The payload of a panic while the first one was destroyed.
    Destruction,
}

/// What a boundary does next.
#[derive(Debug, PartialEq, Eq)]
pub enum Containment<R, P> {
    /// It returns this.
    Return(Option<R>),
    /// It reports this payload, destroys it, and asks [`after_destruction`] with
    /// this stage how to go on.
    ReportAndDestroy(PayloadStage, P),
    /// It leaves this payload undestroyed and returns nothing.
    Leak(P),
}

/// What a boundary does after it has run a callback.
pub fn after_callback<R, P>(caught: Result<R, P>) -> (next: Containment<R, P>)
    ensures
        next == match caught {
            Ok(result) => Containment::<R, P>::Return(Some(result)),
            Err(payload) => Containment::<R, P>::ReportAndDestroy(PayloadStage::Callback, payload),
        },
{
    match caught {
        Ok(result) => Containment::Return(Some(result)),
        Err(payload) => Containment::ReportAndDestroy(PayloadStage::Callback, payload),
    }
}

/// What a boundary does after it has destroyed a payload, given the payload of
/// the panic, if that panicked in turn. The second such payload is not
/// destroyed: that could go on forever.
pub fn after_destruction<R, P>(stage: PayloadStage, destroyed: Result<(), P>) -> (next: Containment<
    R,
    P,
>)
    ensures
        next == after_destroying::<R, P>(stage, destroyed),
{
    match destroyed {
        Ok(()) => Containment::Return(None),
        Err(payload) => match stage {
            PayloadStage::Callback => {
                Containment::ReportAndDestroy(PayloadStage::Destruction, payload)
            },
            PayloadStage::Destruction => drop_payload_best_effort(payload),
        },
    }
}

/// The last payload in a row is left undestroyed.
fn drop_payload_best_effort<R, P>(payload: P) -> (next: Containment<R, P>)
    ensures
        next == Containment::<R, P>::Leak(payload),
{
    Containment::Leak(payload)
}

/// What a boundary does after it has destroyed a payload.
pub open spec fn after_destroying<R, P>(
    stage: PayloadStage,
    destroyed: Result<(), P>,
) -> Containment<R, P> {
    match destroyed {
        Ok(_) => Containment::Return(None),
        Err(payload) => match stage {
            PayloadStage::Callback => Containment::ReportAndDestroy(
                PayloadStage::Destruction,
                payload,
            ),
            PayloadStage::Destruction => Containment::Leak(payload),
        },
    }
}

/// The whole course of a boundary around a callback, given how the callback
/// ended and how the destructions of the payloads that came up ended: what is
/// returned, which payloads are reported and destroyed in this order, and which
/// one is left alone.
pub open spec fn boundary_course<R, P>(
    caught: Result<R, P>,
    first: Result<(), P>,
    second: Result<(), P>,
) -> (Option<R>, Seq<P>, Option<P>) {
    match caught {
        Ok(result) => (Some(result), Seq::empty(), None),
        Err(own) => match after_destroying::<R, P>(PayloadStage::Callback, first) {
            Containment::ReportAndDestroy(stage, next) => match after_destroying::<R, P>(
                stage,
                second,
            ) {
                Containment::Leak(left) => (None, seq![own, next], Some(left)),
                _ => (None, seq![own, next], None),
            },
            _ => (None, seq![own], None),
        },
    }
}

/// What a boundary around a callback ends with.
#[derive(Debug, PartialEq, Eq)]
pub struct Contained<R, P> {
    /// What it returns.
    pub returned: Option<R>,
    /// The payload that it must not destroy, to be left alone.
    pub leaked: Option<P>,
}

/// Whether `first` and `second` are outcomes of the destructions that a boundary
/// has to make after the callback ended with `caught`.
pub open spec fn destructions<R, P, D: Fn(P) -> Result<(), P>>(
    destroy: D,
    caught: Result<R, P>,
    first: Result<(), P>,
    second: Result<(), P>,
) -> bool {
    &&& caught matches Err(own) ==> destroy.ensures((own,), first)
    &&& caught is Err && first is Err ==> destroy.ensures((first->Err_0,), second)
}

/// Goes through the course of a boundary around a callback that ended with
/// `caught`. `destroy` reports a payload, destroys it, and gives the payload of
/// the panic if that panicked in turn.
pub fn catch_user_panic_result<R, P, D: Fn(P) -> Result<(), P>>(
    caught: Result<R, P>,
    destroy: D,
) -> (contained: Contained<R, P>)
    requires
        forall|payload: P| destroy.requires((payload,)),
    ensures
        exists|first: Result<(), P>, second: Result<(), P>| #[trigger]
            destructions(destroy, caught, first, second) && ({
                let (returned, _, leaked) = boundary_course(caught, first, second);
                contained.returned == returned && contained.leaked == leaked
            }),
{
    match after_callback(caught) {
        Containment::Return(returned) => {
            assert(destructions(destroy, caught, Ok(()), Ok(())));
            Contained { returned, leaked: None }
        },
        Containment::Leak(payload) => Contained { returned: None, leaked: Some(payload) },
        Containment::ReportAndDestroy(stage, own) => {
            let first = destroy(own);
            let ghost first_seen = first;
            match after_destruction::<R, P>(stage, first) {
                Containment::Return(returned) => {
                    assert(destructions(destroy, caught, first_seen, Ok(())));
                    Contained { returned, leaked: None }
                },
                Containment::Leak(payload) => Contained { returned: None, leaked: Some(payload) },
                Containment::ReportAndDestroy(stage, next) => {
                    let second = destroy(next);
                    assert(destructions(destroy, caught, first_seen, second));
                    match after_destruction::<R, P>(stage, second) {
                        Containment::Return(returned) => Contained { returned, leaked: None },
                        Containment::Leak(payload) => {
                            Contained { returned: None, leaked: Some(payload) }
                        },
                        Containment::ReportAndDestroy(_, payload) => {
                            Contained { returned: None, leaked: Some(payload) }
                        },
                    }
                },
            }
        },
    }
}

/// Goes through the course of a boundary around a callback without a result. The
/// payload that must not be destroyed, if there is one, comes out.
pub fn catch_user_panic<P, D: Fn(P) -> Result<(), P>>(caught: Result<(), P>, destroy: D) -> (leaked:
    Option<P>)
    requires
        forall|payload: P| destroy.requires((payload,)),
    ensures
        exists|first: Result<(), P>, second: Result<(), P>| #[trigger]
            destructions(destroy, caught, first, second) && leaked == boundary_course(
                caught,
                first,
                second,
            ).2,
{
    catch_user_panic_result(caught, destroy).leaked
}

/// What a boundary around a callback with cleanup does at its end.
#[derive(Debug, PartialEq, Eq)]
pub enum CleanupVerdict<R> {
    /// It returns this.
    Return(Option<R>),
    /// It destroys this result under a boundary of its own and returns nothing.
    DestroyResult(R),
}

/// What a boundary around a callback with cleanup does at its end, given the
/// callback's result, if it did not panic, and whether the other phases ended
/// without a panic.
pub fn catch_user_panic_result_with_cleanup<R>(
    callback_result: Option<R>,
    cleanup_succeeded: bool,
    callback_drop_succeeded: bool,
    cleanup_drop_succeeded: bool,
    state_drop_succeeded: bool,
) -> (verdict: CleanupVerdict<R>)
    ensures
        verdict == (if cleanup_succeeded && callback_drop_succeeded && cleanup_drop_succeeded
            && state_drop_succeeded {
            CleanupVerdict::Return(callback_result)
        } else {
            match callback_result {
                Some(result) => CleanupVerdict::DestroyResult(result),
                None => CleanupVerdict::Return(None),
            }
        }),
{
    if callback_drop_succeeded && cleanup_succeeded && cleanup_drop_succeeded
        && state_drop_succeeded {
        CleanupVerdict::Return(callback_result)
    } else {
        match callback_result {
            Some(result) => CleanupVerdict::DestroyResult(result),
            None => CleanupVerdict::Return(None),
        }
    }
}

/// The phases of a callback with cleanup, each under a boundary of its own.
#[derive(Debug, Clone, Copy, PartialEq, Eq, Structural)]
pub enum CleanupPhase {
    /// The callback runs.
    RunCallback,
    /// The cleanup runs.
    RunCleanup,
    /// The callback is destroyed.
    DropCallback,
    /// The cleanup is destroyed.
    DropCleanup,
    /// The state that both worked on is destroyed.
    DropState,
    /// Every phase has been gone through.
    Finished,
}

impl CleanupPhase {
    /// How many phases come before this one.
    pub open spec fn rank(self) -> int {
        match self {
            CleanupPhase::RunCallback => 0,
            CleanupPhase::RunCleanup => 1,
            CleanupPhase::DropCallback => 2,
            CleanupPhase::DropCleanup => 3,
            CleanupPhase::DropState => 4,
            CleanupPhase::Finished => 5,
        }
    }

    /// Whether the phase destroys something that the caller handed over.
    pub open spec fn destroys(self) -> bool {
        self is DropCallback || self is DropCleanup || self is DropState
    }
}

/// A callback with cleanup on its way through the phases.
pub struct CleanupRun<R> {
    phase: CleanupPhase,
    callback_result: Option<R>,
    cleanup_succeeded: bool,
    callback_drop_succeeded: bool,
    cleanup_drop_succeeded: bool,
    state_drop_succeeded: bool,
}

/// How far a callback with cleanup has come.
#[verifier::ext_equal]
pub struct CleanupView<R> {
    /// The phase to go through next.
    pub phase: CleanupPhase,
    /// What the callback returned, if it has run and did not panic.
    pub result: Option<R>,
    /// Whether no phase after the callback has panicked.
    pub intact: bool,
}

impl<R> CleanupView<R> {
    /// Before the callback has run.
    pub open spec fn start() -> Self {
        CleanupView { phase: CleanupPhase::RunCallback, result: None, intact: true }
    }

    /// After the callback has run.
    pub open spec fn callback_done(self, result: Option<R>) -> Self {
        CleanupView { phase: CleanupPhase::RunCleanup, result, intact: true }
    }

    /// After another phase.
    pub open spec fn phase_done(self, succeeded: bool) -> Self {
        CleanupView {
            phase: match self.phase {
                CleanupPhase::RunCallback => CleanupPhase::RunCleanup,
                CleanupPhase::RunCleanup => CleanupPhase::DropCallback,
                CleanupPhase::DropCallback => CleanupPhase::DropCleanup,
                CleanupPhase::DropCleanup => CleanupPhase::DropState,
                CleanupPhase::DropState => CleanupPhase::Finished,
                CleanupPhase::Finished => CleanupPhase::Finished,
            },
            result: self.result,
            intact: self.intact && succeeded,
        }
    }

    /// What is done at the end.
    pub open spec fn verdict(self) -> CleanupVerdict<R> {
        if self.intact {
            CleanupVerdict::Return(self.result)
        } else {
            match self.result {
                Some(result) => CleanupVerdict::DestroyResult(result),
                None => CleanupVerdict::Return(None),
            }
        }
    }
}

impl<R> View for CleanupRun<R> {
    type V = CleanupView<R>;

    closed spec fn view(&self) -> CleanupView<R> {
        CleanupView {
            phase: self.phase,
            result: self.callback_result,
            intact: self.cleanup_succeeded && self.callback_drop_succeeded
                && self.cleanup_drop_succeeded && self.state_drop_succeeded,
        }
    }
}

impl<R> CleanupRun<R> {
    /// A phase that is still to come has not failed.
    #[verifier::type_invariant]
    spec fn inv(self) -> bool {
        &&& self.phase.rank() <= 1 ==> self.cleanup_succeeded
        &&& self.phase.rank() <= 2 ==> self.callback_drop_succeeded
        &&& self.phase.rank() <= 3 ==> self.cleanup_drop_succeeded
        &&& self.phase.rank() <= 4 ==> self.state_drop_succeeded
        &&& self.phase.rank() == 0 ==> self.callback_result is None
    }

    /// Before the callback has run.
    pub fn new() -> (run: Self)
        ensures
            run@ == CleanupView::<R>::start(),
    {
        CleanupRun {
            phase: CleanupPhase::RunCallback,
            callback_result: None,
            cleanup_succeeded: true,
            callback_drop_succeeded: true,
            cleanup_drop_succeeded: true,
            state_drop_succeeded: true,
        }
    }

    /// The phase to go through next.
    pub fn phase(&self) -> (phase: CleanupPhase)
        ensures
            phase == self@.phase,
    {
        self.phase
    }

    /// Takes note of how the callback ended: with a result, or with a panic
    /// that was contained.
    pub fn callback_done(self, result: Option<R>) -> (run: Self)
        requires
            self@.phase == CleanupPhase::RunCallback,
        ensures
            run@ == self@.callback_done(result),
    {
        CleanupRun {
            phase: CleanupPhase::RunCleanup,
            callback_result: result,
            cleanup_succeeded: true,
            callback_drop_succeeded: true,
            cleanup_drop_succeeded: true,
            state_drop_succeeded: true,
        }
    }

    /// Takes note of how the phase after the callback ended: well, or with a
    /// panic that was contained.
    pub fn phase_done(self, succeeded: bool) -> (run: Self)
        requires
            self@.phase != CleanupPhase::RunCallback,
            self@.phase != CleanupPhase::Finished,
        ensures
            run@ == self@.phase_done(succeeded),
    {
        proof {
            use_type_invariant(&self);
        }
        match self.phase {
            CleanupPhase::RunCleanup => CleanupRun {
                phase: CleanupPhase::DropCallback,
                cleanup_succeeded: succeeded,
                ..self
            },
            CleanupPhase::DropCallback => CleanupRun {
                phase: CleanupPhase::DropCleanup,
                callback_drop_succeeded: succeeded,
                ..self
            },
            CleanupPhase::DropCleanup => CleanupRun {
                phase: CleanupPhase::DropState,
                cleanup_drop_succeeded: succeeded,
                ..self
            },
            _ => CleanupRun {
                phase: CleanupPhase::Finished,
                state_drop_succeeded: succeeded,
                ..self
            },
        }
    }

    /// Decides what is done at the end.
    pub fn finish(self) -> (verdict: CleanupVerdict<R>)
        requires
            self@.phase == CleanupPhase::Finished,
        ensures
            verdict == self@.verdict(),
    {
        catch_user_panic_result_with_cleanup(
            self.callback_result,
            self.cleanup_succeeded,
            self.callback_drop_succeeded,
            self.cleanup_drop_succeeded,
            self.state_drop_succeeded,
        )
    }
}

/// A boundary returns what the callback returned, and nothing exactly where the
/// callback panicked, whatever happens to the payloads. It destroys at most two
/// payloads and leaves at most one alone, which is that of a panic while the
/// second one was destroyed.
pub proof fn law_boundary_returns_iff_callback_does<R, P>(
    caught: Result<R, P>,
    first: Result<(), P>,
    second: Result<(), P>,
)
    ensures
        ({
            let (returned, destroyed, left) = boundary_course(caught, first, second);
            &&& returned == match caught {
                Ok(result) => Some(result),
                Err(_) => None,
            }
            &&& destroyed == match caught {
                Ok(_) => Seq::<P>::empty(),
                Err(own) => match first {
                    Ok(_) => seq![own],
                    Err(next) => seq![own, next],
                },
            }
            &&& left == (if caught is Err && first is Err && second is Err {
                Some(second->Err_0)
            } else {
                None
            })
        }),
{
}

/// The course of a callback with cleanup, up to its end.
pub open spec fn cleanup_course<R>(
    result: Option<R>,
    cleanup: bool,
    drop_callback: bool,
    drop_cleanup: bool,
    drop_state: bool,
) -> CleanupView<R> {
    CleanupView::start().callback_done(result).phase_done(cleanup).phase_done(
        drop_callback,
    ).phase_done(drop_cleanup).phase_done(drop_state)
}

/// A callback with cleanup gives its result exactly where the callback, the
/// cleanup and the three destructions all ended without a panic. A result that
/// is not given is destroyed.
pub proof fn law_result_needs_every_phase<R>(
    result: Option<R>,
    cleanup: bool,
    drop_callback: bool,
    drop_cleanup: bool,
    drop_state: bool,
)
    ensures
        ({
            let end = cleanup_course(result, cleanup, drop_callback, drop_cleanup, drop_state);
            let clean = cleanup && drop_callback && drop_cleanup && drop_state;
            &&& end.phase == CleanupPhase::Finished
            &&& (end.verdict() matches CleanupVerdict::Return(Some(_))) == (clean && result is Some)
            &&& clean ==> end.verdict() == CleanupVerdict::Return(result)
            &&& !clean && result is Some ==> end.verdict() == CleanupVerdict::DestroyResult(
                result->0,
            )
        }),
{
}

/// The cleanup runs right after the callback, however that ended, and before
/// anything is destroyed; each phase comes once.
pub proof fn law_cleanup_runs_before_destruction<R>(
    run: CleanupView<R>,
    result: Option<R>,
    succeeded: bool,
)
    ensures
        run.callback_done(result).phase == CleanupPhase::RunCleanup,
        run.phase != CleanupPhase::Finished ==> run.phase_done(succeeded).phase.rank()
            == run.phase.rank() + 1,
        run.phase.destroys() ==> run.phase.rank() > CleanupPhase::RunCleanup.rank(),
{
}

/// The message of a report is the payload's text, and a fixed one for a payload
/// that is no text.
pub proof fn law_reports_show_the_text(text: &str)
    ensures
        PayloadText::Literal(text).message() == text@,
        PayloadText::Owned(text).message() == text@,
        PayloadText::Opaque.message() == "<non-string panic payload>"@,
        REPORT_SITE@ == "doom-fish-utils: panic in "@,
        REPORT_MESSAGE@ == " caught at C ABI boundary: "@,
{
}

/// After a destruction that went well a boundary returns nothing. After one that
/// panicked it destroys the new payload if that was the first destruction, and
/// leaves it alone if it was the second.
pub proof fn law_second_failed_destruction_is_the_last<R, P>(stage: PayloadStage, payload: P)
    ensures
        after_destroying::<R, P>(stage, Ok(())) == Containment::<R, P>::Return(None),
        after_destroying::<R, P>(PayloadStage::Callback, Err(payload)) == Containment::<
            R,
            P,
        >::ReportAndDestroy(PayloadStage::Destruction, payload),
        after_destroying::<R, P>(PayloadStage::Destruction, Err(payload)) == Containment::<
            R,
            P,
        >::Leak(payload),
{
}

/// The destructions of a boundary: that of the callback's payload where it
/// panicked, and that of the payload that came up then, where one did.
pub proof fn law_payloads_are_destroyed_as_they_come_up<R, P, D: Fn(P) -> Result<(), P>>(
    destroy: D,
    caught: Result<R, P>,
    first: Result<(), P>,
    second: Result<(), P>,
)
    requires
        destructions(destroy, caught, first, second),
    ensures
        caught matches Err(own) ==> destroy.ensures((own,), first),
        caught is Err ==> (first matches Err(next) ==> destroy.ensures((next,), second)),
{
}

/// The phases come in a fixed order, and each one counts: the callback, the
/// cleanup, the end of the callback, of the cleanup and of the state. The
/// callback's result is kept through all of them, and one that panicked is not
/// forgotten.
pub proof fn law_phases_come_in_order<R>(run: CleanupView<R>, result: Option<R>, succeeded: bool)
    ensures
        CleanupView::<R>::start() == (CleanupView::<R> {
            phase: CleanupPhase::RunCallback,
            result: None,
            intact: true,
        }),
        run.callback_done(result) == (CleanupView {
            phase: CleanupPhase::RunCleanup,
            result,
            intact: true,
        }),
        run.phase == CleanupPhase::RunCleanup ==> run.phase_done(succeeded).phase
            == CleanupPhase::DropCallback,
        run.phase == CleanupPhase::DropCallback ==> run.phase_done(succeeded).phase
            == CleanupPhase::DropCleanup,
        run.phase == CleanupPhase::DropCleanup ==> run.phase_done(succeeded).phase
            == CleanupPhase::DropState,
        run.phase == CleanupPhase::DropState ==> run.phase_done(succeeded).phase
            == CleanupPhase::Finished,
        run.phase_done(succeeded).result == run.result,
        run.phase_done(succeeded).intact <==> run.intact && succeeded,
        run.intact ==> run.verdict() == CleanupVerdict::Return(run.result),
        !run.intact && run.result is None ==> run.verdict() == CleanupVerdict::<R>::Return(None),
        !run.intact ==> (run.result matches Some(result) ==> run.verdict()
            == CleanupVerdict::DestroyResult(result)),
{
}

} // verus!
