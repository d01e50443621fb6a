//! One-shot completions of callback-based operations.
//!
//! A completion takes the first result that a callback reports and refuses
//! every later one. [`SyncCompletion`] is for a thread that waits for the
//! result, [`AsyncCompletion`] for a task that polls for it.
//!
//! Each operation here is one critical section on the state that the callback
//! and the waiting side share. What has to happen outside of it is in the
//! result: values to drop, a waker to wake, or how long to sleep before the
//! next look.
use std::marker::PhantomData;
use std::task::Waker;

use vstd::prelude::*;
use vstd::utf8::*;

use crate::poll::Poll;
use crate::time_span::TimeSpan;

verus! {

/// What became of a result that a callback reported to a [`SyncCompletion`].
pub enum CompletionOutcome<T> {
    /// It is the result of the operation; the waiting thread is to be notified.
    Accepted,
    /// The operation had a result before; this one is to be dropped.
    Duplicate(Result<T, String>),
    /// There was nothing to complete; this one is to be dropped.
    NoContext(Result<T, String>),
}

/// What a thread that waits for a result does next.
pub enum WaitStep<T> {
    /// It returns this result.
    Done(Result<T, String>),
    /// It sleeps until it is notified, and looks again.
    Block,
}

/// What a thread that waits for a result for a limited time does next.
pub enum TimedWaitStep<T> {
    /// It returns this result.
    Done(Result<T, String>),
    /// It returns without a result.
    TimedOut,
    /// It sleeps until it is notified, at most this long, and looks again.
    BlockFor(TimeSpan),
}

/// What a completion is, as far as its users can tell.
#[verifier::ext_equal]
pub struct CompletionView<T> {
    /// Whether a callback has reported a result.
    pub consumed: bool,
    /// The result, until it is taken.
    pub result: Option<Result<T, String>>,
}

impl<T> CompletionView<T> {
    /// A completion that nothing has been reported to.
    pub open spec fn fresh() -> Self {
        CompletionView { consumed: false, result: None }
    }

    /// A result is there only after it was reported.
    pub open spec fn wf(self) -> bool {
        self.result is Some ==> self.consumed
    }

    /// After a callback has reported a result.
    pub open spec fn completed(self, result: Result<T, String>) -> Self {
        if self.consumed {
            self
        } else {
            CompletionView { consumed: true, result: Some(result) }
        }
    }

    /// After the result has been taken, if there is one.
    pub open spec fn taken(self) -> Self {
        CompletionView { result: None, ..self }
    }

    /// What becomes of a result that a callback reports.
    pub open spec fn outcome(self, result: Result<T, String>) -> CompletionOutcome<T> {
        if self.consumed {
            CompletionOutcome::Duplicate(result)
        } else {
            CompletionOutcome::Accepted
        }
    }
}

/// The result of an operation, on its way from a callback to a waiting thread.
pub struct SyncCompletion<T> {
    consumed: bool,
    result: Option<Result<T, String>>,
}

impl<T> View for SyncCompletion<T> {
    type V = CompletionView<T>;

    closed spec fn view(&self) -> CompletionView<T> {
        CompletionView { consumed: self.consumed, result: self.result }
    }
}

impl<T> SyncCompletion<T> {
    /// Makes a completion that nothing has been reported to.
    pub fn new() -> (completion: Self)
        ensures
            completion@ == CompletionView::<T>::fresh(),
    {
        SyncCompletion { consumed: false, result: None }
    }

    /// One look for the result, by a thread that waits for it.
    pub fn wait(&mut self) -> (step: WaitStep<T>)
        ensures
            final(self)@ == old(self)@.taken(),
            step == match old(self)@.result {
                Some(result) => WaitStep::Done(result),
                None => WaitStep::Block,
            },
    {
        match self.result.take() {
            Some(result) => WaitStep::Done(result),
            None => WaitStep::Block,
        }
    }

    /// One look for the result, by a thread that waits for it no longer than
    /// `timeout` and has waited for `elapsed` by now. A result that is there is
    /// returned however late it is.
    pub fn wait_timeout(&mut self, timeout: TimeSpan, elapsed: TimeSpan) -> (step: TimedWaitStep<
        T,
    >)
        ensures
            final(self)@ == old(self)@.taken(),
            match old(self)@.result {
                Some(result) => step == TimedWaitStep::Done(result),
                None => if elapsed.total_nanos() > timeout.total_nanos() {
                    step == TimedWaitStep::<T>::TimedOut
                } else {
                    step matches TimedWaitStep::BlockFor(rest) && rest.total_nanos()
                        == timeout.total_nanos() - elapsed.total_nanos()
                },
            },
    {
        match self.result.take() {
            Some(result) => TimedWaitStep::Done(result),
            None => match timeout.checked_sub(elapsed) {
                Some(rest) => TimedWaitStep::BlockFor(rest),
                None => TimedWaitStep::TimedOut,
            },
        }
    }

    /// Reports success with a value.
    pub fn complete_ok(context: Option<&mut Self>, value: T) -> (outcome: CompletionOutcome<T>)
        ensures
            match context {
                Some(completion) => {
                    &&& final(completion)@ == completion@.completed(Ok(value))
                    &&& outcome == completion@.outcome(Ok(value))
                },
                None => outcome == CompletionOutcome::NoContext(Ok::<T, String>(value)),
            },
    {
        Self::complete_with_result(context, Ok(value))
    }

    /// Reports failure with a message.
    pub fn complete_err(context: Option<&mut Self>, error: String) -> (outcome: CompletionOutcome<
        T,
    >)
        ensures
            match context {
                Some(completion) => {
                    &&& final(completion)@ == completion@.completed(Err(error))
                    &&& outcome == completion@.outcome(Err(error))
                },
                None => outcome == CompletionOutcome::NoContext(Err::<T, String>(error)),
            },
    {
        Self::complete_with_result(context, Err(error))
    }

    /// Reports a result. Only the first one counts; without a context nothing
    /// happens.
    pub fn complete_with_result(context: Option<&mut Self>, result: Result<T, String>) -> (outcome:
        CompletionOutcome<T>)
        ensures
            match context {
                Some(completion) => {
                    &&& final(completion)@ == completion@.completed(result)
                    &&& outcome == completion@.outcome(result)
                },
                None => outcome == CompletionOutcome::NoContext(result),
            },
    {
        match context {
            None => CompletionOutcome::NoContext(result),
            Some(completion) => {
                if completion.consumed {
                    CompletionOutcome::Duplicate(result)
                } else {
                    completion.consumed = true;
                    completion.result = Some(result);
                    CompletionOutcome::Accepted
                }
            },
        }
    }
}

impl<T> Default for SyncCompletion<T> {
    fn default() -> (completion: Self)
        ensures
            completion@ == CompletionView::<T>::fresh(),
    {
        SyncCompletion::new()
    }
}

/// What became of a result that a callback reported to an [`AsyncCompletion`].
pub enum AsyncOutcome<T> {
    /// It is the result of the operation; the waker, if the polling task left
    /// one behind, is to be woken.
    Accepted(Option<Waker>),
    /// The operation had a result before; this one is to be dropped.
    Duplicate(Result<T, String>),
    /// There was nothing to complete; this one is to be dropped.
    NoContext(Result<T, String>),
}

/// What the future of an [`AsyncCompletion`] is, as far as its users can tell.
#[verifier::ext_equal]
pub struct FutureView<T> {
    /// Whether a callback has reported a result.
    pub consumed: bool,
    /// The result, until it is taken.
    pub result: Option<Result<T, String>>,
    /// The waker that the polling task left behind.
    pub waker: Option<Waker>,
}

impl<T> FutureView<T> {
    /// A future that nothing has been reported to and that nobody has polled.
    pub open spec fn fresh() -> Self {
        FutureView { consumed: false, result: None, waker: None }
    }

    /// A result is there only after it was reported, and while it is there no
    /// waker is left behind.
    pub open spec fn wf(self) -> bool {
        self.result is Some ==> self.consumed && self.waker is None
    }

    /// After a callback has reported a result.
    pub open spec fn completed(self, result: Result<T, String>) -> Self {
        if self.consumed {
            self
        } else {
            FutureView { consumed: true, result: Some(result), waker: None }
        }
    }

    /// What becomes of a result that a callback reports.
    pub open spec fn outcome(self, result: Result<T, String>) -> AsyncOutcome<T> {
        if self.consumed {
            AsyncOutcome::Duplicate(result)
        } else {
            AsyncOutcome::Accepted(self.waker)
        }
    }

    /// After the result has been taken, if there is one.
    pub open spec fn taken(self) -> Self {
        FutureView { result: None, ..self }
    }

    /// After the polling task has left a waker behind.
    pub open spec fn awaited(self, waker: Waker) -> Self {
        FutureView { waker: Some(waker), ..self }
    }

    /// Whether a pending poll with `waker` may make `after` of this future: the
    /// waker that was left behind stays where `Waker::will_wake` says that it
    /// wakes the same task, else a clone of the new one takes its place.
    pub open spec fn pending(self, waker: Waker, after: Self) -> bool {
        let kept = after == self && (self.waker matches Some(left) && call_ensures(
            Waker::will_wake,
            (&left, &waker),
            true,
        ));
        let replaced = (after.waker matches Some(copy) && cloned(waker, copy) && after
            == self.awaited(copy)) && (self.waker matches Some(left) ==> call_ensures(
            Waker::will_wake,
            (&left, &waker),
            false,
        ));
        kept || replaced
    }
}

/// The namespace of the operations of callbacks on an [`AsyncCompletionFuture`].
pub struct AsyncCompletion<T> {
    values: PhantomData<T>,
}

/// The result of an operation, on its way from a callback to a polling task.
pub struct AsyncCompletionFuture<T> {
    consumed: bool,
    result: Option<Result<T, String>>,
    waker: Option<Waker>,
}

impl<T> View for AsyncCompletionFuture<T> {
    type V = FutureView<T>;

    closed spec fn view(&self) -> FutureView<T> {
        FutureView { consumed: self.consumed, result: self.result, waker: self.waker }
    }
}

impl<T> AsyncCompletion<T> {
    /// Makes a future that nothing has been reported to.
    pub fn create() -> (future: AsyncCompletionFuture<T>)
        ensures
            future@ == FutureView::<T>::fresh(),
    {
        AsyncCompletionFuture { consumed: false, result: None, waker: None }
    }

    /// Reports success with a value.
    pub fn complete_ok(context: Option<&mut AsyncCompletionFuture<T>>, value: T) -> (outcome:
        AsyncOutcome<T>)
        ensures
            match context {
                Some(future) => {
                    &&& final(future)@ == future@.completed(Ok(value))
                    &&& outcome == future@.outcome(Ok(value))
                },
                None => outcome == AsyncOutcome::NoContext(Ok::<T, String>(value)),
            },
    {
        Self::complete_with_result(context, Ok(value))
    }

    /// Reports failure with a message.
    pub fn complete_err(context: Option<&mut AsyncCompletionFuture<T>>, error: String) -> (outcome:
        AsyncOutcome<T>)
        ensures
            match context {
                Some(future) => {
                    &&& final(future)@ == future@.completed(Err(error))
                    &&& outcome == future@.outcome(Err(error))
                },
                None => outcome == AsyncOutcome::NoContext(Err::<T, String>(error)),
            },
    {
        Self::complete_with_result(context, Err(error))
    }

    /// Reports a result. Only the first one counts; without a context nothing
    /// happens.
    pub fn complete_with_result(
        context: Option<&mut AsyncCompletionFuture<T>>,
        result: Result<T, String>,
    ) -> (outcome: AsyncOutcome<T>)
        ensures
            match context {
                Some(future) => {
                    &&& final(future)@ == future@.completed(result)
                    &&& outcome == future@.outcome(result)
                },
                None => outcome == AsyncOutcome::NoContext(result),
            },
    {
        match context {
            None => AsyncOutcome::NoContext(result),
            Some(future) => {
                if future.consumed {
                    AsyncOutcome::Duplicate(result)
                } else {
                    future.consumed = true;
                    future.result = Some(result);
                    AsyncOutcome::Accepted(future.waker.take())
                }
            },
        }
    }
}

impl<T> AsyncCompletionFuture<T> {
    /// Takes the result, if it is there.
    pub fn take_result(&mut self) -> (result: Option<Result<T, String>>)
        ensures
            result == old(self)@.result,
            final(self)@ == old(self)@.taken(),
    {
        self.result.take()
    }

    /// Leaves a waker behind. The one that was there comes out, to be dropped.
    pub fn store_waker(&mut self, waker: Waker) -> (replaced: Option<Waker>)
        ensures
            replaced == old(self)@.waker,
            final(self)@ == old(self)@.awaited(waker),
    {
        let replaced = self.waker.take();
        self.waker = Some(waker);
        replaced
    }

    /// One poll for the result.
    pub fn poll(&mut self, waker: &Waker) -> (polled: Poll<Result<T, String>>)
        ensures
            match old(self)@.result {
                Some(result) => {
                    &&& polled == Poll::Ready(result)
                    &&& final(self)@ == old(self)@.taken()
                },
                None => {
                    &&& polled == Poll::<Result<T, String>>::Pending
                    &&& old(self)@.pending(*waker, final(self)@)
                },
            },
    {
        match self.take_result() {
            Some(result) => Poll::Ready(result),
            None => {
                let same = match &self.waker {
                    Some(existing) => existing.will_wake(waker),
                    None => false,
                };
                if !same {
                    let _ = self.store_waker(waker.clone());
                }
                Poll::Pending
            },
        }
    }
}

/// The message for an error that came without a readable one.
pub const UNKNOWN_ERROR: &'static str = "Unknown error";

/// The bytes of an error message, if it came.
pub open spec fn message_bytes(msg: Option<&[u8]>) -> Option<Seq<u8>> {
    match msg {
        Some(bytes) => Some(bytes@),
        None => None,
    }
}

/// The text of an error message that came as bytes, or did not come.
pub open spec fn error_text(msg: Option<Seq<u8>>) -> Seq<char> {
    match msg {
        Some(bytes) => if valid_utf8(bytes) {
            decode_utf8(bytes)
        } else {
            UNKNOWN_ERROR@
        },
        None => UNKNOWN_ERROR@,
    }
}

/// Calls `std::str::from_utf8`.
///
/// It succeeds exactly on valid UTF-8, and then gives the text that the bytes
/// encode.
#[verifier::external_body]
fn text_of_utf8(bytes: &[u8]) -> (text: Option<&str>)
    ensures
        match text {
            Some(s) => valid_utf8(bytes@) && s@ == decode_utf8(bytes@),
            None => !valid_utf8(bytes@),
        },
{
    std::str::from_utf8(bytes).ok()
}

/// The text of an error message, given as the bytes of a C string before its
/// terminating zero, or `None` where there is no such string.
pub fn error_from_cstr(msg: Option<&[u8]>) -> (text: String)
    ensures
        text@ == error_text(message_bytes(msg)),
{
    match msg {
        None => UNKNOWN_ERROR.to_string(),
        Some(bytes) => match text_of_utf8(bytes) {
            Some(text) => text.to_string(),
            None => UNKNOWN_ERROR.to_string(),
        },
    }
}

/// The completion of an operation that returns no value.
pub type UnitCompletion = SyncCompletion<()>;

/// Whether `result` is what a callback without a value reports by these
/// arguments. The message counts only on failure.
pub open spec fn reported(success: bool, msg: Option<Seq<u8>>, result: Result<(), String>) -> bool {
    match result {
        Ok(_) => success,
        Err(error) => !success && error@ == error_text(msg),
    }
}

impl SyncCompletion<()> {
    /// Reports the end of an operation without a value.
    pub fn callback(context: Option<&mut Self>, success: bool, msg: Option<&[u8]>) -> (outcome:
        CompletionOutcome<()>)
        ensures
            exists|result: Result<(), String>| #[trigger]
                reported(success, message_bytes(msg), result) && match context {
                    Some(completion) => {
                        &&& final(completion)@ == completion@.completed(result)
                        &&& outcome == completion@.outcome(result)
                    },
                    None => outcome == CompletionOutcome::NoContext(result),
                },
            context matches Some(completion) ==> completion@.consumed || (
            final(completion)@.result matches Some(result) && (result is Ok <==> success)),
    {
        if success {
            assert(reported(success, message_bytes(msg), Ok(())));
            Self::complete_ok(context, ())
        } else {
            let error = error_from_cstr(msg);
            assert(reported(success, message_bytes(msg), Err(error)));
            Self::complete_err(context, error)
        }
    }
}

/// A completion after these results have been reported, one after the other.
pub open spec fn report_all<T>(
    completion: CompletionView<T>,
    results: Seq<Result<T, String>>,
) -> CompletionView<T>
    decreases results.len(),
{
    if results.len() == 0 {
        completion
    } else {
        report_all(completion, results.drop_last()).completed(results.last())
    }
}

/// The first report wins: whatever is reported after it, the completion stays
/// as the first one left it, and every later report is refused.
pub proof fn law_first_report_wins<T>(
    completion: CompletionView<T>,
    first: Result<T, String>,
    later: Seq<Result<T, String>>,
    last: Result<T, String>,
)
    requires
        !completion.consumed,
    ensures
        report_all(completion.completed(first), later).result == Some(first),
        report_all(completion.completed(first), later).outcome(last)
            == CompletionOutcome::Duplicate(last),
    decreases later.len(),
{
    if later.len() > 0 {
        law_first_report_wins(completion, first, later.drop_last(), last);
    }
}

/// A result is handed over once: after it was taken, neither a look nor any
/// number of further reports brings a result again.
pub proof fn law_result_is_taken_once<T>(
    completion: CompletionView<T>,
    later: Seq<Result<T, String>>,
)
    requires
        completion.wf(),
        completion.result is Some,
    ensures
        report_all(completion.taken(), later).result is None,
{
    lemma_consumed_stays(completion.taken(), later);
}

/// Reports leave a completion that has had one as it is.
proof fn lemma_consumed_stays<T>(completion: CompletionView<T>, later: Seq<Result<T, String>>)
    requires
        completion.consumed,
    ensures
        report_all(completion, later) == completion,
    decreases later.len(),
{
    if later.len() > 0 {
        lemma_consumed_stays(completion, later.drop_last());
    }
}

/// A report is accepted however late it comes: looks that find nothing change
/// nothing, also where the waiting thread has given up.
pub proof fn law_late_report_is_accepted<T>(completion: CompletionView<T>, late: Result<T, String>)
    requires
        completion.wf(),
        !completion.consumed,
    ensures
        completion.taken() == completion,
        completion.taken().outcome(late) == CompletionOutcome::<T>::Accepted,
        completion.taken().completed(late).result == Some(late),
{
}

/// Every operation keeps a completion such that a result is there only after a
/// report.
pub proof fn law_operations_keep_completions_well_formed<T>(
    completion: CompletionView<T>,
    result: Result<T, String>,
)
    requires
        completion.wf(),
    ensures
        CompletionView::<T>::fresh().wf(),
        completion.completed(result).wf(),
        completion.taken().wf(),
{
}

/// Every report and every poll keeps a future such that a result is there only
/// after a report, and no waker beside it.
pub proof fn law_operations_keep_futures_well_formed<T>(
    future: FutureView<T>,
    result: Result<T, String>,
    waker: Waker,
)
    requires
        future.wf(),
    ensures
        FutureView::<T>::fresh().wf(),
        future.completed(result).wf(),
        future.taken().wf(),
        forall|after: FutureView<T>|
            future.result is None && #[trigger] future.pending(waker, after) ==> after.wf(),
{
}

/// A task that was told to wait is woken: a pending poll leaves a waker behind
/// that is a clone of its own or wakes the same task, the first report after it
/// hands out that waker, and the next poll has the result.
pub proof fn law_pending_task_is_woken<T>(
    future: FutureView<T>,
    waker: Waker,
    after: FutureView<T>,
    result: Result<T, String>,
)
    requires
        !future.consumed,
        future.result is None,
        future.pending(waker, after),
    ensures
        after.waker matches Some(left) && (cloned(waker, left) || call_ensures(
            Waker::will_wake,
            (&left, &waker),
            true,
        )),
        after.outcome(result) == AsyncOutcome::<T>::Accepted(after.waker),
        after.completed(result).result == Some(result),
{
}

/// A future after these results have been reported, one after the other.
pub open spec fn report_all_to_future<T>(
    future: FutureView<T>,
    results: Seq<Result<T, String>>,
) -> FutureView<T>
    decreases results.len(),
{
    if results.len() == 0 {
        future
    } else {
        report_all_to_future(future, results.drop_last()).completed(results.last())
    }
}

/// The first report to a future wins: whatever is reported after it, the future
/// stays as the first one left it, also where its result has been taken, and
/// every later report is refused.
pub proof fn law_first_report_to_future_wins<T>(
    future: FutureView<T>,
    first: Result<T, String>,
    later: Seq<Result<T, String>>,
    last: Result<T, String>,
)
    requires
        !future.consumed,
    ensures
        future.completed(first).result == Some(first),
        report_all_to_future(future.completed(first), later) == future.completed(first),
        report_all_to_future(future.completed(first), later).outcome(last)
            == AsyncOutcome::Duplicate(last),
        report_all_to_future(future.completed(first).taken(), later) == future.completed(
            first,
        ).taken(),
        report_all_to_future(future.completed(first).taken(), later).outcome(last)
            == AsyncOutcome::Duplicate(last),
    decreases later.len(),
{
    if later.len() > 0 {
        law_first_report_to_future_wins(future, first, later.drop_last(), last);
    }
}

/// What a report without a value comes to: success exactly where it was said,
/// whatever the message is, else failure with the text that the message's bytes
/// decode to, or with "Unknown error" where there is no message or it is no UTF-8
/// text.
pub proof fn law_reports_without_a_value(
    success: bool,
    msg: Option<&[u8]>,
    result: Result<(), String>,
)
    requires
        reported(success, message_bytes(msg), result),
    ensures
        success ==> result is Ok,
        !success ==> (result matches Err(error) && (match msg {
            Some(bytes) => (valid_utf8(bytes@) ==> error@ == decode_utf8(bytes@)) && (!valid_utf8(
                bytes@,
            ) ==> error@ == "Unknown error"@),
            None => error@ == "Unknown error"@,
        })),
        CompletionView::<()>::fresh().completed(result).result == Some(result),
{
}

/// The text of an error is what its message's bytes decode to, and "Unknown
/// error" where there is no message or it is no UTF-8 text.
pub proof fn law_error_texts(bytes: &[u8])
    ensures
        error_text(message_bytes(None)) == "Unknown error"@,
        !valid_utf8(bytes@) ==> error_text(message_bytes(Some(bytes))) == "Unknown error"@,
        valid_utf8(bytes@) ==> encode_utf8(error_text(message_bytes(Some(bytes)))) == bytes@,
{
    if valid_utf8(bytes@) {
        decode_utf8_encode_utf8(bytes@);
    }
}

/// A completion accepts a report exactly where it has had none, and then holds
/// it; else the report comes back and nothing changes. Taking the result leaves
/// none behind and does not make room for another one.
pub proof fn law_completions_hold_one_report<T>(
    completion: CompletionView<T>,
    result: Result<T, String>,
)
    ensures
        !CompletionView::<T>::fresh().consumed && CompletionView::<T>::fresh().result is None,
        completion.consumed ==> {
            &&& completion.completed(result) == completion
            &&& completion.outcome(result) == CompletionOutcome::Duplicate(result)
        },
        !completion.consumed ==> {
            &&& completion.completed(result).consumed
            &&& completion.completed(result).result == Some(result)
            &&& completion.outcome(result) == CompletionOutcome::<T>::Accepted
        },
        completion.taken().result is None && completion.taken().consumed == completion.consumed,
{
}

/// A future accepts a report exactly where it has had none; it then holds it and
/// hands out the waker that was left behind, if there is one. Else the report
/// comes back and nothing changes. Taking the result, and leaving a waker behind,
/// change nothing else.
pub proof fn law_futures_hold_one_report<T>(
    future: FutureView<T>,
    result: Result<T, String>,
    waker: Waker,
)
    ensures
        FutureView::<T>::fresh() == (FutureView::<T> { consumed: false, result: None, waker: None }),
        future.consumed ==> {
            &&& future.completed(result) == future
            &&& future.outcome(result) == AsyncOutcome::Duplicate(result)
        },
        !future.consumed ==> {
            &&& future.completed(result).consumed && future.completed(result).waker is None
            &&& future.completed(result).result == Some(result)
            &&& future.outcome(result) == AsyncOutcome::<T>::Accepted(future.waker)
        },
        future.taken() == (FutureView { result: None, ..future }),
        future.awaited(waker) == (FutureView { waker: Some(waker), ..future }),
{
}

/// A pending poll changes nothing but the waker. It keeps the one that is there
/// only where `Waker::will_wake` says that it wakes the same task, and replaces
/// it, by a clone of the polling task's own, only where that says no.
pub proof fn law_pending_polls_change_only_the_waker<T>(
    future: FutureView<T>,
    waker: Waker,
    after: FutureView<T>,
)
    requires
        future.pending(waker, after),
    ensures
        after.consumed == future.consumed && after.result == future.result,
        after.waker matches Some(left) && (cloned(waker, left) || future.waker == Some(left)),
        match future.waker {
            Some(left) => (after.waker == Some(left) && call_ensures(
                Waker::will_wake,
                (&left, &waker),
                true,
            )) || ((after.waker matches Some(copy) && cloned(waker, copy)) && call_ensures(
                Waker::will_wake,
                (&left, &waker),
                false,
            )),
            None => after.waker matches Some(copy) && cloned(waker, copy),
        },
{
}

} // verus!
