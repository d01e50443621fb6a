//! Contexts of callbacks that foreign code may call after their owner has gone.
//!
//! A context holds a value for as long as anybody has a reference to it: the
//! owner's handle is one, and foreign code takes and gives back others. A
//! callback reaches the value only while the context is active; the end of the
//! owner's handle deactivates it for good, though foreign code may keep it.
//!
//! Counting references on several threads at once, and addresses, are the work
//! of whoever shares a context. The operations here are the steps in which its
//! count, its flag and its value change.
use vstd::prelude::*;

verus! {

/// What a context is, as far as its users can tell.
#[verifier::ext_equal]
pub struct ContextView<T> {
    /// Whether callbacks may reach the value.
    pub active: bool,
    /// The number of references.
    pub strong: nat,
    /// The value, until the last reference goes.
    pub value: Option<T>,
}

impl<T> ContextView<T> {
    /// The value is there as long as there is a reference.
    pub open spec fn wf(self) -> bool {
        &&& self.value is Some == (self.strong > 0)
        &&& self.strong <= usize::MAX
    }

    /// Whether there is a reference, and so a value.
    pub open spec fn live(self) -> bool {
        self.wf() && self.strong > 0
    }

    /// With one more reference.
    pub open spec fn retained(self) -> Self {
        ContextView { strong: self.strong + 1, ..self }
    }

    /// With one reference less. The value goes with the last one.
    pub open spec fn released(self) -> Self {
        ContextView {
            strong: (self.strong - 1) as nat,
            value: if self.strong == 1 {
                None
            } else {
                self.value
            },
            ..self
        }
    }

    /// The value that goes with the reference.
    pub open spec fn freed(self) -> Option<T> {
        if self.strong == 1 {
            self.value
        } else {
            None
        }
    }

    /// Out of reach of callbacks.
    pub open spec fn deactivated(self) -> Self {
        ContextView { active: false, ..self }
    }
}

/// Whether a callback may run, given what was seen of its context: nothing where
/// there is none, else whether it is active.
pub fn may_run(active: Option<bool>) -> (run: bool)
    ensures
        run == (active == Some(true)),
{
    match active {
        Some(active) => active,
        None => false,
    }
}

/// A value that callbacks reach while their owner wants them to.
pub struct CallbackContext<T> {
    active: bool,
    strong: usize,
    value: Option<T>,
}

impl<T> View for CallbackContext<T> {
    type V = ContextView<T>;

    closed spec fn view(&self) -> ContextView<T> {
        ContextView { active: self.active, strong: self.strong as nat, value: self.value }
    }
}

impl<T> CallbackContext<T> {
    /// Makes an active context with one reference, that of the owner's handle.
    pub fn new(value: T) -> (context: Self)
        ensures
            context@ == (ContextView { active: true, strong: 1, value: Some(value) }),
            context@.live(),
    {
        CallbackContext { active: true, strong: 1, value: Some(value) }
    }

    /// Puts the value out of reach of callbacks.
    pub fn deactivate(&mut self)
        ensures
            final(self)@ == old(self)@.deactivated(),
    {
        self.active = false;
    }

    /// Whether callbacks may reach the value.
    pub fn is_active(&self) -> (active: bool)
        ensures
            active == self@.active,
    {
        self.active
    }

    /// The number of references.
    pub fn strong_count(&self) -> (count: usize)
        ensures
            count == self@.strong,
    {
        self.strong
    }

    /// The value, active or not.
    pub fn get(&self) -> (value: &T)
        requires
            self@.live(),
        ensures
            Some(*value) == self@.value,
    {
        self.value.as_ref().unwrap()
    }

    /// Runs a callback on the value, unless there is no context or it is
    /// deactivated. The callback contains its own panics: it gives nothing
    /// where it panicked. It has to be ready for the value only where the
    /// context is active, so it is not run in any other case.
    pub fn with<R, F: FnOnce(&T) -> Option<R>>(context: Option<&Self>, f: F) -> (result: Option<R>)
        requires
            context matches Some(c) ==> c@.live() && (c@.active ==> f.requires((&c@.value->0,))),
        ensures
            match context {
                Some(c) => if c@.active {
                    f.ensures((&c@.value->0,), result)
                } else {
                    result is None
                },
                None => result is None,
            },
    {
        match context {
            None => None,
            Some(c) => {
                if !may_run(Some(c.active)) {
                    return None;
                }
                f(c.get())
            },
        }
    }

    /// Takes one more reference, if there is a context.
    pub fn retain(context: Option<&mut Self>)
        requires
            context matches Some(c) ==> c@.live() && c@.strong < usize::MAX,
        ensures
            context matches Some(c) ==> final(c)@ == c@.retained() && final(c)@.live(),
    {
        if let Some(c) = context {
            c.strong = c.strong + 1;
        }
    }

    /// Gives a reference back, if there is a context. The value comes out with
    /// the last one, to be destroyed.
    pub fn release(context: Option<&mut Self>) -> (freed: Option<T>)
        requires
            context matches Some(c) ==> c@.live(),
        ensures
            match context {
                Some(c) => {
                    &&& final(c)@ == c@.released()
                    &&& final(c)@.wf()
                    &&& freed == c@.freed()
                },
                None => freed is None,
            },
    {
        match context {
            None => None,
            Some(c) => {
                c.strong = c.strong - 1;
                if c.strong == 0 {
                    c.value.take()
                } else {
                    None
                }
            },
        }
    }

    /// Ends the owner's handle: deactivates the context and gives the handle's
    /// reference back. The value comes out with the last reference, to be
    /// destroyed.
    pub fn drop_handle(&mut self) -> (freed: Option<T>)
        requires
            old(self)@.live(),
        ensures
            final(self)@ == old(self)@.deactivated().released(),
            final(self)@.wf(),
            freed == old(self)@.freed(),
    {
        self.deactivate();
        Self::release(Some(self))
    }
}

/// A step of a context's life after its owner has made it.
pub enum ContextStep {
    /// [`CallbackContext::retain`].
    Retain,
    /// [`CallbackContext::release`].
    Release,
    /// [`CallbackContext::deactivate`].
    Deactivate,
    /// [`CallbackContext::drop_handle`].
    DropHandle,
}

/// A context after a step.
pub open spec fn step_context<T>(context: ContextView<T>, step: ContextStep) -> ContextView<T> {
    match step {
        ContextStep::Retain => context.retained(),
        ContextStep::Release => context.released(),
        ContextStep::Deactivate => context.deactivated(),
        ContextStep::DropHandle => context.deactivated().released(),
    }
}

/// A context after some references have been taken, and then as many given back.
pub open spec fn retain_and_release<T>(context: ContextView<T>, count: nat) -> ContextView<T>
    decreases count,
{
    if count == 0 {
        context
    } else {
        retain_and_release(context.retained(), (count - 1) as nat).released()
    }
}

/// Taking references and giving as many back leaves a context as it was.
pub proof fn law_balanced_references_change_nothing<T>(context: ContextView<T>, count: nat)
    requires
        context.strong > 0,
        context.strong + count <= usize::MAX,
    ensures
        retain_and_release(context, count) == context,
    decreases count,
{
    if count > 0 {
        law_balanced_references_change_nothing(context.retained(), (count - 1) as nat);
    }
}

/// A context never becomes active again.
pub proof fn law_deactivation_is_final<T>(context: ContextView<T>, step: ContextStep)
    requires
        !context.active,
    ensures
        !step_context(context, step).active,
{
}

/// The value stays in place, unchanged, as long as a reference is left, and
/// comes out exactly with the last one.
pub proof fn law_value_lives_as_long_as_a_reference<T>(context: ContextView<T>, step: ContextStep)
    requires
        context.live(),
        step is Retain ==> context.strong < usize::MAX,
    ensures
        step_context(context, step).wf(),
        step_context(context, step).strong > 0 ==> step_context(context, step).value
            == context.value,
        (step is Release || step is DropHandle) ==> {
            &&& context.freed() is Some == (step_context(context, step).strong == 0)
            &&& context.freed() is Some ==> context.freed() == context.value
        },
{
}

/// The end of the owner's handle puts the value out of reach of callbacks, also
/// where foreign code keeps the context alive.
pub proof fn law_dropped_handle_stops_callbacks<T>(context: ContextView<T>)
    requires
        context.live(),
    ensures
        !step_context(context, ContextStep::DropHandle).active,
        context.strong > 1 ==> step_context(context, ContextStep::DropHandle).live(),
{
}

/// Taking a reference and giving one back count by one and change nothing else;
/// the value comes out with the last reference and with no other. Deactivation
/// changes only whether callbacks may reach the value.
pub proof fn law_references_are_counted<T>(context: ContextView<T>)
    requires
        context.live(),
    ensures
        context.value is Some,
        context.retained() == (ContextView { strong: context.strong + 1, ..context }),
        context.strong >= 2 ==> {
            &&& context.released() == (ContextView { strong: (context.strong - 1) as nat, ..context })
            &&& context.freed() is None
        },
        context.strong == 1 ==> {
            &&& context.released().strong == 0 && context.released().value is None
            &&& context.released().active == context.active
            &&& context.freed() == context.value
        },
        context.deactivated() == (ContextView { active: false, ..context }),
{
}

/// A context is valid where it has a value exactly while it has a reference, and
/// live where it has one. Nothing more is asked of a context.
pub proof fn law_what_contexts_keep<T>(context: ContextView<T>)
    ensures
        context.wf() <==> (context.strong > 0 <==> context.value is Some) && context.strong
            <= usize::MAX,
        context.live() <==> context.value is Some && 1 <= context.strong <= usize::MAX,
{
}

/// Each reference that is given back brings the value closer to its end, and the
/// last one brings it: after all of them but the last, the value is still in
/// place, and it has come out exactly once.
pub proof fn law_value_comes_out_with_the_last_reference<T>(context: ContextView<T>, given_back: nat)
    requires
        context.live(),
        given_back < context.strong,
    ensures
        release_many(context, given_back).value == context.value,
        release_many(context, given_back).strong == context.strong - given_back,
        release_many(context, given_back).freed() is Some <==> given_back + 1 == context.strong,
    decreases given_back,
{
    if given_back > 0 {
        law_value_comes_out_with_the_last_reference(context, (given_back - 1) as nat);
    }
}

/// A context after this many references have been given back.
pub open spec fn release_many<T>(context: ContextView<T>, count: nat) -> ContextView<T>
    decreases count,
{
    if count == 0 {
        context
    } else {
        release_many(context, (count - 1) as nat).released()
    }
}

} // verus!
