use vstd::prelude::*;
use crate::error::{ErrorView, JavaTestError};
use crate::names::{
    class_key, class_not_found_message, exception_message, make_class_key,
    make_class_not_found_message, make_exception_message, make_method_key,
    make_method_not_found_message, make_vm_unavailable_message, make_void_signature, method_key,
    method_not_found_message, vm_unavailable_message, void_signature,
};

verus! {

/// Where one test invocation stands.
#[derive(PartialEq, Eq, Structural, Clone, Copy, Debug)]
pub enum Stage {
    /// Waiting for the calling thread's JVM environment.
    Idle,
    /// The class lookup was requested.
    ResolvingClass,
    /// The static method lookup was requested.
    ResolvingMethod,
    /// The method call was requested.
    Invoking,
    /// The check for a pending exception was requested.
    CheckingException,
    /// A pending exception is being described and cleared.
    ClearingException,
    /// The invocation is over: its outcome was reported or it aborted.
    Finished,
}

/// What the driver saw after it performed the last action.
#[derive(PartialEq, Eq, Structural, Clone, Copy, Debug)]
pub enum Event {
    /// Whether the calling thread has a JVM environment.
    Environment { available: bool },
    /// Whether the class lookup found the class.
    ClassLookup { found: bool },
    /// Whether the static method lookup found the method.
    MethodLookup { found: bool },
    /// The called method returned control.
    Returned,
    /// Whether an exception is pending after the call.
    ExceptionCheck { pending: bool },
    /// The pending exception was described and cleared.
    ExceptionCleared,
}

/// What the driver is to do next.
pub enum Action {
    /// Look up the class under the given NUL-terminated key.
    FindClass { key: String },
    /// Look up the static method of the found class with the given
    /// NUL-terminated name and signature.
    GetStaticMethodId { name: String, signature: String },
    /// Call the found method with no arguments.
    CallStaticVoidMethod,
    /// Ask the JVM whether an exception is pending.
    CheckException,
    /// Print the pending exception and clear it.
    DescribeAndClearException,
    /// Hand this outcome to the caller.
    Report(Result<(), JavaTestError>),
    /// Stop the process with this message: the test setup is broken.
    Abort { message: String },
}

/// The model of an [`Action`].
pub enum ActionView {
    FindClass { key: Seq<char> },
    GetStaticMethodId { name: Seq<char>, signature: Seq<char> },
    CallStaticVoidMethod,
    CheckException,
    DescribeAndClearException,
    Report(Result<(), ErrorView>),
    Abort { message: Seq<char> },
}

impl View for Action {
    type V = ActionView;

    open spec fn view(&self) -> ActionView {
        match self {
            Action::FindClass { key } => ActionView::FindClass { key: key@ },
            Action::GetStaticMethodId { name, signature } => ActionView::GetStaticMethodId {
                name: name@,
                signature: signature@,
            },
            Action::CallStaticVoidMethod => ActionView::CallStaticVoidMethod,
            Action::CheckException => ActionView::CheckException,
            Action::DescribeAndClearException => ActionView::DescribeAndClearException,
            Action::Report(r) => ActionView::Report(
                match r {
                    Ok(()) => Ok(()),
                    Err(e) => Err(e@),
                },
            ),
            Action::Abort { message } => ActionView::Abort { message: message@ },
        }
    }
}

/// The test method named by an invocation.
pub struct Target {
    pub package: Seq<char>,
    pub class: Seq<char>,
    pub method: Seq<char>,
}

/// The message of the abort when the driver reports an event that does not
/// answer the last action.
pub open spec fn protocol_violation_message() -> Seq<char> {
    "unexpected event in a Java test invocation"@
}

/// One step of an invocation of `t`: from `stage`, on event `e`, the next stage
/// and the action that the driver is to perform.
pub open spec fn next(t: Target, stage: Stage, e: Event) -> (Stage, ActionView) {
    match (stage, e) {
        (Stage::Idle, Event::Environment { available }) => if available {
            (Stage::ResolvingClass, ActionView::FindClass { key: class_key(t.package, t.class) })
        } else {
            (Stage::Finished, ActionView::Abort { message: vm_unavailable_message() })
        },
        (Stage::ResolvingClass, Event::ClassLookup { found }) => if found {
            (
                Stage::ResolvingMethod,
                ActionView::GetStaticMethodId {
                    name: method_key(t.method),
                    signature: void_signature(),
                },
            )
        } else {
            (
                Stage::Finished,
                ActionView::Abort { message: class_not_found_message(t.package, t.class) },
            )
        },
        (Stage::ResolvingMethod, Event::MethodLookup { found }) => if found {
            (Stage::Invoking, ActionView::CallStaticVoidMethod)
        } else {
            (
                Stage::Finished,
                ActionView::Abort { message: method_not_found_message(t.class, t.method) },
            )
        },
        (Stage::Invoking, Event::Returned) => (Stage::CheckingException, ActionView::CheckException),
        (Stage::CheckingException, Event::ExceptionCheck { pending }) => if pending {
            (Stage::ClearingException, ActionView::DescribeAndClearException)
        } else {
            (Stage::Finished, ActionView::Report(Ok(())))
        },
        (Stage::ClearingException, Event::ExceptionCleared) => (
            Stage::Finished,
            ActionView::Report(Err(ErrorView::Unknown(exception_message(t.class, t.method)))),
        ),
        _ => (Stage::Finished, ActionView::Abort { message: protocol_violation_message() }),
    }
}

/// The actions of an invocation of `t` that starts at `stage` and sees `events`.
pub open spec fn trace(t: Target, stage: Stage, events: Seq<Event>) -> Seq<ActionView>
    decreases events.len(),
{
    if events.len() == 0 {
        seq![]
    } else {
        let (s, a) = next(t, stage, events[0]);
        seq![a] + trace(t, s, events.drop_first())
    }
}

/// The stage that an invocation of `t` reaches from `stage` through `events`.
pub open spec fn stage_after(t: Target, stage: Stage, events: Seq<Event>) -> Stage
    decreases events.len(),
{
    if events.len() == 0 {
        stage
    } else {
        stage_after(t, next(t, stage, events[0]).0, events.drop_first())
    }
}

/// The model of an [`Invocation`].
pub struct InvocationView {
    pub target: Target,
    pub stage: Stage,
}

/// One invocation of a static, void, argument-free Java method, as a machine
/// that a driver runs: it performs each [`Action`] against the JVM and feeds
/// back what it saw as an [`Event`].
pub struct Invocation {
    package: String,
    class: String,
    method: String,
    stage: Stage,
}

impl View for Invocation {
    type V = InvocationView;

    closed spec fn view(&self) -> InvocationView {
        InvocationView {
            target: Target { package: self.package@, class: self.class@, method: self.method@ },
            stage: self.stage,
        }
    }
}

impl Invocation {
    /// An invocation of `package.class.method()` that has not started.
    pub fn new(package: &str, class: &str, method: &str) -> (r: Invocation)
        ensures
            r@ == (InvocationView {
                target: Target { package: package@, class: class@, method: method@ },
                stage: Stage::Idle,
            }),
    {
        Invocation {
            package: String::from_str(package),
            class: String::from_str(class),
            method: String::from_str(method),
            stage: Stage::Idle,
        }
    }

    /// Where the invocation stands.
    pub fn stage(&self) -> (r: Stage)
        ensures
            r == self@.stage,
    {
        self.stage
    }

    /// Whether the invocation is over.
    pub fn is_finished(&self) -> (r: bool)
        ensures
            r == (self@.stage == Stage::Finished),
    {
        self.stage == Stage::Finished
    }

    /// Takes in what the driver saw and says what it is to do next.
    pub fn step(&mut self, event: Event) -> (a: Action)
        ensures
            final(self)@.target == old(self)@.target,
            (final(self)@.stage, a@) == next(old(self)@.target, old(self)@.stage, event),
    {
        let (stage, action) = match (self.stage, event) {
            (Stage::Idle, Event::Environment { available }) => if available {
                (
                    Stage::ResolvingClass,
                    Action::FindClass { key: make_class_key(self.package.as_str(), self.class.as_str()) },
                )
            } else {
                (Stage::Finished, Action::Abort { message: make_vm_unavailable_message() })
            },
            (Stage::ResolvingClass, Event::ClassLookup { found }) => if found {
                (
                    Stage::ResolvingMethod,
                    Action::GetStaticMethodId {
                        name: make_method_key(self.method.as_str()),
                        signature: make_void_signature(),
                    },
                )
            } else {
                (
                    Stage::Finished,
                    Action::Abort {
                        message: make_class_not_found_message(
                            self.package.as_str(),
                            self.class.as_str(),
                        ),
                    },
                )
            },
            (Stage::ResolvingMethod, Event::MethodLookup { found }) => if found {
                (Stage::Invoking, Action::CallStaticVoidMethod)
            } else {
                (
                    Stage::Finished,
                    Action::Abort {
                        message: make_method_not_found_message(
                            self.class.as_str(),
                            self.method.as_str(),
                        ),
                    },
                )
            },
            (Stage::Invoking, Event::Returned) => (Stage::CheckingException, Action::CheckException),
            (Stage::CheckingException, Event::ExceptionCheck { pending }) => if pending {
                (Stage::ClearingException, Action::DescribeAndClearException)
            } else {
                (Stage::Finished, Action::Report(Ok(())))
            },
            (Stage::ClearingException, Event::ExceptionCleared) => (
                Stage::Finished,
                Action::Report(
                    Err(
                        JavaTestError::Unknown(
                            make_exception_message(self.class.as_str(), self.method.as_str()),
                        ),
                    ),
                ),
            ),
            _ => (
                Stage::Finished,
                Action::Abort {
                    message: String::from_str("unexpected event in a Java test invocation"),
                },
            ),
        };
        self.stage = stage;
        action
    }
}

} // verus!
