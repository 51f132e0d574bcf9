use vstd::prelude::*;

verus! {

/// The error that a test invocation reports back to its caller.
#[derive(Clone)]
pub enum JavaTestError {
    /// A failure described by a free-text message.
    Unknown(String),
    /// Reserved for structured error kinds; never built by this library.
    _NonExhaustive,
}

/// The model of a [`JavaTestError`]: its variant, with the text of its message.
pub enum ErrorView {
    Unknown(Seq<char>),
    NonExhaustive,
}

impl View for JavaTestError {
    type V = ErrorView;

    open spec fn view(&self) -> ErrorView {
        match self {
            JavaTestError::Unknown(m) => ErrorView::Unknown(m@),
            JavaTestError::_NonExhaustive => ErrorView::NonExhaustive,
        }
    }
}

/// The text that stands for an error.
pub open spec fn error_text(e: ErrorView) -> Seq<char> {
    match e {
        ErrorView::Unknown(m) => m,
        ErrorView::NonExhaustive => "NonExhaustive"@,
    }
}

impl JavaTestError {
    /// The text of the error, as it is displayed.
    pub fn message(&self) -> (r: &str)
        ensures
            r@ == error_text(self@),
    {
        match self {
            JavaTestError::Unknown(m) => m.as_str(),
            JavaTestError::_NonExhaustive => "NonExhaustive",
        }
    }
}

impl From<String> for JavaTestError {
    fn from(value: String) -> (r: JavaTestError) {
        JavaTestError::Unknown(value)
    }
}

impl vstd::std_specs::convert::FromSpecImpl<String> for JavaTestError {
    open spec fn obeys_from_spec() -> bool {
        true
    }

    open spec fn from_spec(v: String) -> JavaTestError {
        JavaTestError::Unknown(v)
    }
}

impl<'a> From<&'a str> for JavaTestError {
    fn from(value: &'a str) -> (r: JavaTestError)
        ensures
            r@ == ErrorView::Unknown(value@),
    {
        JavaTestError::Unknown(String::from_str(value))
    }
}

impl<'a> vstd::std_specs::convert::FromSpecImpl<&'a str> for JavaTestError {
    /// A `String` cannot be built in spec code, so the conversion is described
    /// by the `ensures` of `from` instead.
    open spec fn obeys_from_spec() -> bool {
        false
    }

    open spec fn from_spec(v: &'a str) -> JavaTestError {
        arbitrary()
    }
}

} // verus!
