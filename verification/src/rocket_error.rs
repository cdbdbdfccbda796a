use vstd::prelude::*;
use vstd::std_specs::convert::{FromSpec, FromSpecImpl, IntoSpec};
use core::convert::Infallible;
use embedded_sdmmc::SdMmcError;
use mavlink_core::error::{MessageReadError, MessageWriteError};

verus! {

#[verifier::external_type_specification]
#[verifier::external_body]
pub struct ExPostcardError(postcard::Error);

#[verifier::external_type_specification]
#[verifier::external_body]
#[verifier::reject_recursive_types(E)]
pub struct ExSdError<E: core::fmt::Debug>(embedded_sdmmc::Error<E>);

#[verifier::external_type_specification]
#[verifier::external_body]
pub struct ExSdMmcError(SdMmcError);

#[verifier::external_type_specification]
#[verifier::external_body]
pub struct ExMessageWriteError(MessageWriteError);

#[verifier::external_type_specification]
#[verifier::external_body]
pub struct ExMessageReadError(MessageReadError);

#[verifier::external_type_specification]
#[verifier::external_body]
#[verifier::reject_recursive_types(E)]
pub struct ExNbError<E>(nb::Error<E>);

/// What was going on when an error was raised.
#[derive(Clone, Copy, Debug, PartialEq, Eq, Structural)]
pub enum ErrorContext {
    GroundStation,
    UnkownCanMessage,
    UnkownPostcardMessage,
    NoRadioTransfer,
}

/// Contains all the various error types that can be encountered in the Rocket codebase.
pub enum RocketErrorType {
    /// An Infallible error. This error should never happen.
    Infallible(Infallible),
    /// Error from the Postcard serialization library.
    PostcardError(postcard::Error),
    /// Error that occurred while spawning a task. Contains the name of the failed task.
    SpawnError(&'static str),
    /// Error from the SD card library.
    SdCardError(embedded_sdmmc::Error<SdMmcError>),
    /// Error while writing a Mavlink message.
    MavlinkError(MessageWriteError),
    /// Error while reading a Mavlink message.
    MavlinkReadError(MessageReadError),
    /// Error from a non-blocking operation.
    NbError(nb::Error<Infallible>),
}

/// The text that opens the description of a postcard error; the text of the
/// postcard error follows it.
pub open spec fn postcard_message_prefix() -> Seq<char> {
    "Postcard error: "@
}

/// The description of a failed task spawn.
pub open spec fn spawn_message(task: Seq<char>) -> Seq<char> {
    "Could not spawn task '"@ + task + "'"@
}

/// The description of an error.
pub open spec fn spec_message(e: RocketErrorType) -> Seq<char> {
    match e {
        RocketErrorType::Infallible(_) => "Infallible error encountered!"@,
        RocketErrorType::PostcardError(p) => postcard_message_prefix() + postcard_error_text(p),
        RocketErrorType::SpawnError(task) => spawn_message(task@),
        RocketErrorType::SdCardError(_) => "SD card error!"@,
        RocketErrorType::MavlinkError(_) => "Mavlink error!"@,
        RocketErrorType::MavlinkReadError(_) => "Mavlink read error!"@,
        RocketErrorType::NbError(_) => "Nb error!"@,
    }
}

/// The text that postcard's derived `Debug` formatting writes for `e`: the
/// name of its variant.
pub uninterp spec fn postcard_error_text(e: postcard::Error) -> Seq<char>;

/// Formats `e` with postcard's derived `Debug` (through `format!`). The
/// contract claims only that the text is a function of `e` alone, named
/// `postcard_error_text`; which text it is, is not stated.
#[verifier::external_body]
fn postcard_error_name(e: &postcard::Error) -> (r: String)
    ensures
        r@ == postcard_error_text(*e),
{
    format!("{:?}", e)
}

impl RocketErrorType {
    /// Human-readable description of the error.
    pub fn message(&self) -> (r: String)
        ensures
            r@ == spec_message(*self),
    {
        match self {
            RocketErrorType::Infallible(_) => String::from_str("Infallible error encountered!"),
            RocketErrorType::PostcardError(e) => {
                let prefix = String::from_str("Postcard error: ");
                let name = postcard_error_name(e);
                prefix.concat(name.as_str())
            },
            RocketErrorType::SpawnError(task) => {
                let s = String::from_str("Could not spawn task '");
                let s = s.concat(task);
                s.concat("'")
            },
            RocketErrorType::SdCardError(_) => String::from_str("SD card error!"),
            RocketErrorType::MavlinkError(_) => String::from_str("Mavlink error!"),
            RocketErrorType::MavlinkReadError(_) => String::from_str("Mavlink read error!"),
            RocketErrorType::NbError(_) => String::from_str("Nb error!"),
        }
    }
}

/// Standard Rocket error: an error together with an optional context.
/// This type should be used as the return type for most functions that can
/// fail and that return a `Result`.
pub struct RocketError {
    error: RocketErrorType,
    context: Option<ErrorContext>,
}

impl RocketError {
    /// The error that was raised.
    pub closed spec fn spec_error(&self) -> RocketErrorType {
        self.error
    }

    /// The context attached to the error, if any.
    pub closed spec fn spec_context(&self) -> Option<ErrorContext> {
        self.context
    }

    /// The error made of `error` and `context`.
    pub closed spec fn spec_new(error: RocketErrorType, context: Option<ErrorContext>) -> RocketError {
        RocketError { error, context }
    }

    /// An error is made of the error and the context it was built from.
    pub broadcast proof fn lemma_spec_new(error: RocketErrorType, context: Option<ErrorContext>)
        ensures
            #[trigger] RocketError::spec_new(error, context).spec_error() == error,
            RocketError::spec_new(error, context).spec_context() == context,
    {
    }

    pub fn get_context(&self) -> (r: Option<ErrorContext>)
        ensures
            r == self.spec_context(),
    {
        self.context
    }

    /// The error that was raised.
    pub fn error(&self) -> (r: &RocketErrorType)
        ensures
            *r == self.spec_error(),
    {
        &self.error
    }

    /// The error made of `error` and `context`.
    pub fn new(error: RocketErrorType, context: Option<ErrorContext>) -> (r: Self)
        ensures
            r.spec_error() == error,
            r.spec_context() == context,
    {
        RocketError { error, context }
    }

    /// The error and the context, taken apart.
    pub fn into_parts(self) -> (r: (RocketErrorType, Option<ErrorContext>))
        ensures
            r.0 == self.spec_error(),
            r.1 == self.spec_context(),
    {
        (self.error, self.context)
    }
}

/// Utility trait for converting a task spawn error into a [`RocketError`].
pub trait SpawnError {
    fn spawn_error(self, task: &'static str) -> Result<(), RocketError>;
}

impl<T, E> SpawnError for Result<T, E> {
    /// Converts a spawn error into a [`RocketError`]. While this function can be used on any
    /// `Result`, it should only be called on a `Result` from a spawn operation.
    fn spawn_error(self, task: &'static str) -> (r: Result<(), RocketError>)
        ensures
            self is Ok ==> r is Ok,
            self is Err ==> (r matches Err(err) && err.spec_error() == RocketErrorType::SpawnError(task)
                && err.spec_context() is None),
    {
        match self {
            Ok(_) => Ok(()),
            Err(_) => Err(RocketError { error: RocketErrorType::SpawnError(task), context: None }),
        }
    }
}

/// Allow anything that converts into a [`RocketErrorType`] to convert into a [`RocketError`].
impl<E> From<E> for RocketError where E: Into<RocketErrorType> {
    /// The error is what the conversion into [`RocketErrorType`] gives, and no
    /// context is attached.
    fn from(value: E) -> (r: Self)
        ensures
            call_ensures(<E as Into<RocketErrorType>>::into, (value,), r.spec_error()),
            r.spec_context() is None,
    {
        RocketError { error: value.into(), context: None }
    }
}

impl<E> FromSpecImpl<E> for RocketError where E: Into<RocketErrorType> {
    open spec fn obeys_from_spec() -> bool {
        <E as IntoSpec<RocketErrorType>>::obeys_into_spec()
    }

    open spec fn from_spec(v: E) -> Self {
        RocketError::spec_new(v.into_spec(), None)
    }
}

/// core's reflexive conversion `impl<T> From<T> for T`, which hands its
/// argument back. The contract claims exactly that; vstd gives it no
/// specification of its own.
pub assume_specification<A>[ <A as core::convert::From<A>>::from ](a: A) -> (r: A)
    ensures
        r == a,
;

/// Trait to allow converting some errors to a [`RocketError`], while also adding an
/// [`ErrorContext`] to it.
pub trait ErrorContextTrait<T> {
    fn error_context(self, context: ErrorContext) -> Result<T, RocketError>;
}

impl<T, E> ErrorContextTrait<T> for Result<T, E> where E: Into<RocketErrorType> {
    fn error_context(self, context: ErrorContext) -> (r: Result<T, RocketError>)
        ensures
            match self {
                Ok(v) => r == Ok::<T, RocketError>(v),
                Err(e) => r matches Err(err) && err.spec_context() == Some(context)
                    && call_ensures(<E as Into<RocketErrorType>>::into, (e,), err.spec_error())
                    && (<E as IntoSpec<RocketErrorType>>::obeys_into_spec()
                        ==> err.spec_error() == e.into_spec()),
            },
    {
        match self {
            Ok(v) => Ok(v),
            Err(e) => Err(RocketError { error: e.into(), context: Some(context) }),
        }
    }
}

impl From<Infallible> for RocketErrorType {
    fn from(value: Infallible) -> (r: Self)
        ensures
            r == RocketErrorType::Infallible(value),
    {
        RocketErrorType::Infallible(value)
    }
}

impl FromSpecImpl<Infallible> for RocketErrorType {
    open spec fn obeys_from_spec() -> bool {
        true
    }

    open spec fn from_spec(v: Infallible) -> Self {
        RocketErrorType::Infallible(v)
    }
}

impl From<postcard::Error> for RocketErrorType {
    fn from(value: postcard::Error) -> (r: Self)
        ensures
            r == RocketErrorType::PostcardError(value),
    {
        RocketErrorType::PostcardError(value)
    }
}

impl FromSpecImpl<postcard::Error> for RocketErrorType {
    open spec fn obeys_from_spec() -> bool {
        true
    }

    open spec fn from_spec(v: postcard::Error) -> Self {
        RocketErrorType::PostcardError(v)
    }
}

impl From<&'static str> for RocketErrorType {
    fn from(value: &'static str) -> (r: Self)
        ensures
            r == RocketErrorType::SpawnError(value),
    {
        RocketErrorType::SpawnError(value)
    }
}

impl FromSpecImpl<&'static str> for RocketErrorType {
    open spec fn obeys_from_spec() -> bool {
        true
    }

    open spec fn from_spec(v: &'static str) -> Self {
        RocketErrorType::SpawnError(v)
    }
}

impl From<embedded_sdmmc::Error<SdMmcError>> for RocketErrorType {
    fn from(value: embedded_sdmmc::Error<SdMmcError>) -> (r: Self)
        ensures
            r == RocketErrorType::SdCardError(value),
    {
        RocketErrorType::SdCardError(value)
    }
}

impl FromSpecImpl<embedded_sdmmc::Error<SdMmcError>> for RocketErrorType {
    open spec fn obeys_from_spec() -> bool {
        true
    }

    open spec fn from_spec(v: embedded_sdmmc::Error<SdMmcError>) -> Self {
        RocketErrorType::SdCardError(v)
    }
}

impl From<MessageWriteError> for RocketErrorType {
    fn from(value: MessageWriteError) -> (r: Self)
        ensures
            r == RocketErrorType::MavlinkError(value),
    {
        RocketErrorType::MavlinkError(value)
    }
}

impl FromSpecImpl<MessageWriteError> for RocketErrorType {
    open spec fn obeys_from_spec() -> bool {
        true
    }

    open spec fn from_spec(v: MessageWriteError) -> Self {
        RocketErrorType::MavlinkError(v)
    }
}

impl From<MessageReadError> for RocketErrorType {
    fn from(value: MessageReadError) -> (r: Self)
        ensures
            r == RocketErrorType::MavlinkReadError(value),
    {
        RocketErrorType::MavlinkReadError(value)
    }
}

impl FromSpecImpl<MessageReadError> for RocketErrorType {
    open spec fn obeys_from_spec() -> bool {
        true
    }

    open spec fn from_spec(v: MessageReadError) -> Self {
        RocketErrorType::MavlinkReadError(v)
    }
}

impl From<nb::Error<Infallible>> for RocketErrorType {
    fn from(value: nb::Error<Infallible>) -> (r: Self)
        ensures
            r == RocketErrorType::NbError(value),
    {
        RocketErrorType::NbError(value)
    }
}

impl FromSpecImpl<nb::Error<Infallible>> for RocketErrorType {
    open spec fn obeys_from_spec() -> bool {
        true
    }

    open spec fn from_spec(v: nb::Error<Infallible>) -> Self {
        RocketErrorType::NbError(v)
    }
}

/// Each conversion into [`RocketErrorType`] wraps its source, unchanged, in
/// the variant for that kind of error; a task name is kept whole.
pub proof fn lemma_conversions_wrap_the_source(
    i: Infallible,
    p: postcard::Error,
    t: &'static str,
    sd: embedded_sdmmc::Error<SdMmcError>,
    w: MessageWriteError,
    rd: MessageReadError,
    n: nb::Error<Infallible>,
)
    ensures
        <RocketErrorType as FromSpec<Infallible>>::obeys_from_spec(),
        <RocketErrorType as FromSpec<Infallible>>::from_spec(i) == RocketErrorType::Infallible(i),
        <RocketErrorType as FromSpec<postcard::Error>>::obeys_from_spec(),
        <RocketErrorType as FromSpec<postcard::Error>>::from_spec(p) == RocketErrorType::PostcardError(p),
        <RocketErrorType as FromSpec<&'static str>>::obeys_from_spec(),
        <RocketErrorType as FromSpec<&'static str>>::from_spec(t) == RocketErrorType::SpawnError(t),
        <RocketErrorType as FromSpec<&'static str>>::from_spec(t) matches RocketErrorType::SpawnError(x) && x@ == t@,
        <RocketErrorType as FromSpec<embedded_sdmmc::Error<SdMmcError>>>::obeys_from_spec(),
        <RocketErrorType as FromSpec<embedded_sdmmc::Error<SdMmcError>>>::from_spec(sd)
            == RocketErrorType::SdCardError(sd),
        <RocketErrorType as FromSpec<MessageWriteError>>::obeys_from_spec(),
        <RocketErrorType as FromSpec<MessageWriteError>>::from_spec(w) == RocketErrorType::MavlinkError(w),
        <RocketErrorType as FromSpec<MessageReadError>>::obeys_from_spec(),
        <RocketErrorType as FromSpec<MessageReadError>>::from_spec(rd) == RocketErrorType::MavlinkReadError(rd),
        <RocketErrorType as FromSpec<nb::Error<Infallible>>>::obeys_from_spec(),
        <RocketErrorType as FromSpec<nb::Error<Infallible>>>::from_spec(n) == RocketErrorType::NbError(n),
{
}

/// The description of each error, written out: a failed task spawn names the
/// whole task between quotes, a postcard error follows its prefix with the
/// postcard error's text, and every other kind has its fixed sentence.
pub proof fn lemma_message_texts(e: RocketErrorType)
    ensures
        e matches RocketErrorType::SpawnError(t) ==> spec_message(e) == "Could not spawn task '"@ + t@ + "'"@
            && spec_message(e).len() == t@.len() + 23,
        e matches RocketErrorType::PostcardError(p) ==> spec_message(e) == "Postcard error: "@ + postcard_error_text(p),
        e is Infallible ==> spec_message(e) == "Infallible error encountered!"@,
        e is SdCardError ==> spec_message(e) == "SD card error!"@,
        e is MavlinkError ==> spec_message(e) == "Mavlink error!"@,
        e is MavlinkReadError ==> spec_message(e) == "Mavlink read error!"@,
        e is NbError ==> spec_message(e) == "Nb error!"@,
{
    reveal_strlit("Could not spawn task '");
    reveal_strlit("'");
}

} // verus!
