//! What a sync provider reports of its state and of its errors.
use vstd::prelude::*;

use crate::utility::{decimal_units, push_decimal};

pub mod basic;
pub mod printer;

pub use crate::error::CloudErrorKind;

verus! {

/// A link shown with an error: where it points and what it reads.
#[derive(Debug, Clone)]
pub struct Details {
    uri: Vec<u16>,
    label: Vec<u16>,
}

/// The link and the text of a [`Details`].
pub ghost struct DetailsView {
    pub uri: Seq<u16>,
    pub label: Seq<u16>,
}

impl View for Details {
    type V = DetailsView;

    closed spec fn view(&self) -> DetailsView {
        DetailsView { uri: self.uri@, label: self.label@ }
    }
}

impl Details {
    /// A link to `uri` that reads `label`.
    pub fn new(uri: Vec<u16>, label: Vec<u16>) -> (r: Self)
        ensures
            r@ == (DetailsView { uri: uri@, label: label@ }),
    {
        Details { uri, label }
    }

    /// Where the link points.
    pub fn uri(&self) -> (r: &[u16])
        ensures
            r@ == self@.uri,
    {
        self.uri.as_slice()
    }

    /// What the link reads.
    pub fn label(&self) -> (r: &[u16])
        ensures
            r@ == self@.label,
    {
        self.label.as_slice()
    }
}

/// The view of an optional link.
pub open spec fn details_view(details: Option<Details>) -> Option<DetailsView> {
    match details {
        Some(d) => Some(d@),
        None => None,
    }
}

/// What an error report holds.
pub ghost struct ReasonView {
    pub code: u32,
    pub title: Seq<u16>,
    pub message: Seq<u16>,
    pub info: Option<DetailsView>,
    pub primary_action: Option<DetailsView>,
    pub secondary_action: Option<DetailsView>,
}

/// A reason that a sync provider reports an error for.
pub trait ErrorReason {
    /// The code of the error, which identifies it.
    fn code(&self) -> u32;

    /// The title of the error.
    fn title(&self) -> &[u16];

    /// The message of the error.
    fn message(&self) -> &[u16];

    /// The kind of the error.
    fn kind(&self) -> (r: CloudErrorKind)
        default_ensures
            r == CloudErrorKind::Unsuccessful,
    {
        CloudErrorKind::Unsuccessful
    }

    /// A link with more information.
    fn info(&self) -> (r: Option<&Details>)
        default_ensures
            r is None,
    {
        None
    }

    /// A link to the primary action.
    fn primary_action(&self) -> (r: Option<&Details>)
        default_ensures
            r is None,
    {
        None
    }

    /// A link to the secondary action.
    fn secondary_action(&self) -> (r: Option<&Details>)
        default_ensures
            r is None,
    {
        None
    }
}

/// A boxed reason reports what the reason in the box reports, but for the
/// kind, which is the trait's default.
impl<T: ErrorReason> ErrorReason for Box<T> {
    fn code(&self) -> (r: u32)
        ensures
            call_ensures(T::code, (&**self,), r),
    {
        (**self).code()
    }

    fn title(&self) -> (r: &[u16])
        ensures
            call_ensures(T::title, (&**self,), r),
    {
        (**self).title()
    }

    fn message(&self) -> (r: &[u16])
        ensures
            call_ensures(T::message, (&**self,), r),
    {
        (**self).message()
    }

    fn info(&self) -> (r: Option<&Details>)
        ensures
            call_ensures(T::info, (&**self,), r),
    {
        (**self).info()
    }

    fn primary_action(&self) -> (r: Option<&Details>)
        ensures
            call_ensures(T::primary_action, (&**self,), r),
    {
        (**self).primary_action()
    }

    fn secondary_action(&self) -> (r: Option<&Details>)
        ensures
            call_ensures(T::secondary_action, (&**self,), r),
    {
        (**self).secondary_action()
    }
}

/// Builds a [`Reason`].
#[derive(Debug, Clone)]
pub struct ReasonBuilder {
    code: u32,
    title: Vec<u16>,
    message: Vec<u16>,
    info: Option<Details>,
    primary_action: Option<Details>,
    secondary_action: Option<Details>,
}

impl View for ReasonBuilder {
    type V = ReasonView;

    closed spec fn view(&self) -> ReasonView {
        ReasonView {
            code: self.code,
            title: self.title@,
            message: self.message@,
            info: details_view(self.info),
            primary_action: details_view(self.primary_action),
            secondary_action: details_view(self.secondary_action),
        }
    }
}

impl ReasonBuilder {
    /// A report of the error `code` with a title and a message (a text
    /// without nul units), and no links.
    pub fn new(code: u32, title: Vec<u16>, message: Vec<u16>) -> (r: Self)
        requires
            !message@.contains(0u16),
        ensures
            r@ == (ReasonView {
                code,
                title: title@,
                message: message@,
                info: None,
                primary_action: None,
                secondary_action: None,
            }),
    {
        ReasonBuilder {
            code,
            title,
            message,
            info: None,
            primary_action: None,
            secondary_action: None,
        }
    }

    /// Adds a link with more information.
    pub fn info(&mut self, details: Details) -> (r: &mut Self)
        ensures
            r@ == (ReasonView { info: Some(details@), ..old(self)@ }),
            *final(self) == *final(r),
    {
        self.info = Some(details);
        self
    }

    /// Adds a link to the primary action.
    pub fn primary_action(&mut self, details: Details) -> (r: &mut Self)
        ensures
            r@ == (ReasonView { primary_action: Some(details@), ..old(self)@ }),
            *final(self) == *final(r),
    {
        self.primary_action = Some(details);
        self
    }

    /// Adds a link to the secondary action.
    pub fn secondary_action(&mut self, details: Details) -> (r: &mut Self)
        ensures
            r@ == (ReasonView { secondary_action: Some(details@), ..old(self)@ }),
            *final(self) == *final(r),
    {
        self.secondary_action = Some(details);
        self
    }

    /// The report.
    pub fn build(self) -> (r: Reason)
        ensures
            r@ == self@,
    {
        Reason {
            code: self.code,
            title: self.title,
            message: self.message,
            info: self.info,
            primary_action: self.primary_action,
            secondary_action: self.secondary_action,
        }
    }
}

/// An error report.
#[derive(Debug, Clone)]
pub struct Reason {
    code: u32,
    title: Vec<u16>,
    message: Vec<u16>,
    info: Option<Details>,
    primary_action: Option<Details>,
    secondary_action: Option<Details>,
}

impl View for Reason {
    type V = ReasonView;

    closed spec fn view(&self) -> ReasonView {
        ReasonView {
            code: self.code,
            title: self.title@,
            message: self.message@,
            info: details_view(self.info),
            primary_action: details_view(self.primary_action),
            secondary_action: details_view(self.secondary_action),
        }
    }
}

/// An optional link, borrowed.
fn borrow_details(details: &Option<Details>) -> (r: Option<&Details>)
    ensures
        details_view(*details) == match r {
            Some(d) => Some(d@),
            None => None::<DetailsView>,
        },
{
    match details {
        Some(d) => Some(d),
        None => None,
    }
}

impl Reason {
    /// The code of the error written in decimal, the identifier the platform
    /// is given for the report.
    pub fn code_units(&self) -> (r: Vec<u16>)
        ensures
            r@ == decimal_units(self@.code as nat),
    {
        let mut units: Vec<u16> = Vec::new();
        push_decimal(&mut units, self.code);
        assert(units@ =~= decimal_units(self@.code as nat));
        units
    }
}

impl ErrorReason for Reason {
    fn code(&self) -> (r: u32)
        ensures
            r == self@.code,
    {
        self.code
    }

    fn title(&self) -> (r: &[u16])
        ensures
            r@ == self@.title,
    {
        self.title.as_slice()
    }

    fn message(&self) -> (r: &[u16])
        ensures
            r@ == self@.message,
    {
        self.message.as_slice()
    }

    fn info(&self) -> (r: Option<&Details>)
        ensures
            self@.info == match r {
                Some(d) => Some(d@),
                None => None::<DetailsView>,
            },
    {
        borrow_details(&self.info)
    }

    fn primary_action(&self) -> (r: Option<&Details>)
        ensures
            self@.primary_action == match r {
                Some(d) => Some(d@),
                None => None::<DetailsView>,
            },
    {
        borrow_details(&self.primary_action)
    }

    fn secondary_action(&self) -> (r: Option<&Details>)
        ensures
            self@.secondary_action == match r {
                Some(d) => Some(d@),
                None => None::<DetailsView>,
            },
    {
        borrow_details(&self.secondary_action)
    }
}

/// Keeps the state of a sync provider and the errors it reports.
pub trait Logger {
    /// The errors reported so far.
    fn logs(&self) -> &[Reason];

    /// Reports an error.
    fn add_log(&mut self, reason: Reason);

    /// The status message.
    fn message(&self) -> &[u16];

    /// Sets the status message.
    fn set_message(&mut self, message: Vec<u16>);

    /// The state of the provider.
    fn state(&self) -> ProviderState;

    /// Sets the state of the provider.
    fn set_state(&mut self, state: ProviderState);
}

/// The state of a sync provider, as the shell shows it.
#[derive(Debug, Copy, Clone, PartialEq, Eq, Structural)]
pub enum ProviderState {
    /// The provider had an error.
    Error,
    /// The provider is in sync.
    InSync,
    /// The provider is offline.
    Offline,
    /// The provider is paused.
    Paused,
    /// The provider is syncing.
    Syncing,
    /// The provider has a warning.
    Warning,
}

/// The `StorageProviderState` value of each state.
pub open spec fn provider_state_code(state: ProviderState) -> i32 {
    match state {
        ProviderState::InSync => 0,
        ProviderState::Syncing => 1,
        ProviderState::Paused => 2,
        ProviderState::Error => 3,
        ProviderState::Warning => 4,
        ProviderState::Offline => 5,
    }
}

impl ProviderState {
    /// The `StorageProviderState` value of this state.
    pub fn to_code(self) -> (r: i32)
        ensures
            r == provider_state_code(self),
    {
        match self {
            ProviderState::InSync => 0,
            ProviderState::Syncing => 1,
            ProviderState::Paused => 2,
            ProviderState::Error => 3,
            ProviderState::Warning => 4,
            ProviderState::Offline => 5,
        }
    }
}

/// Different states have different values.
pub proof fn lemma_provider_state_code_injective(a: ProviderState, b: ProviderState)
    ensures
        provider_state_code(a) == provider_state_code(b) ==> a == b,
{
}

} // verus!
