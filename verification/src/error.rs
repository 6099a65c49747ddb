//! The failures that the configuration manager reports.

use vstd::prelude::*;

verus! {

/// Every failure that loading, saving, registering or a section callback can report.
/// Each variant carries the underlying reason as text.
#[derive(Debug, PartialEq, Eq)]
pub enum KonfigError {
    /// A section's `validate` callback rejected its state.
    ValidationError(String),
    /// A section's `on_load` callback failed.
    OnLoadError(String),
    /// A value could not be encoded in the active format.
    MarshalError(String),
    /// Bytes could not be decoded in the active format.
    UnmarshalError(String),
    /// The configuration could not be read, or its root is not a mapping.
    LoadError(String),
    /// The configuration could not be written.
    SaveError(String),
    /// A section could not be registered.
    RegistrationError(String),
    /// Any other failure, passed through with its own message.
    Other(String),
}

/// The mathematical value of a [`KonfigError`]: the same variants over sequences of characters.
pub enum ErrorView {
    ValidationError(Seq<char>),
    OnLoadError(Seq<char>),
    MarshalError(Seq<char>),
    UnmarshalError(Seq<char>),
    LoadError(Seq<char>),
    SaveError(Seq<char>),
    RegistrationError(Seq<char>),
    Other(Seq<char>),
}

impl ErrorView {
    /// The reason carried by the failure.
    pub open spec fn reason(self) -> Seq<char> {
        match self {
            ErrorView::ValidationError(m) => m,
            ErrorView::OnLoadError(m) => m,
            ErrorView::MarshalError(m) => m,
            ErrorView::UnmarshalError(m) => m,
            ErrorView::LoadError(m) => m,
            ErrorView::SaveError(m) => m,
            ErrorView::RegistrationError(m) => m,
            ErrorView::Other(m) => m,
        }
    }

    /// The words that precede the reason when the failure is shown.
    pub open spec fn prefix(self) -> Seq<char> {
        match self {
            ErrorView::ValidationError(_) => "Validation callback error "@,
            ErrorView::OnLoadError(_) => "OnLoad callback error "@,
            ErrorView::MarshalError(_) => "Marshal error "@,
            ErrorView::UnmarshalError(_) => "Unmarshal error "@,
            ErrorView::LoadError(_) => "Load error "@,
            ErrorView::SaveError(_) => "Save error "@,
            ErrorView::RegistrationError(_) => "Registration error "@,
            ErrorView::Other(_) => Seq::<char>::empty(),
        }
    }

    /// The failure as shown to a reader: the prefix of its kind, then the reason.
    pub open spec fn text(self) -> Seq<char> {
        self.prefix() + self.reason()
    }
}

impl View for KonfigError {
    type V = ErrorView;

    open spec fn view(&self) -> ErrorView {
        match self {
            KonfigError::ValidationError(m) => ErrorView::ValidationError(m@),
            KonfigError::OnLoadError(m) => ErrorView::OnLoadError(m@),
            KonfigError::MarshalError(m) => ErrorView::MarshalError(m@),
            KonfigError::UnmarshalError(m) => ErrorView::UnmarshalError(m@),
            KonfigError::LoadError(m) => ErrorView::LoadError(m@),
            KonfigError::SaveError(m) => ErrorView::SaveError(m@),
            KonfigError::RegistrationError(m) => ErrorView::RegistrationError(m@),
            KonfigError::Other(m) => ErrorView::Other(m@),
        }
    }
}

/// The mathematical value of a callback's result.
pub open spec fn unit_outcome(r: Result<(), KonfigError>) -> Result<(), ErrorView> {
    match r {
        Ok(_) => Ok(()),
        Err(e) => Err(e@),
    }
}

/// The mathematical value of an encoder's result.
pub open spec fn bytes_outcome(r: Result<Vec<u8>, KonfigError>) -> Result<Seq<u8>, ErrorView> {
    match r {
        Ok(bytes) => Ok(bytes@),
        Err(e) => Err(e@),
    }
}

impl KonfigError {
    /// The reason carried by the failure, without the prefix of its kind.
    pub fn reason(&self) -> (r: &str)
        ensures
            r@ == self@.reason(),
    {
        match self {
            KonfigError::ValidationError(m) => m.as_str(),
            KonfigError::OnLoadError(m) => m.as_str(),
            KonfigError::MarshalError(m) => m.as_str(),
            KonfigError::UnmarshalError(m) => m.as_str(),
            KonfigError::LoadError(m) => m.as_str(),
            KonfigError::SaveError(m) => m.as_str(),
            KonfigError::RegistrationError(m) => m.as_str(),
            KonfigError::Other(m) => m.as_str(),
        }
    }

    /// The failure as shown to a reader: the prefix of its kind, then the reason.
    /// An `Other` failure is shown as its reason alone.
    pub fn to_string(&self) -> (r: String)
        ensures
            r@ == self@.text(),
    {
        let prefix: &str = match self {
            KonfigError::ValidationError(_) => "Validation callback error ",
            KonfigError::OnLoadError(_) => "OnLoad callback error ",
            KonfigError::MarshalError(_) => "Marshal error ",
            KonfigError::UnmarshalError(_) => "Unmarshal error ",
            KonfigError::LoadError(_) => "Load error ",
            KonfigError::SaveError(_) => "Save error ",
            KonfigError::RegistrationError(_) => "Registration error ",
            KonfigError::Other(_) => "",
        };
        proof {
            reveal_strlit("");
        }
        let shown = prefix.to_owned().concat(self.reason());
        shown
    }
}

} // verus!
