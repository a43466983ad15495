//! The messages of settings load failures and startup warnings.

use vstd::prelude::*;
use vstd::string::*;

use crate::integer_text::{decimal_digits, unsigned_decimal_string};
use crate::settings::startup::SettingsStartupWarning;
use crate::settings::store::SettingsLoadError;

verus! {

/// The message of a load failure: what failed, for which file.
pub open spec fn load_message(error: SettingsLoadError) -> Seq<char> {
    match error {
        SettingsLoadError::Read { path, .. } => "could not read "@ + path@,
        SettingsLoadError::TooLarge { path, max_bytes } => path@ + " is larger than the "@
            + decimal_digits(max_bytes as nat) + "-byte settings limit"@,
        SettingsLoadError::Json { path, .. } => "could not parse settings from "@ + path@,
        SettingsLoadError::UnsupportedVersion { found } => "settings version "@ + decimal_digits(
            found as nat,
        ) + " is not supported"@,
    }
}

/// The message of `error`.
pub fn load_error_message(error: &SettingsLoadError) -> (message: String)
    ensures
        message@ == load_message(*error),
{
    match error {
        SettingsLoadError::Read { path, .. } => {
            let mut message = "could not read ".to_owned();
            message.append(path.as_str());
            message
        },
        SettingsLoadError::TooLarge { path, max_bytes } => {
            let mut message = path.clone();
            message.append(" is larger than the ");
            let digits = unsigned_decimal_string(*max_bytes);
            message.append(digits.as_str());
            message.append("-byte settings limit");
            message
        },
        SettingsLoadError::Json { path, .. } => {
            let mut message = "could not parse settings from ".to_owned();
            message.append(path.as_str());
            message
        },
        SettingsLoadError::UnsupportedVersion { found } => {
            let mut message = "settings version ".to_owned();
            let digits = unsigned_decimal_string(*found);
            message.append(digits.as_str());
            message.append(" is not supported");
            message
        },
    }
}

/// The message of a startup warning.
pub open spec fn warning_message(warning: SettingsStartupWarning) -> Seq<char> {
    match warning {
        SettingsStartupWarning::Load(_) => "application settings could not be loaded"@,
        SettingsStartupWarning::UnsupportedVersion { found } => "settings version "@
            + decimal_digits(found as nat) + " is newer than this application supports"@,
    }
}

impl SettingsStartupWarning {
    /// The warning's message.
    pub fn message(&self) -> (message: String)
        ensures
            message@ == warning_message(*self),
    {
        match self {
            SettingsStartupWarning::Load(_) => "application settings could not be loaded".to_owned(),
            SettingsStartupWarning::UnsupportedVersion { found } => {
                let mut message = "settings version ".to_owned();
                let digits = unsigned_decimal_string(*found);
                message.append(digits.as_str());
                message.append(" is newer than this application supports");
                message
            },
        }
    }
}

} // verus!
