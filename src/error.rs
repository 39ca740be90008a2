use vstd::prelude::*;

verus! {

/// Everything that can go wrong between a caller and the engine.
#[derive(Debug, Clone, PartialEq, Eq)]
pub enum MpvError {
    /// The engine's shared library could not be loaded; the text says why.
    LibraryError(String),
    /// The library lacks the named entry point.
    SymbolError(String),
    /// The engine refused to set an option to a value.
    SetOptionError { name: String, value: String },
    /// The engine refused to initialize.
    InitializationError,
    /// The engine refused the command.
    CommandError(String),
    /// A text handed to the engine holds a NUL character.
    StringConversionError,
    /// The engine could not report the named property.
    GetPropertyError(String),
    /// The engine refused to set the named property.
    SetPropertyError(String),
    /// A property value is not the JSON it should be: the raw text, and why.
    ParseError { raw: String, cause: String },
    /// No live player has the given identifier, or it is not an identifier.
    PlayerNotFound,
    /// The engine handle was destroyed before this call.
    UseAfterDestroy,
}

/// The text that reports an error to a person.
pub open spec fn message_of(e: MpvError) -> Seq<char> {
    match e {
        MpvError::LibraryError(why) => "Library error: "@ + why@,
        MpvError::SymbolError(name) => "Missing entry point: "@ + name@,
        MpvError::SetOptionError { name, value } => "Failed to set option: "@ + name@ + " = "@ + value@,
        MpvError::InitializationError => "Failed to initialize MPV"@,
        MpvError::CommandError(cmd) => "Failed to execute command: "@ + cmd@,
        MpvError::StringConversionError => "String conversion error: text holds a NUL character"@,
        MpvError::GetPropertyError(name) => "Failed to get property: "@ + name@,
        MpvError::SetPropertyError(name) => "Failed to set property: "@ + name@,
        MpvError::ParseError { raw, cause } => "Failed to parse property value: "@ + cause@ + ". JSON: "@ + raw@,
        MpvError::PlayerNotFound => "Player not found"@,
        MpvError::UseAfterDestroy => "MPV was already destroyed"@,
    }
}

impl MpvError {
    /// The text that reports this error to a person.
    pub fn message(&self) -> (r: String)
        ensures
            r@ == message_of(*self),
    {
        match self {
            MpvError::LibraryError(why) => String::from_str("Library error: ").concat(why.as_str()),
            MpvError::SymbolError(name) => String::from_str("Missing entry point: ").concat(name.as_str()),
            MpvError::SetOptionError { name, value } => String::from_str("Failed to set option: ")
                .concat(name.as_str()).concat(" = ").concat(value.as_str()),
            MpvError::InitializationError => String::from_str("Failed to initialize MPV"),
            MpvError::CommandError(cmd) => String::from_str("Failed to execute command: ").concat(cmd.as_str()),
            MpvError::StringConversionError => String::from_str("String conversion error: text holds a NUL character"),
            MpvError::GetPropertyError(name) => String::from_str("Failed to get property: ").concat(name.as_str()),
            MpvError::SetPropertyError(name) => String::from_str("Failed to set property: ").concat(name.as_str()),
            MpvError::ParseError { raw, cause } => String::from_str("Failed to parse property value: ")
                .concat(cause.as_str()).concat(". JSON: ").concat(raw.as_str()),
            MpvError::PlayerNotFound => String::from_str("Player not found"),
            MpvError::UseAfterDestroy => String::from_str("MPV was already destroyed"),
        }
    }
}

} // verus!
