//! The errors that configuring an index can end in.
use vstd::prelude::*;
use vstd::string::StringExecFns;

verus! {

/// Why a configuration request was refused.
#[derive(Debug)]
pub enum IndexError {
    /// A numeric field is not a number, or outside the target integer's range.
    OutOfRange { name: String, message: String },
    /// A distance metric outside the accepted vocabulary.
    InvalidDistanceType { value: String },
    /// A language tag the tokenizer does not know, with the tokenizer's reason.
    InvalidLanguage { language: String, reason: String },
    /// The configuration of a handle was asked for after it had been handed out.
    AlreadyConsumed,
    /// A descriptor field was looked up under a key it does not know.
    InvalidKey { key: String },
}

/// The human-readable text of an error.
pub open spec fn message_of(e: IndexError) -> Seq<char> {
    match e {
        IndexError::OutOfRange { name, message } => name@ + ": "@ + message@,
        IndexError::InvalidDistanceType { value } =>
            "Invalid distance type '"@ + value@ + "'.  Must be one of l2, cosine, or dot"@,
        IndexError::InvalidLanguage { language, reason } =>
            "Invalid language '"@ + language@ + "': "@ + reason@,
        IndexError::AlreadyConsumed => "cannot use a configuration more than once"@,
        IndexError::InvalidKey { key } => "Invalid key: "@ + key@,
    }
}

impl IndexError {
    /// The human-readable text of this error, naming the offending field or value.
    pub fn message(&self) -> (r: String)
        ensures
            r@ == message_of(*self),
    {
        let mut s = String::new();
        match self {
            IndexError::OutOfRange { name, message } => {
                s.append(name.as_str());
                s.append(": ");
                s.append(message.as_str());
            },
            IndexError::InvalidDistanceType { value } => {
                s.append("Invalid distance type '");
                s.append(value.as_str());
                s.append("'.  Must be one of l2, cosine, or dot");
            },
            IndexError::InvalidLanguage { language, reason } => {
                s.append("Invalid language '");
                s.append(language.as_str());
                s.append("': ");
                s.append(reason.as_str());
            },
            IndexError::AlreadyConsumed => {
                s.append("cannot use a configuration more than once");
            },
            IndexError::InvalidKey { key } => {
                s.append("Invalid key: ");
                s.append(key.as_str());
            },
        }
        assert(s@ =~= message_of(*self));
        s
    }
}

} // verus!
