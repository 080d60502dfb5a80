use vstd::prelude::*;

verus! {

/// Why a log payload was rejected.
#[derive(Debug, Clone, Copy, PartialEq, Eq)]
pub enum FormatError {
    /// A header line does not follow the grammar.
    BadGrammar,
    /// The file declares a version other than 1.0.
    BadVersion,
    /// A field declaration names a type that is not in the vocabulary.
    UnknownTypeToken,
    /// A decimal number in the header does not fit its integer type.
    NumberOutOfRange,
    /// The header does not declare a record kind that the decoder needs.
    MissingFormat,
    /// A binary record starts with a tag that no record kind is bound to.
    UnknownTag,
    /// The input ends inside a binary field.
    ShortRead,
    /// The bytes of a string field are not UTF-8.
    BadUtf8,
    /// A field sized by the dimensionality was met while it is unknown or negative.
    DimensionUnknown,
    /// Bytes remain after the last record that could be decoded.
    TrailingBytes,
}

/// Why a compressed log could not be turned into records.
#[derive(Debug, Clone, Copy, PartialEq, Eq)]
pub enum DeserializeError {
    /// The container could not be decompressed.
    Container,
    /// The decompressed payload was rejected.
    Format(FormatError),
}

impl FormatError {
    /// A one-line description for diagnostics.
    pub fn message(&self) -> (text: &'static str)
        ensures
            text@ == self.message_text(),
    {
        match self {
            FormatError::BadGrammar => "header line does not follow the grammar",
            FormatError::BadVersion => "unsupported file version",
            FormatError::UnknownTypeToken => "unknown field type in header",
            FormatError::NumberOutOfRange => "number in header out of range",
            FormatError::MissingFormat => "header lacks a required record format",
            FormatError::UnknownTag => "record tag not declared in header",
            FormatError::ShortRead => "input ends inside a field",
            FormatError::BadUtf8 => "string field is not UTF-8",
            FormatError::DimensionUnknown => "dimensionality unknown or negative",
            FormatError::TrailingBytes => "bytes remain after the last record",
        }
    }

    /// The text of `message`.
    pub open spec fn message_text(&self) -> Seq<char> {
        match self {
            FormatError::BadGrammar => "header line does not follow the grammar"@,
            FormatError::BadVersion => "unsupported file version"@,
            FormatError::UnknownTypeToken => "unknown field type in header"@,
            FormatError::NumberOutOfRange => "number in header out of range"@,
            FormatError::MissingFormat => "header lacks a required record format"@,
            FormatError::UnknownTag => "record tag not declared in header"@,
            FormatError::ShortRead => "input ends inside a field"@,
            FormatError::BadUtf8 => "string field is not UTF-8"@,
            FormatError::DimensionUnknown => "dimensionality unknown or negative"@,
            FormatError::TrailingBytes => "bytes remain after the last record"@,
        }
    }
}

} // verus!
