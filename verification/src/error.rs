//! Arity contracts and the error taxonomy of the assembler and the machine.
//!
//! Every error is fatal: a function that meets one returns it, and the caller
//! stops. An [`Error`] is the place a line came from, kept for the report.

use crate::bignum::decimal_text;
use crate::util::usize_text;
use crate::value::{Shape, Value};
use vstd::prelude::*;
use vstd::string::*;

verus! {

/// How many arguments an instruction or a directive accepts.
#[derive(Clone, Copy, Debug, PartialEq, Eq, Structural)]
pub enum ArgumentType {
    Exact(usize),
    Range(usize, usize),
    AtLeast(usize),
    AtMost(usize),
}

/// What went wrong.
pub enum ErrorType {
    /// Anything without a kind of its own, told in words.
    Generic(String),
    /// A token that is no operand of any form.
    InvalidValue(String),
    /// An operand that had to be a pointer and is not.
    InvalidPointer(Value),
    /// An instruction or directive `name` given `num` arguments where `range` is accepted.
    ArgumentError { typename: String, name: String, num: usize, range: ArgumentType },
    /// No instruction, directive, external call or label `value` exists.
    NonExistent { typename: String, value: String },
    /// A directive line with nothing on it.
    Empty(String),
}

/// The source line that is being assembled: its text, its number and the file it is from.
pub struct Error {
    pub text: String,
    pub line: usize,
    pub file: Option<String>,
}

impl ArgumentType {
    /// Whether `value` arguments satisfy this arity.
    pub open spec fn admits(self, value: usize) -> bool {
        match self {
            ArgumentType::Exact(num) => value == num,
            ArgumentType::Range(min, max) => min <= value && value <= max,
            ArgumentType::AtLeast(num) => value >= num,
            ArgumentType::AtMost(num) => value <= num,
        }
    }

    /// Tells whether `value` arguments satisfy this arity.
    pub fn is_valid(&self, value: usize) -> (ok: bool)
        ensures
            ok == self.admits(value),
    {
        match *self {
            ArgumentType::Exact(num) => value == num,
            ArgumentType::Range(min, max) => value >= min && value <= max,
            ArgumentType::AtLeast(num) => value >= num,
            ArgumentType::AtMost(num) => value <= num,
        }
    }
}

/// What an error says, as mathematics: the view of an [`ErrorType`].
pub enum Fault {
    Generic(Seq<char>),
    InvalidValue(Seq<char>),
    InvalidPointer(Shape),
    ArgumentError { typename: Seq<char>, name: Seq<char>, num: usize, range: ArgumentType },
    NonExistent { typename: Seq<char>, value: Seq<char> },
    Empty(Seq<char>),
}

impl View for ErrorType {
    type V = Fault;

    open spec fn view(&self) -> Fault {
        match *self {
            ErrorType::Generic(message) => Fault::Generic(message@),
            ErrorType::InvalidValue(text) => Fault::InvalidValue(text@),
            ErrorType::InvalidPointer(value) => Fault::InvalidPointer(value.shape()),
            ErrorType::ArgumentError { typename, name, num, range } => Fault::ArgumentError {
                typename: typename@,
                name: name@,
                num: num,
                range: range,
            },
            ErrorType::NonExistent { typename, value } => Fault::NonExistent {
                typename: typename@,
                value: value@,
            },
            ErrorType::Empty(kind) => Fault::Empty(kind@),
        }
    }
}

/// Whether `r` is the error that says `fault`.
pub open spec fn fails_with<T>(r: Result<T, ErrorType>, fault: Fault) -> bool {
    match r {
        Err(e) => e@ == fault,
        Ok(_) => false,
    }
}

/// The arity error for `name`, a `typename`, given `num` arguments against `range`.
pub open spec fn arity_fault(typename: Seq<char>, name: Seq<char>, num: usize, range: ArgumentType) -> Fault {
    Fault::ArgumentError { typename: typename, name: name, num: num, range: range }
}

impl ArgumentType {
    /// How this arity is shown.
    pub open spec fn text(self) -> Seq<char> {
        match self {
            ArgumentType::Exact(num) => decimal_text(num as int) + " argument(s)"@,
            ArgumentType::Range(min, max) => decimal_text(min as int) + "-"@ + decimal_text(
                max as int,
            ) + " argument(s)"@,
            ArgumentType::AtLeast(num) => "at least "@ + decimal_text(num as int)
                + " argument(s)"@,
            ArgumentType::AtMost(num) => "at most "@ + decimal_text(num as int) + " argument(s)"@,
        }
    }

    /// This arity as text.
    pub fn to_text(&self) -> (text: String)
        ensures
            text@ == self.text(),
    {
        match *self {
            ArgumentType::Exact(num) => {
                let mut text = usize_text(num);
                text.append(" argument(s)");
                text
            },
            ArgumentType::Range(min, max) => {
                let mut text = usize_text(min);
                text.append("-");
                text.append(usize_text(max).as_str());
                text.append(" argument(s)");
                text
            },
            ArgumentType::AtLeast(num) => {
                let mut text = String::from_str("at least ");
                text.append(usize_text(num).as_str());
                text.append(" argument(s)");
                text
            },
            ArgumentType::AtMost(num) => {
                let mut text = String::from_str("at most ");
                text.append(usize_text(num).as_str());
                text.append(" argument(s)");
                text
            },
        }
    }
}

impl Fault {
    /// How this error is shown.
    pub open spec fn text(self) -> Seq<char> {
        match self {
            Fault::Generic(message) => "Generic: "@ + message,
            Fault::InvalidValue(text) => "InvalidValue: "@ + text,
            Fault::ArgumentError { typename, name, num, range } => "ArgumentError: "@ + typename
                + " '"@ + name + "' was given "@ + decimal_text(num as int)
                + " argument(s), expected "@ + range.text(),
            Fault::NonExistent { typename, value } => "NameError: no such "@ + typename
                + " of name '"@ + value + "'"@,
            Fault::Empty(kind) => kind + " is empty"@,
            Fault::InvalidPointer(shape) => shape.text() + " is not a valid pointer!"@,
        }
    }
}

impl ErrorType {
    /// This error as text.
    pub fn to_text(&self) -> (text: String)
        ensures
            text@ == self@.text(),
    {
        match self {
            ErrorType::Generic(generic) => {
                let mut text = String::from_str("Generic: ");
                text.append(generic.as_str());
                text
            },
            ErrorType::InvalidValue(val) => {
                let mut text = String::from_str("InvalidValue: ");
                text.append(val.as_str());
                text
            },
            ErrorType::ArgumentError { typename, name, num, range } => {
                let mut text = String::from_str("ArgumentError: ");
                text.append(typename.as_str());
                text.append(" '");
                text.append(name.as_str());
                text.append("' was given ");
                text.append(usize_text(*num).as_str());
                text.append(" argument(s), expected ");
                text.append(range.to_text().as_str());
                text
            },
            ErrorType::NonExistent { typename, value } => {
                let mut text = String::from_str("NameError: no such ");
                text.append(typename.as_str());
                text.append(" of name '");
                text.append(value.as_str());
                text.append("'");
                text
            },
            ErrorType::Empty(name) => {
                let mut text = name.clone();
                text.append(" is empty");
                text
            },
            ErrorType::InvalidPointer(ptr) => {
                let mut text = ptr.to_text();
                text.append(" is not a valid pointer!");
                text
            },
        }
    }
}

impl Error {
    /// Where this line stands, as the report names it: its number and, if
    /// it is from a file, the name of the file.
    pub open spec fn place_text(self) -> Seq<char> {
        "Error on line "@ + decimal_text(self.line as int) + match self.file {
            Some(name) => " in file \""@ + name@ + "\""@,
            None => ""@,
        }
    }

    /// The report of `errortype` met on this line: where, what, and the line itself.
    pub open spec fn report_text(self, fault: Fault) -> Seq<char> {
        self.place_text() + ", "@ + fault.text() + ".\n>>> "@ + self.text@
    }

    /// The report of `errortype` met on this line. The host prints it and stops.
    pub fn report(&self, errortype: &ErrorType) -> (text: String)
        ensures
            text@ == self.report_text(errortype@),
    {
        let mut text = String::from_str("Error on line ");
        text.append(usize_text(self.line).as_str());
        match &self.file {
            Some(name) => {
                let mut place = String::from_str(" in file \"");
                place.append(name.as_str());
                place.append("\"");
                text.append(place.as_str());
            },
            None => {
                text.append("");
            },
        }
        text.append(", ");
        text.append(errortype.to_text().as_str());
        text.append(".\n>>> ");
        text.append(self.text.as_str());
        text
    }

    /// The place of a line: its text, its number and, if it is from a file,
    /// the name of the file.
    pub fn new(text: String, line: usize, filename: Option<String>) -> (err: Error)
        ensures
            err.text == text,
            err.line == line,
            err.file == filename,
    {
        Error { text: text, line: line, file: filename }
    }

    /// Accepts `num` arguments if `range` admits them, and otherwise gives the
    /// arity error that names what was asked.
    pub fn check_args(&self, typename: &str, name: &str, num: usize, range: ArgumentType) -> (r:
        Result<(), ErrorType>)
        ensures
            r is Ok <==> range.admits(num),
            r is Err ==> fails_with(r, arity_fault(typename@, name@, num, range)),
    {
        if !range.is_valid(num) {
            Err(
                ErrorType::ArgumentError {
                    typename: String::from_str(typename),
                    name: String::from_str(name),
                    num: num,
                    range: range,
                },
            )
        } else {
            Ok(())
        }
    }
}

} // verus!
