//! What is asked of the fields of a registration before anything is stored.

use crate::names::{is_valid_username, username_shape};
use vstd::prelude::*;
use vstd::string::StrSliceExecFns;

verus! {

/// The fewest characters of a user name.
pub const NAME_MIN_CHARS: usize = 2;

/// The most characters of a user name.
pub const NAME_MAX_CHARS: usize = 40;

/// Whether `validator` takes the text for an e-mail address.
pub uninterp spec fn email_shape(email: Seq<char>) -> bool;

/// Calls `validator::ValidateEmail::validate_email` on the text. The contract
/// claims only that the answer is a function of the text: the crate decides
/// by fixed patterns and tables, and reads nothing else.
#[verifier::external_body]
fn email_is_valid(email: &str) -> (valid: bool)
    ensures
        valid == email_shape(email@),
{
    validator::ValidateEmail::validate_email(&email)
}

/// One thing that is wrong with a registration.
#[derive(Clone, Copy, Debug, PartialEq, Eq, Structural)]
pub enum RegisterFault {
    /// The name is too short or too long.
    NameLength,
    /// The name is not shaped as a user name is.
    NameCharacters,
    /// The e-mail address is none.
    Email,
}

/// What is wrong with a registration, fault by fault.
#[derive(Clone, Copy, Debug, PartialEq, Eq, Structural)]
pub struct RegisterFaults {
    /// The name is too short or too long.
    pub name_length: bool,
    /// The name is not shaped as a user name is.
    pub name_characters: bool,
    /// The e-mail address is none.
    pub email: bool,
}

impl RegisterFault {
    /// What the user is told of the fault.
    pub open spec fn text(self) -> Seq<char> {
        match self {
            RegisterFault::NameLength => "must be between 2 and 40 characters"@,
            RegisterFault::NameCharacters => "can only contain letters, digits and . (period); periods cannot appear at start or end position, neither consecutively."@,
            RegisterFault::Email => "must be a valid email"@,
        }
    }

    /// What the user is told of the fault.
    pub fn message(self) -> (message: &'static str)
        ensures
            message@ == self.text(),
    {
        match self {
            RegisterFault::NameLength => "must be between 2 and 40 characters",
            RegisterFault::NameCharacters => "can only contain letters, digits and . (period); periods cannot appear at start or end position, neither consecutively.",
            RegisterFault::Email => "must be a valid email",
        }
    }
}

impl RegisterFault {
    /// The field that the fault lies in.
    pub open spec fn field_text(self) -> Seq<char> {
        match self {
            RegisterFault::NameLength => "name"@,
            RegisterFault::NameCharacters => "name"@,
            RegisterFault::Email => "email"@,
        }
    }

    /// The field that the fault lies in.
    pub fn field(self) -> (field: &'static str)
        ensures
            field@ == self.field_text(),
    {
        match self {
            RegisterFault::NameLength => "name",
            RegisterFault::NameCharacters => "name",
            RegisterFault::Email => "email",
        }
    }
}

impl RegisterFaults {
    /// The faults in the order in which the user is told of them: those of
    /// the name, its length first, then that of the e-mail address.
    pub open spec fn listed(self) -> Seq<RegisterFault> {
        (if self.name_length {
            seq![RegisterFault::NameLength]
        } else {
            Seq::empty()
        }) + (if self.name_characters {
            seq![RegisterFault::NameCharacters]
        } else {
            Seq::empty()
        }) + (if self.email {
            seq![RegisterFault::Email]
        } else {
            Seq::empty()
        })
    }

    /// The faults in the order in which the user is told of them.
    pub fn list(&self) -> (faults: Vec<RegisterFault>)
        ensures
            faults@ == self.listed(),
    {
        let mut faults: Vec<RegisterFault> = Vec::new();
        if self.name_length {
            faults.push(RegisterFault::NameLength);
        }
        if self.name_characters {
            faults.push(RegisterFault::NameCharacters);
        }
        if self.email {
            faults.push(RegisterFault::Email);
        }
        assert(faults@ =~= self.listed());
        faults
    }

    /// Whether anything is wrong.
    pub open spec fn any(self) -> bool {
        self.name_length || self.name_characters || self.email
    }

    /// Whether anything is wrong.
    pub fn is_any(&self) -> (any: bool)
        ensures
            any == self.any(),
    {
        self.name_length || self.name_characters || self.email
    }

    /// Whether `fault` is among what is wrong.
    pub fn has(&self, fault: RegisterFault) -> (has: bool)
        ensures
            has == (match fault {
                RegisterFault::NameLength => self.name_length,
                RegisterFault::NameCharacters => self.name_characters,
                RegisterFault::Email => self.email,
            }),
    {
        match fault {
            RegisterFault::NameLength => self.name_length,
            RegisterFault::NameCharacters => self.name_characters,
            RegisterFault::Email => self.email,
        }
    }
}

/// What is wrong with a registration under the name `name`, given whether
/// its e-mail address is one. The name has to have between two and forty
/// characters and the shape of a user name; each of the three is judged by
/// itself.
pub open spec fn register_faults(name: Seq<char>, email_is_one: bool) -> RegisterFaults {
    RegisterFaults {
        name_length: !(NAME_MIN_CHARS <= name.len() <= NAME_MAX_CHARS),
        name_characters: !username_shape(name),
        email: !email_is_one,
    }
}

/// Judges a registration whose e-mail address has been looked at already:
/// `Ok` if nothing is wrong, else everything that is.
pub fn check_fields(name: &str, email_is_one: bool) -> (checked: Result<(), RegisterFaults>)
    ensures
        checked == (if register_faults(name@, email_is_one).any() {
            Err::<(), RegisterFaults>(register_faults(name@, email_is_one))
        } else {
            Ok::<(), RegisterFaults>(())
        }),
{
    let chars = name.unicode_len();
    let faults = RegisterFaults {
        name_length: chars < NAME_MIN_CHARS || chars > NAME_MAX_CHARS,
        name_characters: !is_valid_username(name),
        email: !email_is_one,
    };
    if faults.is_any() {
        Err(faults)
    } else {
        Ok(())
    }
}

/// Judges a registration: `Ok` if nothing is wrong with the name and the
/// e-mail address, else everything that is.
pub fn check_registration(name: &str, email: &str) -> (checked: Result<(), RegisterFaults>)
    ensures
        checked == (if register_faults(name@, email_shape(email@)).any() {
            Err::<(), RegisterFaults>(register_faults(name@, email_shape(email@)))
        } else {
            Ok::<(), RegisterFaults>(())
        }),
{
    let email_is_one = email_is_valid(email);
    check_fields(name, email_is_one)
}

} // verus!
