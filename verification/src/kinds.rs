//! The two closed enumerations carried inside an identifier, with their
//! numeric codes and, for account types, their community-format letters.

use vstd::prelude::*;

verus! {

/// Namespace in which an account number is allocated.
#[derive(Clone, Copy, Debug, PartialEq, Eq, Structural, Hash)]
pub enum Universe {
    Invalid,
    Public,
    Beta,
    Internal,
    Dev,
    RC,
}

/// Kind of account that an identifier names.
#[derive(Clone, Copy, Debug, PartialEq, Eq, Structural, Hash)]
pub enum AccountType {
    Invalid,
    Individual,
    Multiseat,
    GameServer,
    AnonGameServer,
    Pending,
    ContentServer,
    Clan,
    Chat,
    P2PSuperSeeder,
    AnonUser,
}

impl Universe {
    /// Numeric code of a universe, as stored in the top byte of an identifier.
    pub open spec fn spec_code(self) -> u8 {
        match self {
            Universe::Invalid => 0,
            Universe::Public => 1,
            Universe::Beta => 2,
            Universe::Internal => 3,
            Universe::Dev => 4,
            Universe::RC => 5,
        }
    }

    /// The universe with a given code, if the code names one.
    pub open spec fn spec_from_code(code: int) -> Option<Universe> {
        if code == 0 {
            Some(Universe::Invalid)
        } else if code == 1 {
            Some(Universe::Public)
        } else if code == 2 {
            Some(Universe::Beta)
        } else if code == 3 {
            Some(Universe::Internal)
        } else if code == 4 {
            Some(Universe::Dev)
        } else if code == 5 {
            Some(Universe::RC)
        } else {
            None
        }
    }

    #[verifier::when_used_as_spec(spec_code)]
    pub fn code(self) -> (c: u8)
        ensures
            c == self.spec_code(),
            c <= 5,
            Self::spec_from_code(c as int) == Some(self),
    {
        match self {
            Universe::Invalid => 0,
            Universe::Public => 1,
            Universe::Beta => 2,
            Universe::Internal => 3,
            Universe::Dev => 4,
            Universe::RC => 5,
        }
    }

    /// Looks a code up; codes above 5 name no universe.
    pub fn from_code(code: u8) -> (r: Option<Universe>)
        ensures
            r == Self::spec_from_code(code as int),
            r is Some <==> code <= 5,
            r matches Some(u) ==> u.spec_code() == code,
    {
        match code {
            0 => Some(Universe::Invalid),
            1 => Some(Universe::Public),
            2 => Some(Universe::Beta),
            3 => Some(Universe::Internal),
            4 => Some(Universe::Dev),
            5 => Some(Universe::RC),
            _ => None,
        }
    }
}

impl AccountType {
    /// Numeric code of an account type, as stored in bits 52 to 55 of an
    /// identifier.
    pub open spec fn spec_code(self) -> u8 {
        match self {
            AccountType::Invalid => 0,
            AccountType::Individual => 1,
            AccountType::Multiseat => 2,
            AccountType::GameServer => 3,
            AccountType::AnonGameServer => 4,
            AccountType::Pending => 5,
            AccountType::ContentServer => 6,
            AccountType::Clan => 7,
            AccountType::Chat => 8,
            AccountType::P2PSuperSeeder => 9,
            AccountType::AnonUser => 10,
        }
    }

    /// The account type with a given code, if the code names one.
    pub open spec fn spec_from_code(code: int) -> Option<AccountType> {
        if code == 0 {
            Some(AccountType::Invalid)
        } else if code == 1 {
            Some(AccountType::Individual)
        } else if code == 2 {
            Some(AccountType::Multiseat)
        } else if code == 3 {
            Some(AccountType::GameServer)
        } else if code == 4 {
            Some(AccountType::AnonGameServer)
        } else if code == 5 {
            Some(AccountType::Pending)
        } else if code == 6 {
            Some(AccountType::ContentServer)
        } else if code == 7 {
            Some(AccountType::Clan)
        } else if code == 8 {
            Some(AccountType::Chat)
        } else if code == 9 {
            Some(AccountType::P2PSuperSeeder)
        } else if code == 10 {
            Some(AccountType::AnonUser)
        } else {
            None
        }
    }

    /// Letter that stands for an account type in the community format. No
    /// two types share a letter, so a letter names at most one type, and
    /// upper and lower case are different letters.
    pub open spec fn spec_letter(self) -> char {
        match self {
            AccountType::Invalid => 'I',
            AccountType::Individual => 'U',
            AccountType::Multiseat => 'M',
            AccountType::GameServer => 'G',
            AccountType::AnonGameServer => 'A',
            AccountType::Pending => 'P',
            AccountType::ContentServer => 'C',
            AccountType::Clan => 'g',
            AccountType::Chat => 'c',
            AccountType::P2PSuperSeeder => 'S',
            AccountType::AnonUser => 'a',
        }
    }

    /// The account type that a community-format letter stands for, if any.
    pub open spec fn spec_from_letter(letter: char) -> Option<AccountType> {
        if letter == 'I' {
            Some(AccountType::Invalid)
        } else if letter == 'U' {
            Some(AccountType::Individual)
        } else if letter == 'M' {
            Some(AccountType::Multiseat)
        } else if letter == 'G' {
            Some(AccountType::GameServer)
        } else if letter == 'A' {
            Some(AccountType::AnonGameServer)
        } else if letter == 'P' {
            Some(AccountType::Pending)
        } else if letter == 'C' {
            Some(AccountType::ContentServer)
        } else if letter == 'g' {
            Some(AccountType::Clan)
        } else if letter == 'c' {
            Some(AccountType::Chat)
        } else if letter == 'S' {
            Some(AccountType::P2PSuperSeeder)
        } else if letter == 'a' {
            Some(AccountType::AnonUser)
        } else {
            None
        }
    }

    /// Instance that an identifier of this type has when none is written:
    /// 1 for an individual account, 0 for every other type.
    pub open spec fn spec_default_instance(self) -> u32 {
        if self == AccountType::Individual {
            1
        } else {
            0
        }
    }

    #[verifier::when_used_as_spec(spec_code)]
    pub fn code(self) -> (c: u8)
        ensures
            c == self.spec_code(),
            c <= 10,
            Self::spec_from_code(c as int) == Some(self),
    {
        match self {
            AccountType::Invalid => 0,
            AccountType::Individual => 1,
            AccountType::Multiseat => 2,
            AccountType::GameServer => 3,
            AccountType::AnonGameServer => 4,
            AccountType::Pending => 5,
            AccountType::ContentServer => 6,
            AccountType::Clan => 7,
            AccountType::Chat => 8,
            AccountType::P2PSuperSeeder => 9,
            AccountType::AnonUser => 10,
        }
    }

    /// Looks a code up; codes above 10 name no account type.
    pub fn from_code(code: u8) -> (r: Option<AccountType>)
        ensures
            r == Self::spec_from_code(code as int),
            r is Some <==> code <= 10,
            r matches Some(t) ==> t.spec_code() == code,
    {
        match code {
            0 => Some(AccountType::Invalid),
            1 => Some(AccountType::Individual),
            2 => Some(AccountType::Multiseat),
            3 => Some(AccountType::GameServer),
            4 => Some(AccountType::AnonGameServer),
            5 => Some(AccountType::Pending),
            6 => Some(AccountType::ContentServer),
            7 => Some(AccountType::Clan),
            8 => Some(AccountType::Chat),
            9 => Some(AccountType::P2PSuperSeeder),
            10 => Some(AccountType::AnonUser),
            _ => None,
        }
    }

    #[verifier::when_used_as_spec(spec_letter)]
    pub fn letter(self) -> (c: char)
        ensures
            c == self.spec_letter(),
            Self::spec_from_letter(c) == Some(self),
    {
        match self {
            AccountType::Invalid => 'I',
            AccountType::Individual => 'U',
            AccountType::Multiseat => 'M',
            AccountType::GameServer => 'G',
            AccountType::AnonGameServer => 'A',
            AccountType::Pending => 'P',
            AccountType::ContentServer => 'C',
            AccountType::Clan => 'g',
            AccountType::Chat => 'c',
            AccountType::P2PSuperSeeder => 'S',
            AccountType::AnonUser => 'a',
        }
    }

    /// Looks a community-format letter up; the table is case sensitive.
    pub fn from_letter(letter: char) -> (r: Option<AccountType>)
        ensures
            r == Self::spec_from_letter(letter),
            r matches Some(t) ==> t.spec_letter() == letter,
    {
        match letter {
            'I' => Some(AccountType::Invalid),
            'U' => Some(AccountType::Individual),
            'M' => Some(AccountType::Multiseat),
            'G' => Some(AccountType::GameServer),
            'A' => Some(AccountType::AnonGameServer),
            'P' => Some(AccountType::Pending),
            'C' => Some(AccountType::ContentServer),
            'g' => Some(AccountType::Clan),
            'c' => Some(AccountType::Chat),
            'S' => Some(AccountType::P2PSuperSeeder),
            'a' => Some(AccountType::AnonUser),
            _ => None,
        }
    }

    #[verifier::when_used_as_spec(spec_default_instance)]
    pub fn default_instance(self) -> (i: u32)
        ensures
            i == self.spec_default_instance(),
    {
        match self {
            AccountType::Individual => 1,
            _ => 0,
        }
    }
}

} // verus!
