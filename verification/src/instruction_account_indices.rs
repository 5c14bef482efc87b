//! Where each instruction expects its accounts: the position of each account
//! among the instruction's accounts.

use vstd::prelude::*;

verus! {

/// The accounts of `Initialize`, by position.
#[derive(Clone, Copy, Debug, PartialEq, Eq)]
pub enum Initialize {
    StakeAccount,
    Rent,
}

impl Initialize {
    /// The position of the account among the instruction's accounts.
    pub open spec fn position(self) -> nat {
        match self {
            Initialize::StakeAccount => 0,
            Initialize::Rent => 1,
        }
    }

    /// The position of the account among the instruction's accounts.
    pub fn index(self) -> (r: usize)
        ensures
            r == self.position(),
    {
        match self {
            Initialize::StakeAccount => 0,
            Initialize::Rent => 1,
        }
    }
}

/// The accounts of `Authorize`, by position.
#[derive(Clone, Copy, Debug, PartialEq, Eq)]
pub enum Authorize {
    StakeAccount,
    Clock,
    Custodian,
}

impl Authorize {
    /// The position of the account among the instruction's accounts.
    pub open spec fn position(self) -> nat {
        match self {
            Authorize::StakeAccount => 0,
            Authorize::Clock => 1,
            Authorize::Custodian => 3,
        }
    }

    /// The position of the account among the instruction's accounts.
    pub fn index(self) -> (r: usize)
        ensures
            r == self.position(),
    {
        match self {
            Authorize::StakeAccount => 0,
            Authorize::Clock => 1,
            Authorize::Custodian => 3,
        }
    }
}

/// The accounts of `AuthorizeWithSeed`, by position.
#[derive(Clone, Copy, Debug, PartialEq, Eq)]
pub enum AuthorizeWithSeed {
    StakeAccount,
    AuthorityBase,
    Clock,
    Custodian,
}

impl AuthorizeWithSeed {
    /// The position of the account among the instruction's accounts.
    pub open spec fn position(self) -> nat {
        match self {
            AuthorizeWithSeed::StakeAccount => 0,
            AuthorizeWithSeed::AuthorityBase => 1,
            AuthorizeWithSeed::Clock => 2,
            AuthorizeWithSeed::Custodian => 3,
        }
    }

    /// The position of the account among the instruction's accounts.
    pub fn index(self) -> (r: usize)
        ensures
            r == self.position(),
    {
        match self {
            AuthorizeWithSeed::StakeAccount => 0,
            AuthorizeWithSeed::AuthorityBase => 1,
            AuthorizeWithSeed::Clock => 2,
            AuthorizeWithSeed::Custodian => 3,
        }
    }
}

/// The accounts of `DelegateStake`, by position.
#[derive(Clone, Copy, Debug, PartialEq, Eq)]
pub enum DelegateStake {
    StakeAccount,
    VoteAccount,
    Clock,
    StakeHistory,
    ConfigAccount,
}

impl DelegateStake {
    /// The position of the account among the instruction's accounts.
    pub open spec fn position(self) -> nat {
        match self {
            DelegateStake::StakeAccount => 0,
            DelegateStake::VoteAccount => 1,
            DelegateStake::Clock => 2,
            DelegateStake::StakeHistory => 3,
            DelegateStake::ConfigAccount => 4,
        }
    }

    /// The position of the account among the instruction's accounts.
    pub fn index(self) -> (r: usize)
        ensures
            r == self.position(),
    {
        match self {
            DelegateStake::StakeAccount => 0,
            DelegateStake::VoteAccount => 1,
            DelegateStake::Clock => 2,
            DelegateStake::StakeHistory => 3,
            DelegateStake::ConfigAccount => 4,
        }
    }
}

/// The accounts of `Split`, by position.
#[derive(Clone, Copy, Debug, PartialEq, Eq)]
pub enum Split {
    StakeAccount,
    SplitTo,
}

impl Split {
    /// The position of the account among the instruction's accounts.
    pub open spec fn position(self) -> nat {
        match self {
            Split::StakeAccount => 0,
            Split::SplitTo => 1,
        }
    }

    /// The position of the account among the instruction's accounts.
    pub fn index(self) -> (r: usize)
        ensures
            r == self.position(),
    {
        match self {
            Split::StakeAccount => 0,
            Split::SplitTo => 1,
        }
    }
}

/// The accounts of `Merge`, by position.
#[derive(Clone, Copy, Debug, PartialEq, Eq)]
pub enum Merge {
    StakeAccount,
    MergeFrom,
    Clock,
    StakeHistory,
}

impl Merge {
    /// The position of the account among the instruction's accounts.
    pub open spec fn position(self) -> nat {
        match self {
            Merge::StakeAccount => 0,
            Merge::MergeFrom => 1,
            Merge::Clock => 2,
            Merge::StakeHistory => 3,
        }
    }

    /// The position of the account among the instruction's accounts.
    pub fn index(self) -> (r: usize)
        ensures
            r == self.position(),
    {
        match self {
            Merge::StakeAccount => 0,
            Merge::MergeFrom => 1,
            Merge::Clock => 2,
            Merge::StakeHistory => 3,
        }
    }
}

/// The accounts of `Withdraw`, by position.
#[derive(Clone, Copy, Debug, PartialEq, Eq)]
pub enum Withdraw {
    StakeAccount,
    Recipient,
    Clock,
    StakeHistory,
    WithdrawAuthority,
    Custodian,
}

impl Withdraw {
    /// The position of the account among the instruction's accounts.
    pub open spec fn position(self) -> nat {
        match self {
            Withdraw::StakeAccount => 0,
            Withdraw::Recipient => 1,
            Withdraw::Clock => 2,
            Withdraw::StakeHistory => 3,
            Withdraw::WithdrawAuthority => 4,
            Withdraw::Custodian => 5,
        }
    }

    /// The position of the account among the instruction's accounts.
    pub fn index(self) -> (r: usize)
        ensures
            r == self.position(),
    {
        match self {
            Withdraw::StakeAccount => 0,
            Withdraw::Recipient => 1,
            Withdraw::Clock => 2,
            Withdraw::StakeHistory => 3,
            Withdraw::WithdrawAuthority => 4,
            Withdraw::Custodian => 5,
        }
    }
}

/// The accounts of `Deactivate`, by position.
#[derive(Clone, Copy, Debug, PartialEq, Eq)]
pub enum Deactivate {
    StakeAccount,
    Clock,
}

impl Deactivate {
    /// The position of the account among the instruction's accounts.
    pub open spec fn position(self) -> nat {
        match self {
            Deactivate::StakeAccount => 0,
            Deactivate::Clock => 1,
        }
    }

    /// The position of the account among the instruction's accounts.
    pub fn index(self) -> (r: usize)
        ensures
            r == self.position(),
    {
        match self {
            Deactivate::StakeAccount => 0,
            Deactivate::Clock => 1,
        }
    }
}

/// The accounts of `SetLockup`, by position.
#[derive(Clone, Copy, Debug, PartialEq, Eq)]
pub enum SetLockup {
    StakeAccount,
}

impl SetLockup {
    /// The position of the account among the instruction's accounts.
    pub open spec fn position(self) -> nat {
        match self {
            SetLockup::StakeAccount => 0,
        }
    }

    /// The position of the account among the instruction's accounts.
    pub fn index(self) -> (r: usize)
        ensures
            r == self.position(),
    {
        match self {
            SetLockup::StakeAccount => 0,
        }
    }
}

/// The accounts of `InitializeChecked`, by position.
#[derive(Clone, Copy, Debug, PartialEq, Eq)]
pub enum InitializeChecked {
    StakeAccount,
    Rent,
    AuthorizedStaker,
    AuthorizedWithdrawer,
}

impl InitializeChecked {
    /// The position of the account among the instruction's accounts.
    pub open spec fn position(self) -> nat {
        match self {
            InitializeChecked::StakeAccount => 0,
            InitializeChecked::Rent => 1,
            InitializeChecked::AuthorizedStaker => 2,
            InitializeChecked::AuthorizedWithdrawer => 3,
        }
    }

    /// The position of the account among the instruction's accounts.
    pub fn index(self) -> (r: usize)
        ensures
            r == self.position(),
    {
        match self {
            InitializeChecked::StakeAccount => 0,
            InitializeChecked::Rent => 1,
            InitializeChecked::AuthorizedStaker => 2,
            InitializeChecked::AuthorizedWithdrawer => 3,
        }
    }
}

/// The accounts of `AuthorizeChecked`, by position.
#[derive(Clone, Copy, Debug, PartialEq, Eq)]
pub enum AuthorizeChecked {
    StakeAccount,
    Clock,
    Authorized,
    Custodian,
}

impl AuthorizeChecked {
    /// The position of the account among the instruction's accounts.
    pub open spec fn position(self) -> nat {
        match self {
            AuthorizeChecked::StakeAccount => 0,
            AuthorizeChecked::Clock => 1,
            AuthorizeChecked::Authorized => 3,
            AuthorizeChecked::Custodian => 4,
        }
    }

    /// The position of the account among the instruction's accounts.
    pub fn index(self) -> (r: usize)
        ensures
            r == self.position(),
    {
        match self {
            AuthorizeChecked::StakeAccount => 0,
            AuthorizeChecked::Clock => 1,
            AuthorizeChecked::Authorized => 3,
            AuthorizeChecked::Custodian => 4,
        }
    }
}

/// The accounts of `AuthorizeCheckedWithSeed`, by position.
#[derive(Clone, Copy, Debug, PartialEq, Eq)]
pub enum AuthorizeCheckedWithSeed {
    StakeAccount,
    AuthorityBase,
    Clock,
    Authorized,
    Custodian,
}

impl AuthorizeCheckedWithSeed {
    /// The position of the account among the instruction's accounts.
    pub open spec fn position(self) -> nat {
        match self {
            AuthorizeCheckedWithSeed::StakeAccount => 0,
            AuthorizeCheckedWithSeed::AuthorityBase => 1,
            AuthorizeCheckedWithSeed::Clock => 2,
            AuthorizeCheckedWithSeed::Authorized => 3,
            AuthorizeCheckedWithSeed::Custodian => 4,
        }
    }

    /// The position of the account among the instruction's accounts.
    pub fn index(self) -> (r: usize)
        ensures
            r == self.position(),
    {
        match self {
            AuthorizeCheckedWithSeed::StakeAccount => 0,
            AuthorizeCheckedWithSeed::AuthorityBase => 1,
            AuthorizeCheckedWithSeed::Clock => 2,
            AuthorizeCheckedWithSeed::Authorized => 3,
            AuthorizeCheckedWithSeed::Custodian => 4,
        }
    }
}

/// The accounts of `SetLockupChecked`, by position.
#[derive(Clone, Copy, Debug, PartialEq, Eq)]
pub enum SetLockupChecked {
    StakeAccount,
    Custodian,
}

impl SetLockupChecked {
    /// The position of the account among the instruction's accounts.
    pub open spec fn position(self) -> nat {
        match self {
            SetLockupChecked::StakeAccount => 0,
            SetLockupChecked::Custodian => 2,
        }
    }

    /// The position of the account among the instruction's accounts.
    pub fn index(self) -> (r: usize)
        ensures
            r == self.position(),
    {
        match self {
            SetLockupChecked::StakeAccount => 0,
            SetLockupChecked::Custodian => 2,
        }
    }
}

} // verus!
