//! Package-list selectors and the command text that each one stands for.

use vstd::prelude::*;

use crate::error::AdbError;
use crate::wire::append_bytes;

verus! {

/// How much detail to list for each package.
#[derive(Debug, Clone, Copy, PartialEq, Eq, Structural)]
pub enum PackageDetails {
    /// The package names alone.
    Normal,
    /// Each package with its version code.
    ShowVersionCode,
    /// Each package with its installer.
    ShowInstaller,
    /// Each package with its associated APK files.
    ShowAssociatedApks,
}

/// Which user's packages to list.
#[derive(Debug, Clone, Copy, PartialEq, Eq, Structural)]
pub enum UserFilter {
    /// No user is named in the command.
    NoUserSpecified,
    /// The current user, which the caller resolves with a separate query.
    CurrentUser,
    /// The given user.
    SpecificUser(u32),
}

/// Which packages to list, how much detail to give, and for which user.
#[derive(Debug, Clone, Copy, PartialEq, Eq, Structural)]
pub enum PackageListType {
    /// All non-APEX packages (`-a`).
    AllNonApex(PackageDetails, UserFilter),
    /// Only APEX packages (`--apex-only`).
    Apex(PackageDetails, UserFilter),
    /// Only disabled packages (`-d`).
    Disabled(PackageDetails, UserFilter),
    /// Only enabled packages (`-e`).
    Enabled(PackageDetails, UserFilter),
    /// Only system packages (`-s`).
    System(PackageDetails, UserFilter),
    /// Only uninstalled packages (`-u`).
    Uninstalled(PackageDetails, UserFilter),
}

/// The ASCII decimal digits of `n`.
pub open spec fn decimal(n: nat) -> Seq<u8>
    decreases n,
{
    if n < 10 {
        seq![(48 + n) as u8]
    } else {
        decimal(n / 10).push((48 + n % 10) as u8)
    }
}

/// Appends the decimal digits of `n` to `out`.
pub fn push_decimal(out: &mut Vec<u8>, n: u32)
    ensures
        final(out)@ == old(out)@ + decimal(n as nat),
    decreases n,
{
    if n >= 10 {
        push_decimal(out, n / 10);
    }
    out.push((48 + n % 10) as u8);
    assert(out@ =~= old(out)@ + decimal(n as nat));
}

/// The text that opens every listing command.
pub open spec fn list_prefix() -> Seq<u8> {
    seq![108u8, 105u8, 115u8, 116u8, 32u8, 112u8, 97u8, 99u8, 107u8, 97u8, 103u8, 101u8, 115u8, 32u8]
}

/// The flag that selects which packages to list.
pub open spec fn scope_flag(t: PackageListType) -> Seq<u8> {
    match t {
        PackageListType::AllNonApex(..) => seq![45u8, 97u8],
        PackageListType::Apex(..) => seq![45u8, 45u8, 97u8, 112u8, 101u8, 120u8, 45u8, 111u8, 110u8, 108u8, 121u8],
        PackageListType::Disabled(..) => seq![45u8, 100u8],
        PackageListType::Enabled(..) => seq![45u8, 101u8],
        PackageListType::System(..) => seq![45u8, 115u8],
        PackageListType::Uninstalled(..) => seq![45u8, 117u8],
    }
}

/// The flag for a level of detail, with its leading space; none for the
/// plain listing.
pub open spec fn detail_flag(d: PackageDetails) -> Seq<u8> {
    match d {
        PackageDetails::Normal => Seq::empty(),
        PackageDetails::ShowVersionCode => seq![32u8, 45u8, 45u8, 115u8, 104u8, 111u8, 119u8, 45u8, 118u8, 101u8, 114u8, 115u8, 105u8, 111u8, 110u8, 99u8, 111u8, 100u8, 101u8],
        PackageDetails::ShowInstaller => seq![32u8, 45u8, 105u8],
        PackageDetails::ShowAssociatedApks => seq![32u8, 45u8, 102u8],
    }
}

/// ` --user ` in ASCII.
pub open spec fn user_option() -> Seq<u8> {
    seq![32u8, 45u8, 45u8, 117u8, 115u8, 101u8, 114u8, 32u8]
}

/// The user part of the command, with its leading space; none without a user.
pub open spec fn user_flag(user: Option<u32>) -> Seq<u8> {
    match user {
        Some(u) => user_option() + decimal(u as nat),
        None => Seq::empty(),
    }
}

/// The user that the command names, given the outcome of the caller's
/// query for the current user; the query's failure fails the command.
pub open spec fn resolved_user(f: UserFilter, current_user: Result<u32, AdbError>) -> Result<
    Option<u32>,
    AdbError,
> {
    match f {
        UserFilter::NoUserSpecified => Ok(None),
        UserFilter::SpecificUser(u) => Ok(Some(u)),
        UserFilter::CurrentUser => match current_user {
            Ok(u) => Ok(Some(u)),
            Err(e) => Err(e),
        },
    }
}

impl PackageListType {
    /// The level of detail asked for.
    pub open spec fn details_of(self) -> PackageDetails {
        match self {
            PackageListType::AllNonApex(d, _) => d,
            PackageListType::Apex(d, _) => d,
            PackageListType::Disabled(d, _) => d,
            PackageListType::Enabled(d, _) => d,
            PackageListType::System(d, _) => d,
            PackageListType::Uninstalled(d, _) => d,
        }
    }

    /// The user filter asked for.
    pub open spec fn filter_of(self) -> UserFilter {
        match self {
            PackageListType::AllNonApex(_, u) => u,
            PackageListType::Apex(_, u) => u,
            PackageListType::Disabled(_, u) => u,
            PackageListType::Enabled(_, u) => u,
            PackageListType::System(_, u) => u,
            PackageListType::Uninstalled(_, u) => u,
        }
    }

    /// The command text for this selector naming `user`.
    pub open spec fn command_text(self, user: Option<u32>) -> Seq<u8> {
        list_prefix() + scope_flag(self) + detail_flag(self.details_of()) + user_flag(user)
    }

    /// The level of detail asked for.
    pub fn details(&self) -> (r: PackageDetails)
        ensures
            r == self.details_of(),
    {
        match self {
            PackageListType::AllNonApex(d, _) => *d,
            PackageListType::Apex(d, _) => *d,
            PackageListType::Disabled(d, _) => *d,
            PackageListType::Enabled(d, _) => *d,
            PackageListType::System(d, _) => *d,
            PackageListType::Uninstalled(d, _) => *d,
        }
    }

    /// The user filter asked for.
    pub fn user_filter(&self) -> (r: UserFilter)
        ensures
            r == self.filter_of(),
    {
        match self {
            PackageListType::AllNonApex(_, u) => *u,
            PackageListType::Apex(_, u) => *u,
            PackageListType::Disabled(_, u) => *u,
            PackageListType::Enabled(_, u) => *u,
            PackageListType::System(_, u) => *u,
            PackageListType::Uninstalled(_, u) => *u,
        }
    }

    fn scope(&self) -> (r: Vec<u8>)
        ensures
            r@ == scope_flag(*self),
    {
        let r = match self {
            PackageListType::AllNonApex(..) => vec![45u8, 97u8],
            PackageListType::Apex(..) => vec![45u8, 45u8, 97u8, 112u8, 101u8, 120u8, 45u8, 111u8, 110u8, 108u8, 121u8],
            PackageListType::Disabled(..) => vec![45u8, 100u8],
            PackageListType::Enabled(..) => vec![45u8, 101u8],
            PackageListType::System(..) => vec![45u8, 115u8],
            PackageListType::Uninstalled(..) => vec![45u8, 117u8],
        };
        assert(r@ =~= scope_flag(*self));
        r
    }

    /// The command text for this selector. Where the current user is asked
    /// for, `current_user` is the outcome of the caller's query for it: its
    /// failure fails the command, with no fallback to naming no user.
    pub fn command_bytes(&self, current_user: Result<u32, AdbError>) -> (r: Result<Vec<u8>, AdbError>)
        ensures
            match resolved_user(self.filter_of(), current_user) {
                Ok(user) => r is Ok && r->Ok_0@ == self.command_text(user),
                Err(e) => r == Err::<Vec<u8>, AdbError>(e),
            },
    {
        let user: Option<u32> = match self.user_filter() {
            UserFilter::NoUserSpecified => None,
            UserFilter::SpecificUser(u) => Some(u),
            UserFilter::CurrentUser => match current_user {
                Ok(u) => Some(u),
                Err(e) => {
                    return Err(e);
                },
            },
        };
        let mut out: Vec<u8> = vec![108u8, 105u8, 115u8, 116u8, 32u8, 112u8, 97u8, 99u8, 107u8, 97u8, 103u8, 101u8, 115u8, 32u8];
        assert(out@ =~= list_prefix());
        let scope = self.scope();
        append_bytes(&mut out, scope.as_slice());
        let detail = self.details().flag();
        append_bytes(&mut out, detail.as_slice());
        let ghost before = out@;
        match user {
            Some(u) => {
                let option: Vec<u8> = vec![32u8, 45u8, 45u8, 117u8, 115u8, 101u8, 114u8, 32u8];
                assert(option@ =~= user_option());
                append_bytes(&mut out, option.as_slice());
                push_decimal(&mut out, u);
            },
            None => {},
        }
        assert(out@ =~= before + user_flag(user));
        Ok(out)
    }
}

impl PackageDetails {
    fn flag(&self) -> (r: Vec<u8>)
        ensures
            r@ == detail_flag(*self),
    {
        let r = match self {
            PackageDetails::Normal => Vec::new(),
            PackageDetails::ShowVersionCode => vec![32u8, 45u8, 45u8, 115u8, 104u8, 111u8, 119u8, 45u8, 118u8, 101u8, 114u8, 115u8, 105u8, 111u8, 110u8, 99u8, 111u8, 100u8, 101u8],
            PackageDetails::ShowInstaller => vec![32u8, 45u8, 105u8],
            PackageDetails::ShowAssociatedApks => vec![32u8, 45u8, 102u8],
        };
        assert(r@ =~= detail_flag(*self));
        r
    }
}

} // verus!
