//! The selection policy on plain values.
//!
//! Every type of [`crate::policy`] has a counterpart here in which text is a
//! sequence of characters and an address a sequence of octets. The two spec
//! functions [`started`] and [`concluded`] are the policy; the executable
//! functions are proved to compute them.

use vstd::prelude::*;
use crate::interfaces::{info, is_listed, Entry};
use crate::mac::{is_locally_administered, is_unicast};
use crate::parse::{parse_outcome, MacParseError};

verus! {

/// Where the address to apply came from.
#[derive(Clone, Copy, Debug, PartialEq, Eq, Structural)]
pub enum Origin {
    /// It was generated.
    Random,
    /// The user gave it.
    Explicit,
}

/// A state that the command line is meant to rule out.
#[derive(Clone, Copy, Debug, PartialEq, Eq, Structural)]
pub enum Violation {
    /// An address was to be applied to the first usable interface, and the
    /// table has none.
    NoInterface,
    /// Neither a flag nor a subcommand was given.
    NoCommand,
}

/// The options of `set`.
pub struct SetView {
    pub address: Option<Seq<char>>,
    pub interface: Option<Seq<char>>,
    pub random: bool,
}

/// The options of one invocation.
pub struct ArgsView {
    pub set: Option<SetView>,
    pub random: bool,
    pub current: bool,
}

/// A message for the user that is no error.
pub enum AdvisoryView {
    InterfaceAlone,
    RandomOverAddress,
    FirstInterfaceFallback,
    UnknownInterface { interface: Seq<char> },
}

/// Why no action was resolved.
pub enum ErrorKindView {
    InvalidAddressInput { input: Seq<char>, error: MacParseError },
    FatalInvariantViolation(Violation),
}

/// The one thing to do for an invocation.
pub enum ResolvedActionView {
    ShowCurrent { interface: Seq<char>, address: Seq<u8> },
    ShowCurrentNotFound,
    ShowRandom { address: Seq<u8> },
    ApplyExplicit { interface: Seq<char>, address: Seq<u8> },
    ApplyRandom { interface: Seq<char>, address: Seq<u8> },
    Advisory(AdvisoryView),
    Error(ErrorKindView),
    Nothing,
}

/// A decision that waits for the interface table.
pub enum PendingView {
    Current,
    Apply { origin: Origin, address: Seq<u8>, interface: Option<Seq<char>> },
}

/// What follows the first step.
pub enum NextView {
    Resolved(ResolvedActionView),
    Enumerate(PendingView),
}

/// The result of the first step.
pub struct StepView {
    pub notes: Seq<AdvisoryView>,
    pub next: NextView,
}

/// The six octets of an address that random generation can give: unicast
/// and locally administered.
pub open spec fn is_generated(octets: Seq<u8>) -> bool {
    octets.len() == 6 && is_unicast(octets) && is_locally_administered(octets)
}

/// A step that shows nothing and resolves at once.
pub open spec fn resolved(action: ResolvedActionView) -> StepView {
    StepView { notes: Seq::empty(), next: NextView::Resolved(action) }
}

/// The advisories that `set` gives before it needs the interface table: one
/// if the random flag overrides a given address, then one if no interface
/// was named.
pub open spec fn early_notes(overrides: bool, interface_given: bool) -> Seq<AdvisoryView> {
    let first = if overrides {
        seq![AdvisoryView::RandomOverAddress]
    } else {
        Seq::<AdvisoryView>::empty()
    };
    if interface_given {
        first
    } else {
        first.push(AdvisoryView::FirstInterfaceFallback)
    }
}

/// The first step for the options of `set`, where `generated` is the random
/// address that is drawn if the random flag is set.
///
/// An interface alone is refused. The random flag comes before a given
/// address, which is then not even parsed. A given address that does not
/// parse is an error, whatever else was given. With no option at all there
/// is nothing to do.
pub open spec fn set_started(set: SetView, generated: Seq<u8>) -> StepView {
    if set.interface is Some && set.address is None && !set.random {
        resolved(ResolvedActionView::Advisory(AdvisoryView::InterfaceAlone))
    } else if set.random {
        StepView {
            notes: early_notes(set.address is Some, set.interface is Some),
            next: NextView::Enumerate(
                PendingView::Apply {
                    origin: Origin::Random,
                    address: generated,
                    interface: set.interface,
                },
            ),
        }
    } else {
        match set.address {
            Some(text) => match parse_outcome(text) {
                Ok(octets) => StepView {
                    notes: early_notes(false, set.interface is Some),
                    next: NextView::Enumerate(
                        PendingView::Apply {
                            origin: Origin::Explicit,
                            address: octets,
                            interface: set.interface,
                        },
                    ),
                },
                Err(error) => resolved(
                    ResolvedActionView::Error(
                        ErrorKindView::InvalidAddressInput { input: text, error },
                    ),
                ),
            },
            None => resolved(ResolvedActionView::Nothing),
        }
    }
}

/// The first step of the policy: what the options alone decide, the rules
/// taken in their order of precedence. Showing the current address comes
/// first, showing a random address second, `set` third; with none of them
/// the command line has broken its contract.
pub open spec fn started(args: ArgsView, generated: Seq<u8>) -> StepView {
    if args.current {
        StepView { notes: Seq::empty(), next: NextView::Enumerate(PendingView::Current) }
    } else if args.random {
        resolved(ResolvedActionView::ShowRandom { address: generated })
    } else {
        match args.set {
            Some(set) => set_started(set, generated),
            None => resolved(
                ResolvedActionView::Error(
                    ErrorKindView::FatalInvariantViolation(Violation::NoCommand),
                ),
            ),
        }
    }
}

/// The action that applies `address` to `interface`.
pub open spec fn applied(origin: Origin, interface: Seq<char>, address: Seq<u8>) -> ResolvedActionView {
    match origin {
        Origin::Random => ResolvedActionView::ApplyRandom { interface, address },
        Origin::Explicit => ResolvedActionView::ApplyExplicit { interface, address },
    }
}

/// The second step of the policy: the action for a pending decision, given
/// the interface table.
///
/// A named interface must be listed, in any address family; one that is not
/// gives an advisory. Without a name the first link-layer entry with a
/// non-zero address is taken, and a table without one breaks the contract of
/// the command line.
pub open spec fn concluded(pending: PendingView, table: Seq<Entry>) -> ResolvedActionView {
    match pending {
        PendingView::Current => match info(table, None) {
            Some((interface, address)) => ResolvedActionView::ShowCurrent { interface, address },
            None => ResolvedActionView::ShowCurrentNotFound,
        },
        PendingView::Apply { origin, address, interface: Some(name) } => {
            if is_listed(table, name) {
                applied(origin, name, address)
            } else {
                ResolvedActionView::Advisory(AdvisoryView::UnknownInterface { interface: name })
            }
        },
        PendingView::Apply { origin, address, interface: None } => match info(table, None) {
            Some((name, _)) => applied(origin, name, address),
            None => ResolvedActionView::Error(
                ErrorKindView::FatalInvariantViolation(Violation::NoInterface),
            ),
        },
    }
}

/// The interface and address that an action hands to the commands that
/// change the link: those of the two applying actions, none for any other.
pub open spec fn assignment(action: ResolvedActionView) -> Option<(Seq<char>, Seq<u8>)> {
    match action {
        ResolvedActionView::ApplyExplicit { interface, address } => Some((interface, address)),
        ResolvedActionView::ApplyRandom { interface, address } => Some((interface, address)),
        _ => None,
    }
}

} // verus!
