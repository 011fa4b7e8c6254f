//! From command-line options to one action.
//!
//! The options are looked at in a fixed order, and the first rule that
//! matches decides. Where the decision depends on the host's interfaces, it
//! is taken in two steps: [`start`] says what the options alone decide, and
//! [`conclude`] finishes once the caller has read the interface table.

use vstd::prelude::*;
use crate::interfaces::{get_info, inter_exists, table_of, InterfaceRecord};
use crate::mac::MacAddr;
use crate::model::{
    concluded, early_notes, is_generated, set_started, started, AdvisoryView, ArgsView, ErrorKindView, NextView,
    PendingView, ResolvedActionView, SetView, StepView,
};
use crate::parse::MacParseError;
use crate::random::new_addr;

pub use crate::model::{Origin, Violation};

verus! {

/// The subcommands.
#[derive(Clone, Debug, PartialEq, Eq)]
pub enum SubCmds {
    /// `set`: give an interface a new address.
    Assign {
        /// The new address, as text.
        address: Option<String>,
        /// The interface's name.
        interface: Option<String>,
        /// Use a random address.
        random: bool,
    },
}

/// The options of one invocation.
#[derive(Clone, Debug, PartialEq, Eq)]
pub struct Args {
    /// The subcommand, if one was given.
    pub set: Option<SubCmds>,
    /// Generate and show a random address.
    pub random: bool,
    /// Show the current address.
    pub current: bool,
}

/// A message for the user that is no error.
#[derive(Clone, Debug, PartialEq, Eq)]
pub enum Advisory {
    /// Only an interface was given to `set`: it needs an address or the
    /// random flag as well.
    InterfaceAlone,
    /// Both an address and the random flag were given: the random address
    /// is used.
    RandomOverAddress,
    /// No interface was given: the first one with a non-zero address is
    /// used.
    FirstInterfaceFallback,
    /// The table has no interface of this name.
    UnknownInterface { interface: String },
}

/// Why no action was resolved.
#[derive(Clone, Debug, PartialEq, Eq)]
pub enum ErrorKind {
    /// The text given as the address is not one.
    InvalidAddressInput { input: String, error: MacParseError },
    /// The caller broke the contract of the command line: the process should
    /// stop at once.
    FatalInvariantViolation(Violation),
}

/// The one thing to do for an invocation.
#[derive(Clone, Debug, PartialEq, Eq)]
pub enum ResolvedAction {
    /// Show the interface in use and its address.
    ShowCurrent { interface: String, address: MacAddr },
    /// Say that no interface with an address was found.
    ShowCurrentNotFound,
    /// Show a generated address.
    ShowRandom { address: MacAddr },
    /// Assign the address that the user gave.
    ApplyExplicit { interface: String, address: MacAddr },
    /// Assign a generated address.
    ApplyRandom { interface: String, address: MacAddr },
    /// Tell the user why nothing was done.
    Advisory(Advisory),
    /// Tell the user what went wrong.
    Error(ErrorKind),
    /// `set` was given no option at all: there is nothing to do.
    Nothing,
}

/// A decision that waits for the interface table.
#[derive(Clone, Debug, PartialEq, Eq)]
pub enum Pending {
    /// Show the first interface that has a non-zero address.
    Current,
    /// Apply `address` to `interface` if the table lists it, or, where no
    /// interface is named, to the first one that has a non-zero address.
    Apply { origin: Origin, address: MacAddr, interface: Option<String> },
}

/// What follows the first step.
#[derive(Clone, Debug, PartialEq, Eq)]
pub enum Next {
    /// The action is known.
    Resolved(ResolvedAction),
    /// The caller reads the interface table and calls [`conclude`].
    Enumerate(Pending),
}

/// The result of the first step.
#[derive(Clone, Debug, PartialEq, Eq)]
pub struct Step {
    /// The advisories to show before anything else is done, in order.
    pub notes: Vec<Advisory>,
    /// What to do then.
    pub next: Next,
}

/// An optional text, as characters.
pub open spec fn text_of(text: Option<String>) -> Option<Seq<char>> {
    match text {
        Some(t) => Some(t@),
        None => None,
    }
}

/// A list of advisories, as plain values.
pub open spec fn notes_of(notes: Seq<Advisory>) -> Seq<AdvisoryView> {
    Seq::new(notes.len(), |i: int| notes[i]@)
}

impl View for SubCmds {
    type V = SetView;

    open spec fn view(&self) -> SetView {
        match *self {
            SubCmds::Assign { address, interface, random } => SetView {
                address: text_of(address),
                interface: text_of(interface),
                random,
            },
        }
    }
}

impl View for Args {
    type V = ArgsView;

    open spec fn view(&self) -> ArgsView {
        ArgsView {
            set: match self.set {
                Some(set) => Some(set@),
                None => None,
            },
            random: self.random,
            current: self.current,
        }
    }
}

impl View for Advisory {
    type V = AdvisoryView;

    open spec fn view(&self) -> AdvisoryView {
        match *self {
            Advisory::InterfaceAlone => AdvisoryView::InterfaceAlone,
            Advisory::RandomOverAddress => AdvisoryView::RandomOverAddress,
            Advisory::FirstInterfaceFallback => AdvisoryView::FirstInterfaceFallback,
            Advisory::UnknownInterface { interface } => AdvisoryView::UnknownInterface {
                interface: interface@,
            },
        }
    }
}

impl View for ErrorKind {
    type V = ErrorKindView;

    open spec fn view(&self) -> ErrorKindView {
        match *self {
            ErrorKind::InvalidAddressInput { input, error } => ErrorKindView::InvalidAddressInput {
                input: input@,
                error,
            },
            ErrorKind::FatalInvariantViolation(violation) => ErrorKindView::FatalInvariantViolation(
                violation,
            ),
        }
    }
}

impl View for ResolvedAction {
    type V = ResolvedActionView;

    open spec fn view(&self) -> ResolvedActionView {
        match *self {
            ResolvedAction::ShowCurrent { interface, address } => ResolvedActionView::ShowCurrent {
                interface: interface@,
                address: address@,
            },
            ResolvedAction::ShowCurrentNotFound => ResolvedActionView::ShowCurrentNotFound,
            ResolvedAction::ShowRandom { address } => ResolvedActionView::ShowRandom {
                address: address@,
            },
            ResolvedAction::ApplyExplicit { interface, address } => ResolvedActionView::ApplyExplicit {
                interface: interface@,
                address: address@,
            },
            ResolvedAction::ApplyRandom { interface, address } => ResolvedActionView::ApplyRandom {
                interface: interface@,
                address: address@,
            },
            ResolvedAction::Advisory(advisory) => ResolvedActionView::Advisory(advisory@),
            ResolvedAction::Error(kind) => ResolvedActionView::Error(kind@),
            ResolvedAction::Nothing => ResolvedActionView::Nothing,
        }
    }
}

impl View for Pending {
    type V = PendingView;

    open spec fn view(&self) -> PendingView {
        match *self {
            Pending::Current => PendingView::Current,
            Pending::Apply { origin, address, interface } => PendingView::Apply {
                origin,
                address: address@,
                interface: text_of(interface),
            },
        }
    }
}

impl View for Next {
    type V = NextView;

    open spec fn view(&self) -> NextView {
        match *self {
            Next::Resolved(action) => NextView::Resolved(action@),
            Next::Enumerate(pending) => NextView::Enumerate(pending@),
        }
    }
}

impl View for Step {
    type V = StepView;

    open spec fn view(&self) -> StepView {
        StepView { notes: notes_of(self.notes@), next: self.next@ }
    }
}

/// An address that could have been generated, for the steps that draw none.
spec fn undrawn() -> Seq<u8> {
    seq![2u8, 0u8, 0u8, 0u8, 0u8, 0u8]
}

proof fn lemma_undrawn()
    ensures
        is_generated(undrawn()),
{
    assert(2u8 & 0x01 == 0) by (bit_vector);
    assert(2u8 & 0x02 == 0x02) by (bit_vector);
}

/// A step that shows nothing first.
fn at_once(next: Next) -> (step: Step)
    ensures
        step@ == (StepView { notes: Seq::empty(), next: next@ }),
{
    let step = Step { notes: Vec::new(), next };
    assert(notes_of(step.notes@) =~= Seq::empty());
    step
}

/// The first step for the options of `set`.
fn start_set(address: &Option<String>, interface: &Option<String>, random: bool) -> (step: Step)
    ensures
        exists|generated: Seq<u8>|
            is_generated(generated) && step@ == #[trigger] set_started(
                SetView { address: text_of(*address), interface: text_of(*interface), random },
                generated,
            ),
{
    let ghost set = SetView { address: text_of(*address), interface: text_of(*interface), random };
    proof {
        lemma_undrawn();
    }
    if interface.is_some() && address.is_none() && !random {
        let step = at_once(Next::Resolved(ResolvedAction::Advisory(Advisory::InterfaceAlone)));
        assert(step@ == set_started(set, undrawn()));
        return step;
    }
    let mut notes: Vec<Advisory> = Vec::new();
    let origin: Origin;
    let chosen: MacAddr;
    if random {
        if address.is_some() {
            notes.push(Advisory::RandomOverAddress);
        }
        origin = Origin::Random;
        chosen = new_addr();
    } else {
        match address {
            Some(text) => match MacAddr::from_str(text.as_str()) {
                Ok(parsed) => {
                    origin = Origin::Explicit;
                    chosen = parsed;
                },
                Err(error) => {
                    let step = at_once(
                        Next::Resolved(
                            ResolvedAction::Error(
                                ErrorKind::InvalidAddressInput { input: text.clone(), error },
                            ),
                        ),
                    );
                    assert(step@ == set_started(set, undrawn()));
                    return step;
                },
            },
            None => {
                let step = at_once(Next::Resolved(ResolvedAction::Nothing));
                assert(step@ == set_started(set, undrawn()));
                return step;
            },
        }
    }
    let target = match interface {
        Some(name) => Some(name.clone()),
        None => {
            notes.push(Advisory::FirstInterfaceFallback);
            None
        },
    };
    let step = Step {
        notes,
        next: Next::Enumerate(Pending::Apply { origin, address: chosen, interface: target }),
    };
    proof {
        chosen.lemma_six_octets();
        let generated = if random {
            chosen@
        } else {
            undrawn()
        };
        assert(notes_of(step.notes@) =~= early_notes(
            random && address is Some,
            interface is Some,
        ));
        assert(step@ == set_started(set, generated));
    }
    step
}

/// The first step of the policy: what the options alone decide.
///
/// A random address is drawn here where the options ask for one. The step
/// is the policy's function of the options and of that address, of which
/// the contract says what holds of every address that can be drawn: it is
/// unicast and locally administered.
pub fn start(args: &Args) -> (step: Step)
    ensures
        exists|generated: Seq<u8>|
            is_generated(generated) && step@ == #[trigger] started(args@, generated),
{
    if args.current {
        let step = at_once(Next::Enumerate(Pending::Current));
        proof {
            lemma_undrawn();
            assert(step@ == started(args@, undrawn()));
        }
        return step;
    }
    if args.random {
        let address = new_addr();
        let step = at_once(Next::Resolved(ResolvedAction::ShowRandom { address }));
        proof {
            address.lemma_six_octets();
            assert(step@ == started(args@, address@));
        }
        return step;
    }
    match &args.set {
        Some(SubCmds::Assign { address, interface, random }) => {
            let step = start_set(address, interface, *random);
            proof {
                let set = SetView {
                    address: text_of(*address),
                    interface: text_of(*interface),
                    random: *random,
                };
                let generated = choose|generated: Seq<u8>|
                    is_generated(generated) && step@ == #[trigger] set_started(
                        set,
                        generated,
                    );
                assert(step@ == started(args@, generated));
            }
            step
        },
        None => {
            let step = at_once(
                Next::Resolved(
                    ResolvedAction::Error(ErrorKind::FatalInvariantViolation(Violation::NoCommand)),
                ),
            );
            proof {
                lemma_undrawn();
                assert(step@ == started(args@, undrawn()));
            }
            step
        },
    }
}

/// The second step of the policy: the action for a pending decision, given
/// the interface table in the order in which the host listed it.
pub fn conclude(pending: Pending, records: &[InterfaceRecord]) -> (action: ResolvedAction)
    ensures
        action@ == concluded(pending@, table_of(records@)),
{
    match pending {
        Pending::Current => match get_info(records, None) {
            Some((interface, address)) => ResolvedAction::ShowCurrent { interface, address },
            None => ResolvedAction::ShowCurrentNotFound,
        },
        Pending::Apply { origin, address, interface } => {
            let target = match interface {
                Some(name) => {
                    if !inter_exists(records, name.as_str()) {
                        return ResolvedAction::Advisory(
                            Advisory::UnknownInterface { interface: name },
                        );
                    }
                    name
                },
                None => match get_info(records, None) {
                    Some((name, _)) => name,
                    None => {
                        return ResolvedAction::Error(
                            ErrorKind::FatalInvariantViolation(Violation::NoInterface),
                        );
                    },
                },
            };
            match origin {
                Origin::Random => ResolvedAction::ApplyRandom { interface: target, address },
                Origin::Explicit => ResolvedAction::ApplyExplicit { interface: target, address },
            }
        },
    }
}

} // verus!
