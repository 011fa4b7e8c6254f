//! What holds of the text of every address and of every decision of the
//! policy.

use vstd::prelude::*;
use crate::hex::{lemma_upper_hex_digit_value, octet_text, upper_hex_digit};
use crate::interfaces::{info, is_listed, Entry};
use crate::link::action_args;
use crate::mac::mac_text;
use crate::model::{
    assignment, concluded, resolved, set_started, started, AdvisoryView, ArgsView, ErrorKindView,
    NextView, Origin, PendingView, ResolvedActionView, SetView,
};
use crate::parse::{
    field_value, is_separator, lemma_split_leading, lemma_split_single, parse_outcome,
    split_fields, well_formed, MacParseError,
};

verus! {

/// The upper-case hexadecimal digits.
pub open spec fn is_upper_hex(c: char) -> bool {
    '0' <= c <= '9' || 'A' <= c <= 'F'
}

/// The two digits of an octet hold no separator and denote the octet.
pub proof fn lemma_octet_text_value(b: u8)
    ensures
        octet_text(b).len() == 2,
        forall|j: int| 0 <= j < 2 ==> !is_separator(#[trigger] octet_text(b)[j]),
        field_value(octet_text(b)) == Some(b),
{
    lemma_upper_hex_digit_value(b as int / 16);
    lemma_upper_hex_digit_value(b as int % 16);
}

/// The fields of the canonical text are the texts of the six octets.
pub proof fn lemma_text_fields(octets: Seq<u8>)
    requires
        octets.len() == 6,
    ensures
        split_fields(mac_text(octets)) == Seq::new(6, |i: int| octet_text(octets[i])),
{
    let colon = seq![':'];
    let t5 = octet_text(octets[5]);
    let t4 = octet_text(octets[4]) + colon + t5;
    let t3 = octet_text(octets[3]) + colon + t4;
    let t2 = octet_text(octets[2]) + colon + t3;
    let t1 = octet_text(octets[1]) + colon + t2;
    let t0 = octet_text(octets[0]) + colon + t1;
    assert(mac_text(octets) =~= t0);
    lemma_octet_text_value(octets[0]);
    lemma_octet_text_value(octets[1]);
    lemma_octet_text_value(octets[2]);
    lemma_octet_text_value(octets[3]);
    lemma_octet_text_value(octets[4]);
    lemma_octet_text_value(octets[5]);
    lemma_split_single(t5);
    lemma_split_leading(octet_text(octets[4]), ':', t5);
    lemma_split_leading(octet_text(octets[3]), ':', t4);
    lemma_split_leading(octet_text(octets[2]), ':', t3);
    lemma_split_leading(octet_text(octets[1]), ':', t2);
    lemma_split_leading(octet_text(octets[0]), ':', t1);
    assert(split_fields(t0) =~= Seq::new(6, |i: int| octet_text(octets[i])));
}

/// Round trip: the canonical text of six octets is an address, and parsing
/// it gives the same six octets.
pub proof fn lemma_parse_text_roundtrip(octets: Seq<u8>)
    requires
        octets.len() == 6,
    ensures
        well_formed(mac_text(octets)),
        parse_outcome(mac_text(octets)) == Ok::<Seq<u8>, MacParseError>(octets),
{
    let fields = split_fields(mac_text(octets));
    lemma_text_fields(octets);
    assert forall|i: int| 0 <= i < 6 implies #[trigger] field_value(fields[i]) == Some(
        octets[i],
    ) by {
        lemma_octet_text_value(octets[i]);
    }
    assert(Seq::new(6, |i: int| field_value(fields[i]).unwrap()) =~= octets);
}

/// A text whose number of fields is not six is rejected.
pub proof fn lemma_rejects_field_count(s: Seq<char>)
    requires
        split_fields(s).len() != 6,
    ensures
        parse_outcome(s) is Err,
        !well_formed(s),
{
}

/// A text with a field that is not one or two hexadecimal digits is
/// rejected, wherever the field stands.
pub proof fn lemma_rejects_bad_field(s: Seq<char>, i: int)
    requires
        0 <= i < split_fields(s).len(),
        field_value(split_fields(s)[i]) is None,
    ensures
        parse_outcome(s) is Err,
        !well_formed(s),
        i < 6 ==> parse_outcome(s) == Err::<Seq<u8>, MacParseError>(MacParseError::InvalidDigit),
{
}

/// The canonical text is zero-padded and in upper case: seventeen
/// characters, a colon after every two digits, every digit from `0-9A-F`.
pub proof fn lemma_text_shape(octets: Seq<u8>)
    requires
        octets.len() == 6,
    ensures
        mac_text(octets).len() == 17,
        forall|i: int|
            0 <= i < 17 ==> if i % 3 == 2 {
                #[trigger] mac_text(octets)[i] == ':'
            } else {
                is_upper_hex(mac_text(octets)[i])
            },
        forall|k: int|
            0 <= k < 6 ==> #[trigger] mac_text(octets).subrange(3 * k, 3 * k + 2) == octet_text(
                octets[k],
            ),
{
    let text = mac_text(octets);
    assert forall|k: int| 0 <= k < 6 implies #[trigger] text.subrange(3 * k, 3 * k + 2)
        == octet_text(octets[k]) by {
        assert(text.subrange(3 * k, 3 * k + 2) =~= octet_text(octets[k]));
    }
    assert forall|i: int| 0 <= i < 17 implies if i % 3 == 2 {
        #[trigger] text[i] == ':'
    } else {
        is_upper_hex(text[i])
    } by {
        let k = i / 3;
        let b = octets[k];
        assert(is_upper_hex(upper_hex_digit(b as int / 16)));
        assert(is_upper_hex(upper_hex_digit(b as int % 16)));
        assert(text.subrange(3 * k, 3 * k + 2) =~= octet_text(b));
        if i % 3 == 0 {
            assert(text[i] == text.subrange(3 * k, 3 * k + 2)[0]);
        } else if i % 3 == 1 {
            assert(text[i] == text.subrange(3 * k, 3 * k + 2)[1]);
        }
    }
}

/// The precedence of the flags: the current flag decides whatever else is
/// given, and the top-level random flag decides whatever `set` holds.
pub proof fn lemma_flag_precedence(args: ArgsView, generated: Seq<u8>)
    ensures
        args.current ==> started(args, generated).notes.len() == 0 && started(args, generated).next
            == NextView::Enumerate(PendingView::Current),
        !args.current && args.random ==> started(args, generated) == resolved(
            ResolvedActionView::ShowRandom { address: generated },
        ),
{
}

/// An interface alone, whatever its name, gives the advisory at once, and no
/// command is run for it.
pub proof fn lemma_interface_alone(interface: Seq<char>, generated: Seq<u8>)
    ensures
        set_started(
            SetView { address: None, interface: Some(interface), random: false },
            generated,
        ) == resolved(ResolvedActionView::Advisory(AdvisoryView::InterfaceAlone)),
        action_args(ResolvedActionView::Advisory(AdvisoryView::InterfaceAlone)).len() == 0,
{
}

/// With the random flag a given address plays no part in what is done,
/// whether or not it parses: the generated address is carried, and the only
/// trace of the given one is a single advisory, shown first.
pub proof fn lemma_random_over_address(
    text: Seq<char>,
    interface: Option<Seq<char>>,
    generated: Seq<u8>,
)
    ensures
        ({
            let with = set_started(
                SetView { address: Some(text), interface, random: true },
                generated,
            );
            let without = set_started(SetView { address: None, interface, random: true }, generated);
            &&& with.next == without.next
            &&& with.next == NextView::Enumerate(
                PendingView::Apply { origin: Origin::Random, address: generated, interface },
            )
            &&& with.notes == seq![AdvisoryView::RandomOverAddress] + without.notes
            &&& !without.notes.contains(AdvisoryView::RandomOverAddress)
        }),
{
    let with = set_started(SetView { address: Some(text), interface, random: true }, generated);
    let without = set_started(SetView { address: None, interface, random: true }, generated);
    assert(with.notes =~= seq![AdvisoryView::RandomOverAddress] + without.notes);
}

/// Without the random flag, a text that is no address gives the error of
/// the parser at once, whatever interface is named.
pub proof fn lemma_invalid_address(
    text: Seq<char>,
    interface: Option<Seq<char>>,
    generated: Seq<u8>,
)
    requires
        parse_outcome(text) is Err,
    ensures
        set_started(SetView { address: Some(text), interface, random: false }, generated)
            == resolved(
            ResolvedActionView::Error(
                ErrorKindView::InvalidAddressInput {
                    input: text,
                    error: parse_outcome(text)->Err_0,
                },
            ),
        ),
{
}

/// Nothing is applied before the interface table is read: an action that
/// the first step resolves runs no command.
pub proof fn lemma_no_command_at_once(args: ArgsView, generated: Seq<u8>)
    ensures
        started(args, generated).next matches NextView::Resolved(action) ==> assignment(action)
            is None && action_args(action).len() == 0,
{
}

/// The second step applies an address only where one is pending, and then
/// the pending one: to the named interface, which the table lists, or else
/// to the interface that a lookup without a name returns.
pub proof fn lemma_applies_pending(pending: PendingView, table: Seq<Entry>)
    ensures
        assignment(concluded(pending, table)) matches Some((name, applied)) ==> {
            &&& pending matches PendingView::Apply { origin, address, interface }
            &&& applied == address
            &&& match interface {
                Some(given) => name == given && is_listed(table, given),
                None => info(table, None) matches Some((first, _)) && name == first,
            }
        },
        pending is Current ==> assignment(concluded(pending, table)) is None,
{
}

} // verus!
