//! Lookups in a snapshot of the host's interface table.
//!
//! The operating system lists one entry per interface and address family;
//! only the entries of the link-layer family carry a hardware address. The
//! snapshot keeps the order in which the entries were listed, and nothing
//! here reorders it.

use vstd::prelude::*;
use crate::mac::{is_all_zero, MacAddr};

verus! {

/// One entry of the interface table.
#[derive(Clone, Debug, PartialEq, Eq)]
pub struct InterfaceRecord {
    /// The interface's name.
    pub name: String,
    /// The hardware address, for an entry of the link-layer family.
    pub link: Option<MacAddr>,
}

/// An entry as plain values: the characters of the name and, for a
/// link-layer entry, the six octets.
pub struct Entry {
    pub name: Seq<char>,
    pub link: Option<Seq<u8>>,
}

impl View for InterfaceRecord {
    type V = Entry;

    open spec fn view(&self) -> Entry {
        Entry {
            name: self.name@,
            link: match self.link {
                Some(address) => Some(address@),
                None => None,
            },
        }
    }
}

/// The table that a list of records stands for.
pub open spec fn table_of(records: Seq<InterfaceRecord>) -> Seq<Entry> {
    Seq::new(records.len(), |i: int| records[i]@)
}

/// The name that a lookup asks for, as characters.
pub open spec fn wanted(name: Option<&str>) -> Option<Seq<char>> {
    match name {
        Some(n) => Some(n@),
        None => None,
    }
}

/// Some entry, of any address family, has exactly the name `name`.
pub open spec fn is_listed(table: Seq<Entry>, name: Seq<char>) -> bool {
    exists|i: int| 0 <= i < table.len() && (#[trigger] table[i]).name == name
}

/// Whether `entry` answers a lookup. Only link-layer entries do: for a given
/// name the entry of that name, whatever its address; without a name an
/// entry whose address is not all zero.
pub open spec fn answers(entry: Entry, name: Option<Seq<char>>) -> bool {
    match entry.link {
        Some(address) => match name {
            Some(n) => entry.name == n,
            None => !is_all_zero(address),
        },
        None => false,
    }
}

/// Entry `i` answers the lookup and no earlier entry does.
pub open spec fn is_first_answer(table: Seq<Entry>, name: Option<Seq<char>>, i: int) -> bool {
    &&& 0 <= i < table.len()
    &&& answers(table[i], name)
    &&& forall|j: int| 0 <= j < i ==> !answers(#[trigger] table[j], name)
}

/// The position of the entry that a lookup returns: the first that answers
/// it, in the order of the table.
pub open spec fn lookup(table: Seq<Entry>, name: Option<Seq<char>>) -> Option<int> {
    if exists|i: int| is_first_answer(table, name, i) {
        Some(choose|i: int| is_first_answer(table, name, i))
    } else {
        None
    }
}

/// What a lookup returns: the name and the address of the entry at
/// [`lookup`], or nothing where no entry answers.
pub open spec fn info(table: Seq<Entry>, name: Option<Seq<char>>) -> Option<
    (Seq<char>, Seq<u8>),
> {
    match lookup(table, name) {
        Some(i) => Some((table[i].name, table[i].link.unwrap())),
        None => None,
    }
}

/// The lookup returns the first answering entry, and nothing only if no
/// entry answers.
pub proof fn lemma_lookup(table: Seq<Entry>, name: Option<Seq<char>>)
    ensures
        lookup(table, name) matches Some(i) ==> is_first_answer(table, name, i),
        lookup(table, name) is None ==> forall|j: int|
            0 <= j < table.len() ==> !answers(#[trigger] table[j], name),
        forall|i: int| is_first_answer(table, name, i) ==> lookup(table, name) == Some(i),
{
    assert forall|i: int| is_first_answer(table, name, i) implies lookup(table, name) == Some(
        i,
    ) by {
        let c = choose|i: int| is_first_answer(table, name, i);
        if c < i {
            assert(!answers(table[c], name));
        } else if i < c {
            assert(!answers(table[i], name));
        }
    }
    if lookup(table, name) is None {
        assert forall|j: int| 0 <= j < table.len() implies !answers(
            #[trigger] table[j],
            name,
        ) by {
            if answers(table[j], name) {
                lemma_first_answer_exists(table, name, j);
            }
        }
    }
}

/// If some entry answers, some entry is the first to answer.
proof fn lemma_first_answer_exists(table: Seq<Entry>, name: Option<Seq<char>>, j: int)
    requires
        0 <= j < table.len(),
        answers(table[j], name),
    ensures
        exists|i: int| is_first_answer(table, name, i),
    decreases j,
{
    if exists|k: int| 0 <= k < j && answers(#[trigger] table[k], name) {
        let k = choose|k: int| 0 <= k < j && answers(#[trigger] table[k], name);
        lemma_first_answer_exists(table, name, k);
    } else {
        assert(is_first_answer(table, name, j));
    }
}

/// Without a name, a lookup returns the first link-layer entry whose
/// address is not all zero: every entry before it is of another family or
/// all zero.
pub proof fn lemma_lookup_unnamed(table: Seq<Entry>)
    ensures
        match lookup(table, None) {
            Some(i) => {
                &&& 0 <= i < table.len()
                &&& table[i].link matches Some(address)
                &&& !is_all_zero(address)
                &&& info(table, None) == Some((table[i].name, address))
                &&& forall|j: int|
                    0 <= j < i ==> ((#[trigger] table[j]).link matches Some(earlier)
                        ==> is_all_zero(earlier))
            },
            None => forall|j: int|
                0 <= j < table.len() ==> ((#[trigger] table[j]).link matches Some(address)
                    ==> is_all_zero(address)),
        },
{
    lemma_lookup(table, None);
    match lookup(table, None) {
        Some(i) => {
            assert forall|j: int| 0 <= j < i implies ((#[trigger] table[j]).link matches Some(
                earlier,
            ) ==> is_all_zero(earlier)) by {
                assert(!answers(table[j], None));
            }
        },
        None => {
            assert forall|j: int| 0 <= j < table.len() implies ((#[trigger] table[j]).link matches Some(
                address,
            ) ==> is_all_zero(address)) by {
                assert(!answers(table[j], None));
            }
        },
    }
}

/// With a name, a lookup returns the first link-layer entry of that name,
/// whether or not its address is all zero, and whatever other entries hold.
pub proof fn lemma_lookup_named(table: Seq<Entry>, name: Seq<char>)
    ensures
        match lookup(table, Some(name)) {
            Some(i) => {
                &&& 0 <= i < table.len()
                &&& table[i].name == name
                &&& table[i].link matches Some(address)
                &&& info(table, Some(name)) == Some((name, address))
                &&& forall|j: int|
                    0 <= j < i ==> !((#[trigger] table[j]).name == name && table[j].link is Some)
            },
            None => forall|j: int|
                0 <= j < table.len() ==> !((#[trigger] table[j]).name == name
                    && table[j].link is Some),
        },
{
    lemma_lookup(table, Some(name));
    match lookup(table, Some(name)) {
        Some(i) => {
            assert forall|j: int| 0 <= j < i implies !((#[trigger] table[j]).name == name
                && table[j].link is Some) by {
                assert(!answers(table[j], Some(name)));
            }
        },
        None => {
            assert forall|j: int| 0 <= j < table.len() implies !((#[trigger] table[j]).name
                == name && table[j].link is Some) by {
                assert(!answers(table[j], Some(name)));
            }
        },
    }
}

/// Whether an interface of this name is in the table. Entries of every
/// address family count, and the name must match exactly.
pub fn inter_exists(records: &[InterfaceRecord], inter: &str) -> (found: bool)
    ensures
        found == is_listed(table_of(records@), inter@),
{
    let name = inter.to_owned();
    let ghost table = table_of(records@);
    let mut i: usize = 0;
    while i < records.len()
        invariant
            i <= records.len(),
            name@ == inter@,
            table == table_of(records@),
            forall|j: int| 0 <= j < i ==> (#[trigger] table[j]).name != inter@,
        decreases records.len() - i,
    {
        if records[i].name == name {
            assert(table[i as int].name == inter@);
            return true;
        }
        i += 1;
    }
    false
}

/// The name and hardware address of an interface.
///
/// With a name: the first link-layer entry of that name, whatever its
/// address. Without one: the first link-layer entry whose address is not all
/// zero. `None` if the table has no such entry, which is no error.
pub fn get_info(records: &[InterfaceRecord], name: Option<&str>) -> (found: Option<
    (String, MacAddr),
>)
    ensures
        match info(table_of(records@), wanted(name)) {
            Some((interface, address)) => found matches Some((n, a)) && n@ == interface && a@
                == address,
            None => found is None,
        },
{
    let target: Option<String> = match name {
        Some(n) => Some(n.to_owned()),
        None => None,
    };
    let ghost table = table_of(records@);
    let mut i: usize = 0;
    while i < records.len()
        invariant
            i <= records.len(),
            table == table_of(records@),
            target is Some == name is Some,
            target matches Some(t) ==> wanted(name) == Some(t@),
            forall|j: int| 0 <= j < i ==> !answers(#[trigger] table[j], wanted(name)),
        decreases records.len() - i,
    {
        if let Some(address) = records[i].link {
            let hit = match &target {
                Some(t) => records[i].name == *t,
                None => !address.is_zero(),
            };
            if hit {
                proof {
                    assert(table[i as int] == records@[i as int]@);
                    assert(is_first_answer(table, wanted(name), i as int));
                    lemma_lookup(table, wanted(name));
                }
                return Some((records[i].name.clone(), address));
            }
        }
        proof {
            assert(table[i as int] == records@[i as int]@);
        }
        i += 1;
    }
    proof {
        lemma_lookup(table, wanted(name));
    }
    None
}

} // verus!
