use vstd::prelude::*;
use crate::text::{chars_of, range_eq_str};

verus! {

/// The kind of a networked property.
#[derive(Clone, Copy, Debug, PartialEq, Eq, Structural)]
pub enum SendPropKind {
    Int,
    Float,
    Vector,
    VectorXY,
    String,
    Array,
    DataTable,
    Int64,
    NumSendPropKinds,
}

/// A networked property of a receive table, possibly with a table of its own.
pub struct RecvProp {
    pub name: String,
    pub kind: SendPropKind,
    pub offset: i32,
    pub table: Option<Box<RecvTable>>,
}

/// A receive table: a named list of properties.
pub struct RecvTable {
    pub name: String,
    pub props: Vec<RecvProp>,
}

/// A networked class and its receive table.
pub struct ClientClass {
    pub name: String,
    pub recv_table: RecvTable,
}

/// The offset of one property of one class.
#[derive(Clone, Debug)]
pub struct NetvarEntry {
    pub class_name: String,
    pub prop_name: String,
    pub offset: usize,
}

/// A recorded offset as plain values.
pub open spec fn entry_view(e: NetvarEntry) -> (Seq<char>, Seq<char>, usize) {
    (e.class_name@, e.prop_name@, e.offset)
}

/// Whether a name starts with a decimal digit (array elements are named by their index).
pub open spec fn starts_with_digit(name: Seq<char>) -> bool {
    name.len() > 0 && '0' <= name[0] <= '9'
}

/// Whether the nested table of a property is walked: its name starts with `D` and the
/// property's kind is the last kind.
pub open spec fn walks_into(p: RecvProp) -> bool {
    &&& p.table matches Some(t)
    &&& t.name@.len() > 0
    &&& t.name@[0] == 'D'
    &&& p.kind == SendPropKind::NumSendPropKinds
}

/// The offsets recorded for the first `n` properties of `t`, in the order they are
/// recorded: names starting with a digit and `baseclass` are skipped; a walked nested
/// table's offsets come before the property's own.
pub open spec fn walk_offsets(class_name: Seq<char>, t: RecvTable, n: int) -> Seq<(Seq<char>, Seq<char>, usize)>
    decreases t, n,
{
    if n <= 0 || n > t.props@.len() {
        Seq::empty()
    } else {
        let prev = walk_offsets(class_name, t, n - 1);
        let p = t.props@[n - 1];
        if starts_with_digit(p.name@) || p.name@ == "baseclass"@ {
            prev
        } else {
            let nested = if walks_into(p) {
                proof {
                    assert(decreases_to!(t => t.props));
                    assert(decreases_to!(t.props => t.props@));
                    assert(decreases_to!(t.props@ => t.props@[n - 1]));
                }
                let c = *p.table->0;
                walk_offsets(class_name, c, c.props@.len() as int)
            } else {
                Seq::empty()
            };
            prev + nested + seq![(class_name, p.name@, p.offset as usize)]
        }
    }
}


/// Records the offsets of the properties of `table` (see `walk_offsets`).
fn walk_table(offsets: &mut Vec<NetvarEntry>, class_name: &String, table: &RecvTable)
    ensures
        final(offsets)@.map_values(|e: NetvarEntry| entry_view(e)) == old(offsets)@.map_values(
            |e: NetvarEntry| entry_view(e),
        ) + walk_offsets(class_name@, *table, table.props@.len() as int),
    decreases table,
{
    let ghost start = old(offsets)@.map_values(|e: NetvarEntry| entry_view(e));
    let mut i: usize = 0;
    while i < table.props.len()
        invariant
            i <= table.props.len(),
            offsets@.map_values(|e: NetvarEntry| entry_view(e)) == start + walk_offsets(
                class_name@,
                *table,
                i as int,
            ),
        decreases table.props.len() - i,
    {
        let prop = &table.props[i];
        let name = chars_of(prop.name.as_str());
        let n = name.len();
        assert(name@.subrange(0, n as int) =~= name@);
        let digit = n > 0 && '0' <= name[0] && name[0] <= '9';
        if digit || range_eq_str(&name, 0, n, "baseclass") {
            i = i + 1;
            continue;
        }
        let ghost before = offsets@.map_values(|e: NetvarEntry| entry_view(e));
        let mut walked = false;
        match &prop.table {
            Some(t) => {
                let tname = chars_of(t.name.as_str());
                if tname.len() > 0 && tname[0] == 'D' && prop.kind == SendPropKind::NumSendPropKinds {
                    proof {
                        assert(decreases_to!(*table => table.props));
                        assert(decreases_to!(table.props => table.props@));
                        assert(decreases_to!(table.props@ => table.props@[i as int]));
                    }
                    walk_table(offsets, class_name, t);
                    walked = true;
                }
            },
            None => {},
        }
        let ghost mid = offsets@.map_values(|e: NetvarEntry| entry_view(e));
        assert(walked == walks_into(*prop));
        offsets.push(NetvarEntry { class_name: class_name.clone(), prop_name: prop.name.clone(), offset: prop.offset as usize });
        i = i + 1;
        proof {
            let nested = if walks_into(*prop) {
                let c = *prop.table->0;
                walk_offsets(class_name@, c, c.props@.len() as int)
            } else {
                Seq::empty()
            };
            assert(mid == before + nested);
            assert(offsets@.map_values(|e: NetvarEntry| entry_view(e)) =~= mid.push(
                (class_name@, prop.name@, prop.offset as usize),
            ));
            assert(walk_offsets(class_name@, *table, i as int) == walk_offsets(class_name@, *table, i - 1)
                + nested + seq![(class_name@, prop.name@, prop.offset as usize)]);
        }
    }
}


/// The offsets recorded for the first `n` classes.
pub open spec fn classes_offsets(classes: Seq<ClientClass>, n: int) -> Seq<(Seq<char>, Seq<char>, usize)>
    decreases n,
{
    if n <= 0 || n > classes.len() {
        Seq::empty()
    } else {
        let c = classes[n - 1];
        classes_offsets(classes, n - 1) + walk_offsets(c.name@, c.recv_table, c.recv_table.props@.len() as int)
    }
}

/// The offset recorded last for a class and property, if any.
pub open spec fn last_offset(entries: Seq<(Seq<char>, Seq<char>, usize)>, class_name: Seq<char>, prop_name: Seq<char>) -> Option<usize>
    decreases entries.len(),
{
    if entries.len() == 0 {
        None
    } else if entries.last().0 == class_name && entries.last().1 == prop_name {
        Some(entries.last().2)
    } else {
        last_offset(entries.drop_last(), class_name, prop_name)
    }
}

/// The offsets of every networked property, by class and property name.
pub struct NetvarManager {
    pub offsets: Vec<NetvarEntry>,
}

impl View for NetvarManager {
    type V = Seq<(Seq<char>, Seq<char>, usize)>;

    open spec fn view(&self) -> Seq<(Seq<char>, Seq<char>, usize)> {
        self.offsets@.map_values(|e: NetvarEntry| entry_view(e))
    }
}

impl NetvarManager {
    /// Walks the receive tables of every class, in order, and records the offsets.
    pub fn precache(classes: &Vec<ClientClass>) -> (m: Self)
        ensures
            m@ == classes_offsets(classes@, classes@.len() as int),
    {
        let mut offsets: Vec<NetvarEntry> = Vec::new();
        let mut i: usize = 0;
        while i < classes.len()
            invariant
                i <= classes.len(),
                offsets@.map_values(|e: NetvarEntry| entry_view(e)) == classes_offsets(classes@, i as int),
            decreases classes.len() - i,
        {
            let cc = &classes[i];
            walk_table(&mut offsets, &cc.name, &cc.recv_table);
            i = i + 1;
        }
        NetvarManager { offsets }
    }

    /// The offset of a property of a class; the one walked last when it was seen twice.
    pub fn get(&self, class_name: &str, prop_name: &str) -> (r: Option<usize>)
        ensures
            r == last_offset(self@, class_name@, prop_name@),
    {
        let c = String::from_str(class_name);
        let p = String::from_str(prop_name);
        let mut i = self.offsets.len();
        assert(self@.take(i as int) =~= self@);
        while i > 0
            invariant
                i <= self.offsets.len(),
                c@ == class_name@,
                p@ == prop_name@,
                last_offset(self@, class_name@, prop_name@) == last_offset(self@.take(i as int), class_name@, prop_name@),
            decreases i,
        {
            let e = &self.offsets[i - 1];
            assert(self@.take(i as int).last() == entry_view(*e));
            assert(self@.take(i as int).drop_last() =~= self@.take(i - 1));
            if e.class_name == c && e.prop_name == p {
                return Some(e.offset);
            }
            i = i - 1;
        }
        None
    }
}

/// A lookup finds what the walk recorded: if the last entry recorded for a class and
/// property holds `o`, looking them up gives `o`; recording another entry for them makes
/// the lookup give its offset.
pub proof fn law_lookup_after_record(
    entries: Seq<(Seq<char>, Seq<char>, usize)>,
    class_name: Seq<char>,
    prop_name: Seq<char>,
    offset: usize,
)
    ensures
        last_offset(entries.push((class_name, prop_name, offset)), class_name, prop_name) == Some(offset),
{
}

/// A lookup only gives offsets that were recorded for that class and property.
pub proof fn law_lookup_was_recorded(
    entries: Seq<(Seq<char>, Seq<char>, usize)>,
    class_name: Seq<char>,
    prop_name: Seq<char>,
)
    ensures
        last_offset(entries, class_name, prop_name) matches Some(o) ==> entries.contains(
            (class_name, prop_name, o),
        ),
        last_offset(entries, class_name, prop_name) is None ==> forall|o: usize|
            !entries.contains((class_name, prop_name, o)),
    decreases entries.len(),
{
    if entries.len() > 0 {
        law_lookup_was_recorded(entries.drop_last(), class_name, prop_name);
        let d = entries.drop_last();
        if let Some(o) = last_offset(d, class_name, prop_name) {
            let j = choose|j: int| 0 <= j < d.len() && d[j] == (class_name, prop_name, o);
            assert(entries[j] == d[j]);
        }
        if last_offset(entries, class_name, prop_name) is None {
            assert forall|o: usize| !entries.contains((class_name, prop_name, o)) by {
                if entries.contains((class_name, prop_name, o)) {
                    let j = choose|j: int| 0 <= j < entries.len() && entries[j] == (class_name, prop_name, o);
                    if j < d.len() {
                        assert(d[j] == entries[j]);
                        assert(d.contains((class_name, prop_name, o)));
                    }
                }
            }
        }
    }
}

} // verus!
