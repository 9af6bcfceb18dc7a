//! Named tags in which a mob's state is saved.

use vstd::prelude::*;

use crate::text::same_text;

verus! {

/// One saved value.
pub enum NbtTag {
    Byte(i8),
    Int(i32),
    Long(i64),
    /// A floating-point number, by its bits.
    Double(u64),
    Text(String),
    IntArray(Vec<i32>),
    /// The identifier of an entity.
    Id(u128),
    List(Vec<NbtTag>),
    Compound(NbtCompound),
}

/// Saved values under their names. A name that was put twice keeps its last value.
pub struct NbtCompound {
    entries: Vec<(String, NbtTag)>,
}

/// What a tag holds. Lists and compounds stand for themselves.
pub enum NbtValue {
    Byte(i8),
    Int(i32),
    Long(i64),
    Double(u64),
    Text(Seq<char>),
    IntArray(Seq<i32>),
    Id(u128),
    List(Vec<NbtTag>),
    Compound(NbtCompound),
}

impl View for NbtTag {
    type V = NbtValue;

    open spec fn view(&self) -> NbtValue {
        match *self {
            NbtTag::Byte(v) => NbtValue::Byte(v),
            NbtTag::Int(v) => NbtValue::Int(v),
            NbtTag::Long(v) => NbtValue::Long(v),
            NbtTag::Double(v) => NbtValue::Double(v),
            NbtTag::Text(v) => NbtValue::Text(v@),
            NbtTag::IntArray(v) => NbtValue::IntArray(v@),
            NbtTag::Id(v) => NbtValue::Id(v),
            NbtTag::List(v) => NbtValue::List(v),
            NbtTag::Compound(v) => NbtValue::Compound(v),
        }
    }
}

/// The values that a list of entries gives to names: for each name its last entry counts.
pub closed spec fn entries_map(entries: Seq<(String, NbtTag)>) -> Map<Seq<char>, NbtValue>
    decreases entries.len(),
{
    if entries.len() == 0 {
        Map::empty()
    } else {
        entries_map(entries.drop_last()).insert(entries.last().0@, entries.last().1@)
    }
}

impl View for NbtCompound {
    type V = Map<Seq<char>, NbtValue>;

    closed spec fn view(&self) -> Map<Seq<char>, NbtValue> {
        entries_map(self.entries@)
    }
}

/// The byte under a name, where there is one.
pub open spec fn byte_at(m: Map<Seq<char>, NbtValue>, name: Seq<char>) -> Option<i8> {
    if m.contains_key(name) && m[name] is Byte {
        Some(m[name]->Byte_0)
    } else {
        None
    }
}

/// The truth value under a name: a byte other than zero is true.
pub open spec fn bool_at(m: Map<Seq<char>, NbtValue>, name: Seq<char>) -> Option<bool> {
    match byte_at(m, name) {
        Some(v) => Some(v != 0),
        None => None,
    }
}

/// The integer under a name, where there is one.
pub open spec fn int_at(m: Map<Seq<char>, NbtValue>, name: Seq<char>) -> Option<i32> {
    if m.contains_key(name) && m[name] is Int {
        Some(m[name]->Int_0)
    } else {
        None
    }
}

/// The long integer under a name, where there is one.
pub open spec fn long_at(m: Map<Seq<char>, NbtValue>, name: Seq<char>) -> Option<i64> {
    if m.contains_key(name) && m[name] is Long {
        Some(m[name]->Long_0)
    } else {
        None
    }
}

/// The bits of the floating-point number under a name, where there is one.
pub open spec fn double_at(m: Map<Seq<char>, NbtValue>, name: Seq<char>) -> Option<u64> {
    if m.contains_key(name) && m[name] is Double {
        Some(m[name]->Double_0)
    } else {
        None
    }
}

/// The text under a name, where there is one.
pub open spec fn text_at(m: Map<Seq<char>, NbtValue>, name: Seq<char>) -> Option<Seq<char>> {
    if m.contains_key(name) && m[name] is Text {
        Some(m[name]->Text_0)
    } else {
        None
    }
}

/// The integers under a name, where there is an array of them.
pub open spec fn ints_at(m: Map<Seq<char>, NbtValue>, name: Seq<char>) -> Option<Seq<i32>> {
    if m.contains_key(name) && m[name] is IntArray {
        Some(m[name]->IntArray_0)
    } else {
        None
    }
}

/// The identifier under a name, where there is one.
pub open spec fn id_at(m: Map<Seq<char>, NbtValue>, name: Seq<char>) -> Option<u128> {
    if m.contains_key(name) && m[name] is Id {
        Some(m[name]->Id_0)
    } else {
        None
    }
}

/// The list under a name, where there is one.
pub open spec fn list_at(m: Map<Seq<char>, NbtValue>, name: Seq<char>) -> Option<Vec<NbtTag>> {
    if m.contains_key(name) && m[name] is List {
        Some(m[name]->List_0)
    } else {
        None
    }
}

/// The compound under a name, where there is one.
pub open spec fn compound_at(m: Map<Seq<char>, NbtValue>, name: Seq<char>) -> Option<NbtCompound> {
    if m.contains_key(name) && m[name] is Compound {
        Some(m[name]->Compound_0)
    } else {
        None
    }
}

/// How a truth value is saved.
pub open spec fn bool_value(value: bool) -> NbtValue {
    NbtValue::Byte(if value { 1 } else { 0 })
}

impl NbtCompound {
    /// A compound that holds nothing.
    pub fn new() -> (nbt: Self)
        ensures
            nbt@ == Map::<Seq<char>, NbtValue>::empty(),
    {
        NbtCompound { entries: Vec::new() }
    }

    /// Saves a tag under a name, in place of what stood there.
    pub fn put(&mut self, name: &str, tag: NbtTag)
        ensures
            final(self)@ == old(self)@.insert(name@, tag@),
    {
        let ghost before = self.entries@;
        self.entries.push((name.to_owned(), tag));
        assert(self.entries@.drop_last() =~= before);
    }

    pub fn put_byte(&mut self, name: &str, value: i8)
        ensures
            final(self)@ == old(self)@.insert(name@, NbtValue::Byte(value)),
    {
        self.put(name, NbtTag::Byte(value));
    }

    pub fn put_bool(&mut self, name: &str, value: bool)
        ensures
            final(self)@ == old(self)@.insert(name@, bool_value(value)),
    {
        self.put(name, NbtTag::Byte(if value { 1 } else { 0 }));
    }

    pub fn put_int(&mut self, name: &str, value: i32)
        ensures
            final(self)@ == old(self)@.insert(name@, NbtValue::Int(value)),
    {
        self.put(name, NbtTag::Int(value));
    }

    pub fn put_long(&mut self, name: &str, value: i64)
        ensures
            final(self)@ == old(self)@.insert(name@, NbtValue::Long(value)),
    {
        self.put(name, NbtTag::Long(value));
    }

    pub fn put_double(&mut self, name: &str, bits: u64)
        ensures
            final(self)@ == old(self)@.insert(name@, NbtValue::Double(bits)),
    {
        self.put(name, NbtTag::Double(bits));
    }

    pub fn put_string(&mut self, name: &str, value: &str)
        ensures
            final(self)@ == old(self)@.insert(name@, NbtValue::Text(value@)),
    {
        self.put(name, NbtTag::Text(value.to_owned()));
    }

    pub fn put_id(&mut self, name: &str, value: u128)
        ensures
            final(self)@ == old(self)@.insert(name@, NbtValue::Id(value)),
    {
        self.put(name, NbtTag::Id(value));
    }

    /// The tag under a name.
    pub fn get(&self, name: &str) -> (tag: Option<&NbtTag>)
        ensures
            tag is Some == self@.contains_key(name@),
            tag is Some ==> tag->0@ == self@[name@],
    {
        let mut i: usize = self.entries.len();
        assert(self.entries@.take(i as int) =~= self.entries@);
        while i > 0
            invariant
                i <= self.entries.len(),
                self@ == entries_map(self.entries@),
                entries_map(self.entries@.take(i as int)).contains_key(name@)
                    == self@.contains_key(name@),
                self@.contains_key(name@) ==> entries_map(self.entries@.take(i as int))[name@]
                    == self@[name@],
            decreases i,
        {
            let ghost prefix = self.entries@.take(i as int);
            assert(prefix.drop_last() =~= self.entries@.take(i - 1));
            i = i - 1;
            if same_text(self.entries[i].0.as_str(), name) {
                return Some(&self.entries[i].1);
            }
        }
        None
    }

    pub fn get_byte(&self, name: &str) -> (value: Option<i8>)
        ensures
            value == byte_at(self@, name@),
    {
        match self.get(name) {
            Some(NbtTag::Byte(v)) => Some(*v),
            _ => None,
        }
    }

    pub fn get_bool(&self, name: &str) -> (value: Option<bool>)
        ensures
            value == bool_at(self@, name@),
    {
        match self.get(name) {
            Some(NbtTag::Byte(v)) => Some(*v != 0),
            _ => None,
        }
    }

    pub fn get_int(&self, name: &str) -> (value: Option<i32>)
        ensures
            value == int_at(self@, name@),
    {
        match self.get(name) {
            Some(NbtTag::Int(v)) => Some(*v),
            _ => None,
        }
    }

    pub fn get_long(&self, name: &str) -> (value: Option<i64>)
        ensures
            value == long_at(self@, name@),
    {
        match self.get(name) {
            Some(NbtTag::Long(v)) => Some(*v),
            _ => None,
        }
    }

    pub fn get_double(&self, name: &str) -> (bits: Option<u64>)
        ensures
            bits == double_at(self@, name@),
    {
        match self.get(name) {
            Some(NbtTag::Double(v)) => Some(*v),
            _ => None,
        }
    }

    pub fn get_string(&self, name: &str) -> (value: Option<&str>)
        ensures
            value is Some == text_at(self@, name@) is Some,
            value is Some ==> value->0@ == text_at(self@, name@)->0,
    {
        match self.get(name) {
            Some(NbtTag::Text(v)) => Some(v.as_str()),
            _ => None,
        }
    }

    pub fn get_id(&self, name: &str) -> (value: Option<u128>)
        ensures
            value == id_at(self@, name@),
    {
        match self.get(name) {
            Some(NbtTag::Id(v)) => Some(*v),
            _ => None,
        }
    }

    pub fn get_int_array(&self, name: &str) -> (value: Option<&Vec<i32>>)
        ensures
            value is Some == ints_at(self@, name@) is Some,
            value is Some ==> value->0@ == ints_at(self@, name@)->0,
    {
        match self.get(name) {
            Some(NbtTag::IntArray(v)) => Some(v),
            _ => None,
        }
    }

    pub fn get_list(&self, name: &str) -> (value: Option<&Vec<NbtTag>>)
        ensures
            value is Some == list_at(self@, name@) is Some,
            value is Some ==> *value->0 == list_at(self@, name@)->0,
    {
        match self.get(name) {
            Some(NbtTag::List(v)) => Some(v),
            _ => None,
        }
    }

    pub fn get_compound(&self, name: &str) -> (value: Option<&NbtCompound>)
        ensures
            value is Some == compound_at(self@, name@) is Some,
            value is Some ==> *value->0 == compound_at(self@, name@)->0,
    {
        match self.get(name) {
            Some(NbtTag::Compound(v)) => Some(v),
            _ => None,
        }
    }
}

/// What stands under a name is read as its own kind, whatever else is there, and as no other.
pub proof fn law_values_are_read_by_kind(m: Map<Seq<char>, NbtValue>, name: Seq<char>, value: NbtValue)
    ensures
        byte_at(m.insert(name, value), name) is Some <==> value is Byte,
        value is Byte ==> byte_at(m.insert(name, value), name)->0 == value->Byte_0,
        int_at(m.insert(name, value), name) is Some <==> value is Int,
        value is Int ==> int_at(m.insert(name, value), name)->0 == value->Int_0,
        long_at(m.insert(name, value), name) is Some <==> value is Long,
        value is Long ==> long_at(m.insert(name, value), name)->0 == value->Long_0,
        double_at(m.insert(name, value), name) is Some <==> value is Double,
        value is Double ==> double_at(m.insert(name, value), name)->0 == value->Double_0,
        text_at(m.insert(name, value), name) is Some <==> value is Text,
        value is Text ==> text_at(m.insert(name, value), name)->0 == value->Text_0,
        ints_at(m.insert(name, value), name) is Some <==> value is IntArray,
        value is IntArray ==> ints_at(m.insert(name, value), name)->0 == value->IntArray_0,
        id_at(m.insert(name, value), name) is Some <==> value is Id,
        value is Id ==> id_at(m.insert(name, value), name)->0 == value->Id_0,
        list_at(m.insert(name, value), name) is Some <==> value is List,
        value is List ==> list_at(m.insert(name, value), name)->0 == value->List_0,
        compound_at(m.insert(name, value), name) is Some <==> value is Compound,
        value is Compound ==> compound_at(m.insert(name, value), name)->0 == value->Compound_0,
        bool_at(m.insert(name, value), name) is Some <==> value is Byte,
        value is Byte ==> bool_at(m.insert(name, value), name)->0 == (value->Byte_0 != 0),
{
}

/// Nothing is read under a name that is not there.
pub proof fn law_missing_names_read_as_nothing(m: Map<Seq<char>, NbtValue>, name: Seq<char>)
    requires
        !m.contains_key(name),
    ensures
        byte_at(m, name) is None,
        int_at(m, name) is None,
        long_at(m, name) is None,
        double_at(m, name) is None,
        text_at(m, name) is None,
        ints_at(m, name) is None,
        id_at(m, name) is None,
        list_at(m, name) is None,
        compound_at(m, name) is None,
        bool_at(m, name) is None,
{
}

} // verus!
