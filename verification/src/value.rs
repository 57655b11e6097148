//! The intermediate value: what a parsed text holds before a typed value is extracted from it.

use vstd::prelude::*;

verus! {

/// What an intermediate value holds, as mathematics: the view of a [`DeSerialResult`].
pub enum Content {
    Bool(bool),
    Int(int),
    /// A float, by the 64 bits of its IEEE 754 encoding.
    Float(u64),
    Str(Seq<char>),
    List(Seq<Content>),
    Record(Map<Seq<char>, Content>),
}

/// Any parsed value. It is made once, by parsing, and moved into the extraction that
/// consumes it.
#[derive(Debug)]
pub enum DeSerialResult {
    Bool(bool),
    Int(i64),
    /// A float, by the 64 bits of its IEEE 754 encoding.
    Float(u64),
    String(String),
    Vec(Vec<DeSerialResult>),
    Struct(Record),
}

/// The fields of a record: a value under each name, and no name twice. The order of the fields
/// means nothing.
#[derive(Debug)]
pub struct Record {
    fields: Vec<(String, DeSerialResult)>,
}

impl View for DeSerialResult {
    type V = Content;

    open spec fn view(&self) -> Content
        decreases self,
    {
        match self {
            DeSerialResult::Bool(b) => Content::Bool(*b),
            DeSerialResult::Int(i) => Content::Int(*i as int),
            DeSerialResult::Float(bits) => Content::Float(*bits),
            DeSerialResult::String(s) => Content::Str(s@),
            DeSerialResult::Vec(items) => Content::List(
                Seq::new(
                    items.len() as nat,
                    |i: int|
                        if 0 <= i < items.len() {
                            items[i]@
                        } else {
                            arbitrary()
                        },
                ),
            ),
            DeSerialResult::Struct(record) => Content::Record(record@),
        }
    }
}

/// A sequence holds the views of its items, in their order.
pub proof fn lemma_view_of_vec(items: Vec<DeSerialResult>)
    ensures
        DeSerialResult::Vec(items)@ == Content::List(items@.map_values(|d: DeSerialResult| d@)),
{
    reveal_with_fuel(<DeSerialResult as View>::view, 2);
    assert(DeSerialResult::Vec(items)@->List_0 =~= items@.map_values(|d: DeSerialResult| d@));
}

impl View for Record {
    type V = Map<Seq<char>, Content>;

    closed spec fn view(&self) -> Map<Seq<char>, Content>
        decreases self,
    {
        Map::new(
            |name: Seq<char>| self.names().contains(name),
            |name: Seq<char>|
                {
                    let i = self.names().index_of(name);
                    if 0 <= i < self.fields.len() {
                        self.fields[i].1@
                    } else {
                        arbitrary()
                    }
                },
        )
    }
}

/// Where the field of this name lies among `fields`.
fn position(fields: &Vec<(String, DeSerialResult)>, name: &String) -> (r: Option<usize>)
    ensures
        match r {
            Some(i) => i < fields.len() && fields[i as int].0@ == name@,
            None => forall|i: int| 0 <= i < fields.len() ==> fields[i].0@ != name@,
        },
{
    let mut i: usize = 0;
    while i < fields.len()
        invariant
            i <= fields.len(),
            forall|k: int| 0 <= k < i ==> fields[k].0@ != name@,
        decreases fields.len() - i,
    {
        if fields[i].0 == *name {
            return Some(i);
        }
        i += 1;
    }
    None
}

/// Without one of its items, a sequence that holds nothing twice holds nothing twice, and that
/// item no more.
proof fn lemma_remove_distinct<A>(s: Seq<A>, at: int)
    requires
        s.no_duplicates(),
        0 <= at < s.len(),
    ensures
        s.remove(at).no_duplicates(),
        !s.remove(at).contains(s[at]),
{
}

/// With one item more that it did not hold, a sequence that holds nothing twice holds nothing
/// twice.
proof fn lemma_push_distinct<A>(s: Seq<A>, item: A)
    requires
        s.no_duplicates(),
        !s.contains(item),
    ensures
        s.push(item).no_duplicates(),
{
}

impl Record {
    /// The names of the fields, in the order in which they are stored.
    closed spec fn names(self) -> Seq<Seq<char>> {
        self.fields@.map_values(|f: (String, DeSerialResult)| f.0@)
    }

    #[verifier::type_invariant]
    closed spec fn well_formed(self) -> bool {
        self.names().no_duplicates()
    }

    /// In a record without a repeated name, each stored field is what the view has under its
    /// name.
    proof fn lemma_view_of_field(self, i: int)
        requires
            self.well_formed(),
            0 <= i < self.fields.len(),
        ensures
            self@.contains_key(self.fields[i].0@),
            self@[self.fields[i].0@] == self.fields[i].1@,
    {
        assert(self.names()[i] == self.fields[i].0@);
    }

    /// The view has nothing under a name that no stored field has.
    proof fn lemma_view_without(self, name: Seq<char>)
        requires
            forall|i: int| 0 <= i < self.fields.len() ==> self.fields[i].0@ != name,
        ensures
            !self@.contains_key(name),
    {
    }

    /// The view has a stored field under every name that it holds.
    proof fn lemma_view_has(self, name: Seq<char>)
        requires
            self@.contains_key(name),
        ensures
            exists|i: int| 0 <= i < self.fields.len() && self.fields[i].0@ == name,
    {
    }

    /// Without one of its fields, a record holds what it held but under the name of that field.
    proof fn lemma_removed(self, rest: Record, at: int)
        requires
            self.well_formed(),
            0 <= at < self.fields.len(),
            rest.fields@ == self.fields@.remove(at),
        ensures
            rest.well_formed(),
            rest@ == self@.remove(self.fields[at].0@),
    {
        let name = self.fields[at].0@;
        assert(rest.names() =~= self.names().remove(at));
        lemma_remove_distinct(self.names(), at);
        assert(self.names()[at] == name);
        assert forall|k: Seq<char>| rest@.contains_key(k) <==> self@.remove(name).contains_key(
            k,
        ) by {
            if rest@.contains_key(k) {
                rest.lemma_view_has(k);
                let i = choose|i: int| 0 <= i < rest.fields.len() && rest.fields[i].0@ == k;
                assert(rest.names()[i] == k);
                self.lemma_view_of_field(if i < at { i } else { i + 1 });
            }
            if self@.contains_key(k) && k != name {
                self.lemma_view_has(k);
                let j = choose|j: int| 0 <= j < self.fields.len() && self.fields[j].0@ == k;
                rest.lemma_view_of_field(if j < at { j } else { j - 1 });
            }
        }
        assert forall|k: Seq<char>| rest@.contains_key(k) implies rest@[k] == self@.remove(
            name,
        )[k] by {
            rest.lemma_view_has(k);
            let i = choose|i: int| 0 <= i < rest.fields.len() && rest.fields[i].0@ == k;
            rest.lemma_view_of_field(i);
            self.lemma_view_of_field(if i < at { i } else { i + 1 });
        }
        assert(rest@ =~= self@.remove(name));
    }

    /// With one field more, under a name that it had not, a record holds what it held and that
    /// field.
    proof fn lemma_pushed(self, grown: Record, field: (String, DeSerialResult))
        requires
            self.well_formed(),
            !self@.contains_key(field.0@),
            grown.fields@ == self.fields@.push(field),
        ensures
            grown.well_formed(),
            grown@ == self@.insert(field.0@, field.1@),
    {
        let name = field.0@;
        let last = self.fields.len() as int;
        assert(grown.names() =~= self.names().push(name));
        assert forall|i: int| 0 <= i < self.names().len() implies self.names()[i] != name by {
            self.lemma_view_of_field(i);
        }
        lemma_push_distinct(self.names(), name);
        grown.lemma_view_of_field(last);
        assert forall|k: Seq<char>| grown@.contains_key(k) <==> self@.insert(
            name,
            field.1@,
        ).contains_key(k) by {
            if grown@.contains_key(k) && k != name {
                grown.lemma_view_has(k);
                let i = choose|i: int| 0 <= i < grown.fields.len() && grown.fields[i].0@ == k;
                self.lemma_view_of_field(i);
            }
            if self@.contains_key(k) {
                self.lemma_view_has(k);
                let j = choose|j: int| 0 <= j < self.fields.len() && self.fields[j].0@ == k;
                grown.lemma_view_of_field(j);
            }
        }
        assert forall|k: Seq<char>| grown@.contains_key(k) implies grown@[k] == self@.insert(
            name,
            field.1@,
        )[k] by {
            grown.lemma_view_has(k);
            let i = choose|i: int| 0 <= i < grown.fields.len() && grown.fields[i].0@ == k;
            grown.lemma_view_of_field(i);
            if i < last {
                self.lemma_view_of_field(i);
            }
        }
        assert(grown@ =~= self@.insert(name, field.1@));
    }

    /// A record without fields.
    pub fn new() -> (r: Record)
        ensures
            r@ == Map::<Seq<char>, Content>::empty(),
    {
        let r = Record { fields: Vec::new() };
        proof {
            r.lemma_empty();
        }
        r
    }

    proof fn lemma_empty(self)
        requires
            self.fields.len() == 0,
        ensures
            self@ == Map::<Seq<char>, Content>::empty(),
    {
    }

    /// Whether the record has no field.
    pub fn is_empty(&self) -> (r: bool)
        ensures
            r == (self@ == Map::<Seq<char>, Content>::empty()),
    {
        proof {
            use_type_invariant(self);
            if self.fields.len() == 0 {
                self.lemma_empty();
            } else {
                self.lemma_view_of_field(0);
            }
        }
        self.fields.len() == 0
    }

    /// Whether the record has a field of this name.
    pub fn contains_key(&self, name: &str) -> (r: bool)
        ensures
            r == self@.contains_key(name@),
    {
        let key = String::from_str(name);
        let at = position(&self.fields, &key);
        proof {
            use_type_invariant(self);
            match at {
                Some(i) => self.lemma_view_of_field(i as int),
                None => self.lemma_view_without(name@),
            }
        }
        at.is_some()
    }

    /// Puts `value` under `name`, and hands out what was under that name before.
    pub fn insert(&mut self, name: String, value: DeSerialResult) -> (r: Option<DeSerialResult>)
        ensures
            final(self)@ == old(self)@.insert(name@, value@),
            match r {
                Some(before) => old(self)@.contains_key(name@) && before@ == old(self)@[name@],
                None => !old(self)@.contains_key(name@),
            },
    {
        proof {
            use_type_invariant(&*self);
        }
        let ghost before = *self;
        let mut fields: Vec<(String, DeSerialResult)> = Vec::new();
        std::mem::swap(&mut self.fields, &mut fields);
        let replaced = match position(&fields, &name) {
            Some(at) => {
                let field = fields.remove(at);
                proof {
                    before.lemma_view_of_field(at as int);
                    before.lemma_removed(Record { fields }, at as int);
                }
                Some(field.1)
            },
            None => {
                proof {
                    before.lemma_view_without(name@);
                    assert(before@.remove(name@) =~= before@);
                }
                None
            },
        };
        let ghost rest = Record { fields };
        fields.push((name, value));
        proof {
            rest.lemma_pushed(Record { fields }, (name, value));
            assert(before@.remove(name@).insert(name@, value@) =~= before@.insert(name@, value@));
        }
        self.fields = fields;
        replaced
    }

    /// Takes the field of this name out of the record, if there is one.
    pub fn remove(&mut self, name: &str) -> (r: Option<DeSerialResult>)
        ensures
            final(self)@ == old(self)@.remove(name@),
            match r {
                Some(value) => old(self)@.contains_key(name@) && value@ == old(self)@[name@],
                None => !old(self)@.contains_key(name@),
            },
    {
        proof {
            use_type_invariant(&*self);
        }
        let ghost before = *self;
        let key = String::from_str(name);
        let mut fields: Vec<(String, DeSerialResult)> = Vec::new();
        std::mem::swap(&mut self.fields, &mut fields);
        let removed = match position(&fields, &key) {
            Some(at) => {
                let field = fields.remove(at);
                proof {
                    before.lemma_view_of_field(at as int);
                    before.lemma_removed(Record { fields }, at as int);
                }
                Some(field.1)
            },
            None => {
                proof {
                    before.lemma_view_without(name@);
                    assert(before@.remove(name@) =~= before@);
                }
                None
            },
        };
        self.fields = fields;
        removed
    }

    /// Hands out the fields, each with its name: every field once, in no order that means
    /// anything.
    pub fn into_fields(self) -> (r: Vec<(String, DeSerialResult)>)
        ensures
            r@.map_values(|f: (String, DeSerialResult)| f.0@).no_duplicates(),
            forall|i: int|
                0 <= i < r.len() ==> self@.contains_key((#[trigger] r[i]).0@) && self@[r[i].0@]
                    == r[i].1@,
            forall|name: Seq<char>|
                self@.contains_key(name) ==> exists|i: int|
                    0 <= i < r.len() && (#[trigger] r[i]).0@ == name,
    {
        proof {
            use_type_invariant(&self);
            assert forall|i: int| 0 <= i < self.fields.len() implies self@.contains_key(
                (#[trigger] self.fields[i]).0@,
            ) && self@[self.fields[i].0@] == self.fields[i].1@ by {
                self.lemma_view_of_field(i);
            }
            assert forall|name: Seq<char>| self@.contains_key(name) implies exists|i: int|
                0 <= i < self.fields.len() && (#[trigger] self.fields[i]).0@ == name by {
                self.lemma_view_has(name);
            }
        }
        self.fields
    }

    /// Moves all fields out into the record that is returned, and leaves this one empty.
    pub fn take(&mut self) -> (r: Record)
        ensures
            r@ == old(self)@,
            final(self)@ == Map::<Seq<char>, Content>::empty(),
    {
        proof {
            use_type_invariant(&*self);
        }
        let mut fields: Vec<(String, DeSerialResult)> = Vec::new();
        std::mem::swap(&mut self.fields, &mut fields);
        proof {
            self.lemma_empty();
        }
        Record { fields }
    }
}

} // verus!
