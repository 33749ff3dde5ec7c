//! The metadata of one package: keys in the order they were first seen, each
//! with its values in the order they were given.

use vstd::prelude::*;
use vstd::string::*;
use crate::text::{first_index, lemma_first_index, lemma_first_index_found, opt_text, texts};

verus! {

/// One key of a record and the values filed under it.
#[derive(Debug, Clone, PartialEq, Eq)]
pub struct Field {
    pub key: String,
    pub values: Vec<String>,
}

impl View for Field {
    type V = (Seq<char>, Seq<Seq<char>>);

    open spec fn view(&self) -> (Seq<char>, Seq<Seq<char>>) {
        (self.key@, texts(self.values@))
    }
}

impl Field {
    /// A field with the same key and the same values.
    pub fn duplicate(&self) -> (r: Field)
        ensures
            r@ == self@,
    {
        let mut values: Vec<String> = Vec::new();
        let mut i: usize = 0;
        while i < self.values.len()
            invariant
                i <= self.values@.len(),
                values@.len() == i,
                forall|k: int| 0 <= k < i ==> (#[trigger] values@[k])@ == self.values@[k]@,
            decreases self.values@.len() - i,
        {
            values.push(self.values[i].clone());
            i += 1;
        }
        assert(texts(values@) =~= texts(self.values@));
        Field { key: self.key.clone(), values }
    }
}

/// The metadata of one package.
#[derive(Debug, PartialEq, Eq)]
pub struct MetadataRecord {
    fields: Vec<Field>,
}

impl View for MetadataRecord {
    type V = Seq<(Seq<char>, Seq<Seq<char>>)>;

    closed spec fn view(&self) -> Seq<(Seq<char>, Seq<Seq<char>>)> {
        Seq::new(self.fields@.len(), |i: int| self.fields@[i]@)
    }
}

impl Clone for MetadataRecord {
    fn clone(&self) -> (r: MetadataRecord)
        ensures
            r@ == self@,
    {
        proof {
            use_type_invariant(self);
        }
        let mut fields: Vec<Field> = Vec::new();
        let mut i: usize = 0;
        while i < self.fields.len()
            invariant
                i <= self.fields@.len(),
                fields@.len() == i,
                forall|k: int| 0 <= k < i ==> (#[trigger] fields@[k])@ == self.fields@[k]@,
            decreases self.fields@.len() - i,
        {
            fields.push(self.fields[i].duplicate());
            i += 1;
        }
        assert(Seq::new(fields@.len(), |i: int| fields@[i]@) =~= self@);
        MetadataRecord { fields }
    }
}

/// The keys of `record`, in order.
pub open spec fn keys_of(record: Seq<(Seq<char>, Seq<Seq<char>>)>) -> Seq<Seq<char>> {
    Seq::new(record.len(), |i: int| record[i].0)
}

/// A record is a mapping: no key stands twice. A key may stand without a
/// value.
pub open spec fn is_record(record: Seq<(Seq<char>, Seq<Seq<char>>)>) -> bool {
    forall|i: int, j: int| 0 <= i < j < record.len() ==> record[i].0 != record[j].0
}

/// `record` with `key` among its keys: as it is where it has the key, else
/// with the key at the end, and no value under it.
pub open spec fn with_key(record: Seq<(Seq<char>, Seq<Seq<char>>)>, key: Seq<char>) -> Seq<
    (Seq<char>, Seq<Seq<char>>),
> {
    if first_index(keys_of(record), key) < record.len() {
        record
    } else {
        record.push((key, Seq::empty()))
    }
}

/// `record` after `value` is filed under `key`: behind the values that the
/// key already has, or under a new key at the end.
pub open spec fn with_value(
    record: Seq<(Seq<char>, Seq<Seq<char>>)>,
    key: Seq<char>,
    value: Seq<char>,
) -> Seq<(Seq<char>, Seq<Seq<char>>)> {
    let at = first_index(keys_of(record), key);
    if at < record.len() {
        record.update(at, (key, record[at].1.push(value)))
    } else {
        record.push((key, seq![value]))
    }
}

/// The first value filed under `key`, if the record has the key and a value
/// under it.
pub open spec fn first_value(record: Seq<(Seq<char>, Seq<Seq<char>>)>, key: Seq<char>) -> Option<
    Seq<char>,
> {
    let at = first_index(keys_of(record), key);
    if at < record.len() && record[at].1.len() > 0 {
        Some(record[at].1[0])
    } else {
        None
    }
}

/// The lines that show one key: the key, then each value behind two spaces.
pub open spec fn field_lines(field: (Seq<char>, Seq<Seq<char>>)) -> Seq<Seq<char>> {
    seq![field.0] + Seq::new(field.1.len(), |i: int| seq![' ', ' '] + field.1[i])
}

/// The lines that show a record: those of each key, in the record's order.
pub open spec fn record_lines(record: Seq<(Seq<char>, Seq<Seq<char>>)>) -> Seq<Seq<char>>
    decreases record.len(),
{
    if record.len() == 0 {
        Seq::empty()
    } else {
        record_lines(record.drop_last()) + field_lines(record.last())
    }
}

impl MetadataRecord {
    /// Every record is a mapping.
    #[verifier::type_invariant]
    spec fn is_mapping(self) -> bool {
        is_record(self@)
    }

    /// The record without any key.
    pub fn new() -> (r: MetadataRecord)
        ensures
            r@ == Seq::<(Seq<char>, Seq<Seq<char>>)>::empty(),
    {
        let fields: Vec<Field> = Vec::new();
        assert(Seq::new(fields@.len(), |i: int| fields@[i]@) =~= Seq::<
            (Seq<char>, Seq<Seq<char>>),
        >::empty());
        MetadataRecord { fields }
    }

    /// The number of keys.
    pub fn len(&self) -> (n: usize)
        ensures
            n == self@.len(),
    {
        self.fields.len()
    }

    /// The position of `key` among the fields, or their number if it is not
    /// among them.
    fn position(&self, key: &String) -> (at: usize)
        ensures
            at == first_index(keys_of(self@), key@),
            at <= self.fields@.len(),
    {
        let mut i: usize = 0;
        while i < self.fields.len()
            invariant
                i <= self.fields@.len(),
                forall|j: int| 0 <= j < i ==> keys_of(self@)[j] != key@,
            decreases self.fields@.len() - i,
        {
            if self.fields[i].key == *key {
                proof {
                    lemma_first_index_found(keys_of(self@), key@, i as int);
                }
                return i;
            }
            i += 1;
        }
        proof {
            lemma_first_index_found(keys_of(self@), key@, i as int);
        }
        i
    }

    /// Makes `key` a key of the record, without a value where it is new.
    pub fn add_key(&mut self, key: String)
        ensures
            final(self)@ == with_key(old(self)@, key@),
    {
        proof {
            use_type_invariant(&*self);
        }
        let at = self.position(&key);
        proof {
            lemma_first_index(keys_of(old(self)@), key@);
        }
        if at == self.fields.len() {
            let ghost first = old(self)@;
            let mut fields: Vec<Field> = Vec::new();
            std::mem::swap(&mut fields, &mut self.fields);
            let field = Field { key, values: Vec::new() };
            assert(field@.1 =~= Seq::<Seq<char>>::empty());
            fields.push(field);
            proof {
                let after = Seq::new(fields@.len(), |i: int| fields@[i]@);
                assert(after =~= with_key(first, key@));
                assert forall|i: int, j: int| 0 <= i < j < after.len() implies after[i].0
                    != after[j].0 by {
                    if j < first.len() {
                        assert(after[i].0 == first[i].0 && after[j].0 == first[j].0);
                    } else {
                        assert(after[i].0 == keys_of(first)[i]);
                    }
                }
            }
            self.fields = fields;
        }
    }

    /// Files `value` under `key`.
    pub fn push(&mut self, key: String, value: String)
        ensures
            final(self)@ == with_value(old(self)@, key@, value@),
    {
        proof {
            use_type_invariant(&*self);
        }
        let at = self.position(&key);
        proof {
            lemma_first_index(keys_of(old(self)@), key@);
        }
        let mut fields: Vec<Field> = Vec::new();
        std::mem::swap(&mut fields, &mut self.fields);
        let ghost first = old(self)@;
        if at < fields.len() {
            let mut field = fields.remove(at);
            let ghost before = field@;
            field.values.push(value);
            assert(field@.1 =~= before.1.push(value@));
            assert(field@.0 == key@);
            fields.insert(at, field);
        } else {
            let mut values: Vec<String> = Vec::new();
            values.push(value);
            let field = Field { key, values };
            assert(field@.1 =~= seq![value@]);
            fields.push(field);
        }
        proof {
            let after = Seq::new(fields@.len(), |i: int| fields@[i]@);
            assert(after =~= with_value(first, key@, value@));
            assert forall|i: int, j: int| 0 <= i < j < after.len() implies after[i].0
                != after[j].0 by {
                if j < first.len() {
                    assert(after[i].0 == first[i].0 && after[j].0 == first[j].0);
                } else {
                    assert(after[i].0 == keys_of(first)[i]);
                }
            }
        }
        self.fields = fields;
    }

    /// The first value filed under `key`.
    pub fn first(&self, key: &str) -> (r: Option<String>)
        ensures
            opt_text(r) == first_value(self@, key@),
    {
        let wanted = key.to_owned();
        let at = self.position(&wanted);
        if at < self.fields.len() && self.fields[at].values.len() > 0 {
            Some(self.fields[at].values[0].clone())
        } else {
            None
        }
    }

    /// The record as lines of text: each key on a line of its own, each of its
    /// values on a line behind it, indented by two spaces. As the record is a
    /// mapping, no key is shown twice.
    pub fn lines(&self) -> (out: Vec<String>)
        ensures
            texts(out@) == record_lines(self@),
            is_record(self@),
    {
        proof {
            use_type_invariant(self);
        }
        let mut out: Vec<String> = Vec::new();
        let mut i: usize = 0;
        assert(self@.take(0) =~= Seq::empty());
        assert(texts(out@) =~= record_lines(self@.take(0)));
        while i < self.fields.len()
            invariant
                i <= self.fields@.len(),
                texts(out@) == record_lines(self@.take(i as int)),
            decreases self.fields@.len() - i,
        {
            let field = &self.fields[i];
            let ghost shown = record_lines(self@.take(i as int));
            out.push(field.key.clone());
            let mut j: usize = 0;
            assert(texts(out@) =~= shown + field_lines(field@).take(1));
            while j < field.values.len()
                invariant
                    j <= field.values@.len(),
                    texts(out@) == shown + field_lines(field@).take(1 + j),
                decreases field.values@.len() - j,
            {
                proof {
                    reveal_strlit("  ");
                    assert("  "@ =~= seq![' ', ' ']);
                }
                let line = String::from_str("  ").concat(field.values[j].as_str());
                let ghost before = texts(out@);
                assert(line@ == field_lines(field@)[1 + j]);
                out.push(line);
                assert(texts(out@) =~= before.push(line@));
                assert(field_lines(field@).take(1 + j + 1) =~= field_lines(field@).take(
                    1 + j,
                ).push(line@));
                assert(texts(out@) =~= shown + field_lines(field@).take(1 + j + 1));
                j += 1;
            }
            assert(field_lines(field@).take(1 + j) =~= field_lines(field@));
            assert(self@.take(i + 1).drop_last() =~= self@.take(i as int));
            assert(self@.take(i + 1).last() == field@);
            i += 1;
        }
        assert(self@.take(i as int) =~= self@);
        out
    }
}

} // verus!
