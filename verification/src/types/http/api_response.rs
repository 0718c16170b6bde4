//! The envelope of every API answer: optional data and an optional map from
//! field to error key (`_global` for errors of the request as a whole).

use vstd::prelude::*;

use crate::service::authentication::types::validated_json::FieldError;
use crate::utils::text::{same_text, string_of};

verus! {

/// The key of an error that concerns the whole request.
pub const GLOBAL_ERROR_KEY: &'static str = "_global";

/// `entries` with `key` set to `value`: the first entry with that key is
/// replaced; without one, the pair is added at the end.
pub open spec fn set_entry(entries: Seq<(Seq<char>, Seq<char>)>, key: Seq<char>, value: Seq<char>) -> Seq<
    (Seq<char>, Seq<char>),
>
    decreases entries.len(),
{
    if entries.len() == 0 {
        seq![(key, value)]
    } else if entries[0].0 == key {
        seq![(key, value)] + entries.drop_first()
    } else {
        seq![entries[0]] + set_entry(entries.drop_first(), key, value)
    }
}

/// The value of the first entry with `key`.
pub open spec fn lookup(entries: Seq<(Seq<char>, Seq<char>)>, key: Seq<char>) -> Option<Seq<char>>
    decreases entries.len(),
{
    if entries.len() == 0 {
        None
    } else if entries[0].0 == key {
        Some(entries[0].1)
    } else {
        lookup(entries.drop_first(), key)
    }
}

/// Setting a key makes it read back as the value set, and leaves every
/// other key as it was.
pub proof fn lemma_set_entry_reads_back(
    entries: Seq<(Seq<char>, Seq<char>)>,
    key: Seq<char>,
    value: Seq<char>,
    other: Seq<char>,
)
    ensures
        lookup(set_entry(entries, key, value), key) == Some(value),
        other != key ==> lookup(set_entry(entries, key, value), other) == lookup(entries, other),
    decreases entries.len(),
{
    let after = set_entry(entries, key, value);
    if entries.len() == 0 {
        assert(after == seq![(key, value)]);
        assert(after[0].0 == key);
        assert(after.drop_first() =~= Seq::<(Seq<char>, Seq<char>)>::empty());
        assert(lookup(after.drop_first(), other) is None);
        assert(lookup(after, key) == Some(value));
    } else if entries[0].0 != key {
        lemma_set_entry_reads_back(entries.drop_first(), key, value, other);
        assert(after[0] == entries[0]);
        assert(after.drop_first() =~= set_entry(entries.drop_first(), key, value));
        assert(lookup(after, key) == lookup(after.drop_first(), key));
    } else {
        assert(after[0] == (key, value));
        assert(after.drop_first() =~= entries.drop_first());
        if other != key {
            assert(lookup(after, other) == lookup(after.drop_first(), other));
            assert(lookup(entries, other) == lookup(entries.drop_first(), other));
        }
    }
}

proof fn lemma_set_entry_at_first_match(
    entries: Seq<(Seq<char>, Seq<char>)>,
    key: Seq<char>,
    value: Seq<char>,
    i: int,
)
    requires
        0 <= i < entries.len(),
        entries[i].0 == key,
        forall|j: int| 0 <= j < i ==> entries[j].0 != key,
    ensures
        set_entry(entries, key, value) == entries.update(i, (key, value)),
    decreases i,
{
    if i == 0 {
        assert(set_entry(entries, key, value) =~= entries.update(0, (key, value)));
    } else {
        let rest = entries.drop_first();
        assert forall|j: int| 0 <= j < i - 1 implies rest[j].0 != key by {
            assert(rest[j] == entries[j + 1]);
        }
        lemma_set_entry_at_first_match(rest, key, value, i - 1);
        assert(set_entry(entries, key, value) =~= entries.update(i, (key, value)));
    }
}

proof fn lemma_set_entry_without_match(entries: Seq<(Seq<char>, Seq<char>)>, key: Seq<char>, value: Seq<char>)
    requires
        forall|j: int| 0 <= j < entries.len() ==> entries[j].0 != key,
    ensures
        set_entry(entries, key, value) == entries.push((key, value)),
    decreases entries.len(),
{
    if entries.len() > 0 {
        let rest = entries.drop_first();
        assert forall|j: int| 0 <= j < rest.len() implies rest[j].0 != key by {
            assert(rest[j] == entries[j + 1]);
        }
        lemma_set_entry_without_match(rest, key, value);
        assert(set_entry(entries, key, value) =~= entries.push((key, value)));
    } else {
        assert(set_entry(entries, key, value) =~= entries.push((key, value)));
    }
}

/// The errors of a validation, field by field in order.
pub open spec fn errors_map(errors: Seq<FieldError>) -> Seq<(Seq<char>, Seq<char>)>
    decreases errors.len(),
{
    if errors.len() == 0 {
        Seq::empty()
    } else {
        set_entry(errors_map(errors.drop_last()), errors.last().field@, errors.last().message@)
    }
}

/// Errors by field.
#[derive(Clone, Debug, Default)]
pub struct ErrorMap {
    entries: Vec<(String, String)>,
}

pub open spec fn entries_view(entries: Seq<(String, String)>) -> Seq<(Seq<char>, Seq<char>)> {
    entries.map_values(|e: (String, String)| (e.0@, e.1@))
}

impl View for ErrorMap {
    type V = Seq<(Seq<char>, Seq<char>)>;

    closed spec fn view(&self) -> Seq<(Seq<char>, Seq<char>)> {
        entries_view(self.entries@)
    }
}

impl ErrorMap {
    pub fn new() -> (map: Self)
        ensures
            map@ == Seq::<(Seq<char>, Seq<char>)>::empty(),
    {
        let map = ErrorMap { entries: Vec::new() };
        assert(map@ =~= Seq::<(Seq<char>, Seq<char>)>::empty());
        map
    }

    /// Sets the error of `key`.
    pub fn set(&mut self, key: &str, value: &str)
        ensures
            final(self)@ == set_entry(old(self)@, key@, value@),
    {
        let ghost before = self@;
        let mut i: usize = 0;
        while i < self.entries.len()
            invariant
                self@ == before,
                before == old(self)@,
                before == entries_view(self.entries@),
                i <= self.entries@.len(),
                forall|j: int| 0 <= j < i ==> before[j].0 != key@,
            decreases self.entries@.len() - i,
        {
            if same_text(self.entries[i].0.as_str(), key) {
                proof {
                    lemma_set_entry_at_first_match(before, key@, value@, i as int);
                }
                let ghost old_entries = self.entries@;
                let entry = (string_of(key), string_of(value));
                self.entries.set(i, entry);
                assert(self.entries@ == old_entries.update(i as int, entry));
                assert(entries_view(self.entries@) =~= before.update(i as int, (key@, value@)));
                return;
            }
            i = i + 1;
        }
        proof {
            lemma_set_entry_without_match(before, key@, value@);
        }
        let ghost old_entries = self.entries@;
        let entry = (string_of(key), string_of(value));
        self.entries.push(entry);
        assert(self.entries@ == old_entries.push(entry));
        assert(entries_view(self.entries@) =~= before.push((key@, value@)));
    }

    /// The errors of a failed validation: each field with its message key
    /// (a later error of a field replaces an earlier one).
    pub fn from_field_errors(errors: &Vec<FieldError>) -> (map: Self)
        ensures
            map@ == errors_map(errors@),
    {
        let mut map = ErrorMap::new();
        let mut i: usize = 0;
        while i < errors.len()
            invariant
                i <= errors@.len(),
                map@ == errors_map(errors@.take(i as int)),
            decreases errors@.len() - i,
        {
            map.set(errors[i].field.as_str(), errors[i].message.as_str());
            assert(errors@.take(i + 1).drop_last() =~= errors@.take(i as int));
            i = i + 1;
        }
        assert(errors@.take(errors@.len() as int) =~= errors@);
        map
    }

    /// The errors as (key, value) pairs.
    pub fn entries(&self) -> (entries: &Vec<(String, String)>)
        ensures
            entries_view(entries@) == self@,
    {
        &self.entries
    }
}

/// An API answer carrying data of type `D`.
#[derive(Clone, Debug, Default)]
pub struct ApiResponse<D> {
    pub error: Option<ErrorMap>,
    pub data: Option<D>,
}

impl<D> ApiResponse<D> {
    /// An answer with neither data nor errors.
    pub fn new() -> (response: Self)
        ensures
            response.error is None,
            response.data is None,
    {
        ApiResponse { error: None, data: None }
    }

    pub fn set_data(&mut self, data: D)
        ensures
            final(self).data == Some(data),
            final(self).error == old(self).error,
    {
        self.data = Some(data);
    }

    pub fn set_error(&mut self, error: ErrorMap)
        ensures
            final(self).error == Some(error),
            final(self).data == old(self).data,
    {
        self.error = Some(error);
    }

    pub fn with_data(self, data: D) -> (response: Self)
        ensures
            response.data == Some(data),
            response.error == self.error,
    {
        let mut response = self;
        response.data = Some(data);
        response
    }

    pub fn with_error(self, error: ErrorMap) -> (response: Self)
        ensures
            response.error == Some(error),
            response.data == self.data,
    {
        let mut response = self;
        response.error = Some(error);
        response
    }

    /// The answer with `message` as the error of the whole request, beside
    /// any field errors it already had.
    pub fn with_global_error(self, message: &str) -> (response: Self)
        ensures
            response.data == self.data,
            response.error matches Some(map) && map@ == set_entry(
                match self.error {
                    Some(old_map) => old_map@,
                    None => Seq::empty(),
                },
                GLOBAL_ERROR_KEY@,
                message@,
            ),
    {
        let ApiResponse { error, data } = self;
        let mut map = match error {
            Some(map) => map,
            None => ErrorMap::new(),
        };
        map.set(GLOBAL_ERROR_KEY, message);
        ApiResponse { error: Some(map), data }
    }
}

} // verus!
