//! The header fields of a message.
//!
//! Fields keep the order in which their names were first seen, and each name
//! keeps the spelling it was first seen with. Names are compared without
//! regard to the case of ASCII letters, and a name occurs at most once:
//! inserting a field whose name is already there replaces the value.
use vstd::prelude::*;
use vstd::string::StringSliceAdditionalSpecFns;
use vstd::utf8::decode_utf8;

use crate::bytes::{extend, to_vec};
use crate::http_impl::backend::{check_header_name, check_header_value};
use crate::http_impl::chars::{
    eq_ignore_case, is_visible_ascii, lemma_eq_ignore_case_equivalence, spec_eq_ignore_case,
    spec_is_field_value, spec_is_header_name, spec_is_visible_ascii,
};
use crate::http_impl::error::{HttpError, HttpErrorView};
use crate::text::{lemma_ascii_is_utf8, str_from_utf8};

verus! {

/// Header fields as a mathematical value: pairs of name and value in order.
pub type Fields = Seq<(Seq<u8>, Seq<u8>)>;

/// Whether the field at index `i` is the first one whose name is `name` up
/// to case.
pub open spec fn spec_is_first_match(fields: Fields, name: Seq<u8>, i: int) -> bool {
    &&& 0 <= i < fields.len()
    &&& spec_eq_ignore_case(fields[i].0, name)
    &&& forall|j: int| 0 <= j < i ==> !spec_eq_ignore_case(#[trigger] fields[j].0, name)
}

/// The index of the field named `name`, if there is one.
pub open spec fn spec_index_of(fields: Fields, name: Seq<u8>) -> Option<int> {
    if exists|i: int| spec_is_first_match(fields, name, i) {
        Some(choose|i: int| spec_is_first_match(fields, name, i))
    } else {
        None
    }
}

/// The value of the field named `name`, if there is one.
pub open spec fn spec_get(fields: Fields, name: Seq<u8>) -> Option<Seq<u8>> {
    match spec_index_of(fields, name) {
        Some(i) => Some(fields[i].1),
        None => None,
    }
}

/// The fields after `name: value` has been inserted: the value replaces that
/// of the field with this name, which keeps its place and its spelling; if
/// there is no such field, the new one goes to the end.
pub open spec fn spec_insert(fields: Fields, name: Seq<u8>, value: Seq<u8>) -> Fields {
    match spec_index_of(fields, name) {
        Some(i) => fields.update(i, (fields[i].0, value)),
        None => fields.push((name, value)),
    }
}

/// Whether the fields are what a header map can hold: valid names, valid
/// values, and no name twice.
pub open spec fn spec_wf(fields: Fields) -> bool {
    &&& forall|i: int|
        0 <= i < fields.len() ==> spec_is_header_name((#[trigger] fields[i]).0)
            && spec_is_field_value(fields[i].1)
    &&& forall|i: int, j: int|
        0 <= i < j < fields.len() ==> !spec_eq_ignore_case(
            (#[trigger] fields[i]).0,
            (#[trigger] fields[j]).0,
        )
}

/// One field on the wire: `NAME ": " VALUE CRLF`.
pub open spec fn spec_line(field: (Seq<u8>, Seq<u8>)) -> Seq<u8> {
    field.0 + seq![0x3au8, 0x20u8] + field.1 + seq![0x0du8, 0x0au8]
}

/// The fields on the wire, one line each, in order.
pub open spec fn spec_wire(fields: Fields) -> Seq<u8>
    decreases fields.len(),
{
    if fields.len() == 0 {
        Seq::<u8>::empty()
    } else {
        spec_wire(fields.drop_last()) + spec_line(fields.last())
    }
}

/// If no field before `i` matches and the one at `i` does, then `i` is the
/// index of the name.
pub proof fn lemma_index_of_found(fields: Fields, name: Seq<u8>, i: int)
    requires
        spec_is_first_match(fields, name, i),
    ensures
        spec_index_of(fields, name) == Some(i),
{
    let c = choose|c: int| spec_is_first_match(fields, name, c);
    assert(spec_is_first_match(fields, name, c));
    if c < i {
        assert(!spec_eq_ignore_case(fields[c].0, name));
    }
    if i < c {
        assert(!spec_eq_ignore_case(fields[i].0, name));
    }
}

/// If no field matches, the name has no index.
pub proof fn lemma_index_of_absent(fields: Fields, name: Seq<u8>)
    requires
        forall|j: int| 0 <= j < fields.len() ==> !spec_eq_ignore_case(#[trigger] fields[j].0, name),
    ensures
        spec_index_of(fields, name) is None,
{
    assert forall|i: int| !spec_is_first_match(fields, name, i) by {
        if 0 <= i < fields.len() {
            assert(!spec_eq_ignore_case(fields[i].0, name));
        }
    }
}

/// Inserting a valid field into well-formed fields leaves them well-formed,
/// and the inserted name then has the inserted value.
pub proof fn lemma_insert_wf(fields: Fields, name: Seq<u8>, value: Seq<u8>)
    requires
        spec_wf(fields),
        spec_is_header_name(name),
        spec_is_field_value(value),
    ensures
        spec_wf(spec_insert(fields, name, value)),
        spec_get(spec_insert(fields, name, value), name) == Some(value),
{
    let after = spec_insert(fields, name, value);
    match spec_index_of(fields, name) {
        Some(i) => {
            assert(spec_is_first_match(fields, name, i));
            assert forall|a: int, b: int| 0 <= a < b < after.len() implies !spec_eq_ignore_case(
                (#[trigger] after[a]).0,
                (#[trigger] after[b]).0,
            ) by {
                assert(after[a].0 == fields[a].0);
                assert(after[b].0 == fields[b].0);
            }
            assert forall|k: int| 0 <= k < after.len() implies spec_is_header_name(
                (#[trigger] after[k]).0,
            ) && spec_is_field_value(after[k].1) by {
                assert(after[k].0 == fields[k].0);
                if k != i {
                    assert(after[k] == fields[k]);
                }
            }
            assert(spec_is_first_match(after, name, i)) by {
                assert forall|j: int| 0 <= j < i implies !spec_eq_ignore_case(
                    #[trigger] after[j].0,
                    name,
                ) by {
                    assert(after[j].0 == fields[j].0);
                }
            }
            lemma_index_of_found(after, name, i);
        },
        None => {
            let n = fields.len() as int;
            assert forall|j: int| 0 <= j < n implies !spec_eq_ignore_case(
                #[trigger] fields[j].0,
                name,
            ) by {
                if spec_eq_ignore_case(fields[j].0, name) {
                    lemma_first_match_exists(fields, name, j);
                }
            }
            assert forall|a: int, b: int| 0 <= a < b < after.len() implies !spec_eq_ignore_case(
                (#[trigger] after[a]).0,
                (#[trigger] after[b]).0,
            ) by {
                if b == n {
                    assert(after[a] == fields[a]);
                    assert(!spec_eq_ignore_case(fields[a].0, name));
                } else {
                    assert(after[a] == fields[a]);
                    assert(after[b] == fields[b]);
                }
            }
            assert forall|k: int| 0 <= k < after.len() implies spec_is_header_name(
                (#[trigger] after[k]).0,
            ) && spec_is_field_value(after[k].1) by {
                if k < n {
                    assert(after[k] == fields[k]);
                }
            }
            assert(spec_is_first_match(after, name, n)) by {
                lemma_eq_ignore_case_equivalence(name, name, name);
                assert forall|j: int| 0 <= j < n implies !spec_eq_ignore_case(
                    #[trigger] after[j].0,
                    name,
                ) by {
                    assert(after[j] == fields[j]);
                }
            }
            lemma_index_of_found(after, name, n);
        },
    }
}

/// If some field matches, there is a first one that matches.
pub proof fn lemma_first_match_exists(fields: Fields, name: Seq<u8>, j: int)
    requires
        0 <= j < fields.len(),
        spec_eq_ignore_case(fields[j].0, name),
    ensures
        exists|i: int| spec_is_first_match(fields, name, i),
    decreases j,
{
    if forall|k: int| 0 <= k < j ==> !spec_eq_ignore_case(#[trigger] fields[k].0, name) {
        assert(spec_is_first_match(fields, name, j));
    } else {
        let k = choose|k: int| 0 <= k < j && spec_eq_ignore_case(#[trigger] fields[k].0, name);
        lemma_first_match_exists(fields, name, k);
    }
}

/// One header field.
#[derive(Debug, Clone, PartialEq, Eq)]
struct HeaderEntry {
    name: Vec<u8>,
    value: Vec<u8>,
}

/// The header fields of a message.
#[derive(Debug, PartialEq, Eq)]
pub struct HeaderMap {
    entries: Vec<HeaderEntry>,
}

impl View for HeaderMap {
    type V = Fields;

    closed spec fn view(&self) -> Fields {
        Seq::new(self.entries@.len(), |i: int| (self.entries@[i].name@, self.entries@[i].value@))
    }
}

impl HeaderMap {
    #[verifier::type_invariant]
    spec fn well_formed(self) -> bool {
        spec_wf(self@)
    }

    /// A map with no fields.
    pub fn new() -> (m: HeaderMap)
        ensures
            m@ == Seq::<(Seq<u8>, Seq<u8>)>::empty(),
    {
        let m = HeaderMap { entries: Vec::new() };
        assert(m@ =~= Seq::<(Seq<u8>, Seq<u8>)>::empty());
        m
    }

    /// Number of fields.
    pub fn len(&self) -> (n: usize)
        ensures
            n == self@.len(),
            spec_wf(self@),
    {
        proof {
            use_type_invariant(self);
        }
        self.entries.len()
    }

    /// Whether there is no field.
    pub fn is_empty(&self) -> (b: bool)
        ensures
            b == (self@.len() == 0),
    {
        self.entries.len() == 0
    }

    /// The name of the field at index `i`, as it was first spelled.
    pub fn name_at(&self, i: usize) -> (name: &[u8])
        requires
            i < self@.len(),
        ensures
            name@ == self@[i as int].0,
            spec_is_header_name(name@),
    {
        proof {
            use_type_invariant(self);
            assert(spec_is_header_name(self@[i as int].0));
        }
        self.entries[i].name.as_slice()
    }

    /// The value of the field at index `i`.
    pub fn value_at(&self, i: usize) -> (value: &[u8])
        requires
            i < self@.len(),
        ensures
            value@ == self@[i as int].1,
            spec_is_field_value(value@),
    {
        proof {
            use_type_invariant(self);
            assert(spec_is_field_value(self@[i as int].1));
        }
        self.entries[i].value.as_slice()
    }

    /// The index of the field named `name`, if there is one.
    pub fn position(&self, name: &[u8]) -> (r: Option<usize>)
        ensures
            match r {
                Some(i) => spec_index_of(self@, name@) == Some(i as int) && i < self@.len(),
                None => spec_index_of(self@, name@) is None,
            },
    {
        let mut i: usize = 0;
        while i < self.entries.len()
            invariant
                i <= self.entries@.len(),
                self@.len() == self.entries@.len(),
                forall|j: int| 0 <= j < i ==> !spec_eq_ignore_case(#[trigger] self@[j].0, name@),
            decreases self.entries@.len() - i,
        {
            if eq_ignore_case(self.entries[i].name.as_slice(), name) {
                proof {
                    lemma_index_of_found(self@, name@, i as int);
                }
                return Some(i);
            }
            i += 1;
        }
        proof {
            lemma_index_of_absent(self@, name@);
        }
        None
    }

    /// Whether there is a field named `name`.
    pub fn contains_key(&self, name: &[u8]) -> (b: bool)
        ensures
            b == spec_get(self@, name@).is_some(),
    {
        self.position(name).is_some()
    }

    /// The value of the field named `name`, if there is one.
    pub fn get(&self, name: &[u8]) -> (r: Option<&[u8]>)
        ensures
            match r {
                Some(v) => spec_get(self@, name@) == Some(v@),
                None => spec_get(self@, name@) is None,
            },
    {
        match self.position(name) {
            Some(i) => Some(self.entries[i].value.as_slice()),
            None => None,
        }
    }

    /// The value of the field named `name` as text, if there is such a field
    /// and its value is made of tabs and printable ASCII characters only.
    pub fn get_str(&self, name: &str) -> (r: Option<&str>)
        ensures
            match r {
                Some(s) => spec_get(self@, name.spec_bytes()) matches Some(v)
                    && spec_is_visible_ascii(v) && s@ == decode_utf8(v),
                None => spec_get(self@, name.spec_bytes()) matches Some(v) ==> !spec_is_visible_ascii(
                    v,
                ),
            },
    {
        match self.get(name.as_bytes()) {
            Some(v) => {
                if is_visible_ascii(v) {
                    proof {
                        lemma_ascii_is_utf8(v@);
                    }
                    str_from_utf8(v)
                } else {
                    None
                }
            },
            None => None,
        }
    }

    /// Inserts the field `name: value`, if name and value are valid; see
    /// [`spec_insert`]. Otherwise the map is left as it is.
    pub fn insert(&mut self, name: &[u8], value: &[u8]) -> (r: Result<(), HttpError>)
        ensures
            match r {
                Ok(_) => {
                    &&& spec_is_header_name(name@)
                    &&& spec_is_field_value(value@)
                    &&& final(self)@ == spec_insert(old(self)@, name@, value@)
                },
                Err(e) => {
                    &&& final(self)@ == old(self)@
                    &&& e@ == spec_insert_error(name@, value@)
                    &&& !(spec_is_header_name(name@) && spec_is_field_value(value@))
                },
            },
    {
        match check_header_name(name) {
            Ok(_) => {},
            Err(msg) => { return Err(HttpError::InvalidHeader(msg)); },
        }
        match check_header_value(value) {
            Ok(_) => {},
            Err(msg) => { return Err(HttpError::InvalidHeader(msg)); },
        }
        proof {
            use_type_invariant(&*self);
            lemma_insert_wf(self@, name@, value@);
        }
        let found = self.position(name);
        let ghost before = self@;
        // The entries are taken out, changed, and put back, so that the map
        // is well-formed whenever it can be seen.
        let mut entries: Vec<HeaderEntry> = Vec::new();
        core::mem::swap(&mut entries, &mut self.entries);
        match found {
            Some(i) => {
                let kept = to_vec(entries[i].name.as_slice());
                entries.set(i, HeaderEntry { name: kept, value: to_vec(value) });
            },
            None => {
                entries.push(HeaderEntry { name: to_vec(name), value: to_vec(value) });
            },
        }
        proof {
            let after = Seq::new(entries@.len(), |k: int| (entries@[k].name@, entries@[k].value@));
            assert(after =~= spec_insert(before, name@, value@));
        }
        core::mem::swap(&mut entries, &mut self.entries);
        Ok(())
    }

    /// Appends the fields to `buf` as they go on the wire: one line per
    /// field, in order.
    pub fn write_to(&self, buf: &mut Vec<u8>)
        ensures
            final(buf)@ == old(buf)@ + spec_wire(self@),
    {
        let mut i: usize = 0;
        assert(self@.take(0) =~= Seq::<(Seq<u8>, Seq<u8>)>::empty());
        while i < self.entries.len()
            invariant
                i <= self.entries@.len(),
                self@.len() == self.entries@.len(),
                buf@ == old(buf)@ + spec_wire(self@.take(i as int)),
            decreases self.entries@.len() - i,
        {
            let ghost before = buf@;
            extend(buf, self.entries[i].name.as_slice());
            buf.push(0x3a);
            buf.push(0x20);
            extend(buf, self.entries[i].value.as_slice());
            buf.push(0x0d);
            buf.push(0x0a);
            proof {
                let next = self@.take(i + 1);
                assert(next.drop_last() =~= self@.take(i as int));
                assert(next.last() == self@[i as int]);
                assert(buf@ =~= before + spec_line(self@[i as int]));
            }
            i += 1;
        }
        assert(self@.take(self@.len() as int) =~= self@);
    }
}

/// The fields that come of inserting the raw header lines from index `i` on,
/// one after the other, into `acc`; or the error of the first line that
/// cannot be inserted.
pub open spec fn spec_collect(raw: Fields, i: int, acc: Fields) -> Result<Fields, HttpErrorView>
    decreases raw.len() - i,
{
    if i < 0 || i >= raw.len() {
        Ok(acc)
    } else if !(spec_is_header_name(raw[i].0) && spec_is_field_value(raw[i].1)) {
        Err(spec_insert_error(raw[i].0, raw[i].1))
    } else {
        spec_collect(raw, i + 1, spec_insert(acc, raw[i].0, raw[i].1))
    }
}

/// Inserting well-formed fields one after the other into an empty map gives
/// those fields back.
pub proof fn lemma_collect_wf(fields: Fields, i: int)
    requires
        spec_wf(fields),
        0 <= i <= fields.len(),
    ensures
        spec_collect(fields, i, fields.take(i)) == Ok::<Fields, HttpErrorView>(fields),
    decreases fields.len() - i,
{
    if i >= fields.len() {
        assert(fields.take(i) =~= fields);
    } else {
        let acc = fields.take(i);
        assert forall|j: int| 0 <= j < acc.len() implies !spec_eq_ignore_case(
            #[trigger] acc[j].0,
            fields[i].0,
        ) by {
            assert(acc[j] == fields[j]);
        }
        lemma_index_of_absent(acc, fields[i].0);
        assert(spec_insert(acc, fields[i].0, fields[i].1) =~= fields.take(i + 1));
        lemma_collect_wf(fields, i + 1);
    }
}

impl HeaderMap {
    /// Collects raw header lines into a map, in order.
    pub fn from_raw(raw: &Vec<crate::http_impl::backend::RawHeader>) -> (r: Result<
        HeaderMap,
        HttpError,
    >)
        ensures
            match r {
                Ok(m) => spec_collect(
                    crate::http_impl::backend::spec_raw_headers(raw@),
                    0,
                    Seq::<(Seq<u8>, Seq<u8>)>::empty(),
                ) == Ok::<Fields, HttpErrorView>(m@) && m@.len() <= raw@.len() && spec_wf(m@),
                Err(e) => spec_collect(
                    crate::http_impl::backend::spec_raw_headers(raw@),
                    0,
                    Seq::<(Seq<u8>, Seq<u8>)>::empty(),
                ) == Err::<Fields, HttpErrorView>(e@),
            },
    {
        let ghost lines = crate::http_impl::backend::spec_raw_headers(raw@);
        let ghost empty = Seq::<(Seq<u8>, Seq<u8>)>::empty();
        let mut map = HeaderMap::new();
        let mut i: usize = 0;
        while i < raw.len()
            invariant
                i <= raw@.len(),
                lines == crate::http_impl::backend::spec_raw_headers(raw@),
                empty == Seq::<(Seq<u8>, Seq<u8>)>::empty(),
                spec_collect(lines, 0, empty) == spec_collect(lines, i as int, map@),
                map@.len() <= i,
            decreases raw@.len() - i,
        {
            let ghost before = map@;
            match map.insert(raw[i].name.as_slice(), raw[i].value.as_slice()) {
                Ok(_) => {
                    proof {
                        lemma_insert_len(before, lines[i as int].0, lines[i as int].1);
                    }
                },
                Err(e) => {
                    return Err(e);
                },
            }
            i += 1;
        }
        proof {
            use_type_invariant(&map);
        }
        Ok(map)
    }
}

/// Inserting a field adds at most one field.
pub proof fn lemma_insert_len(fields: Fields, name: Seq<u8>, value: Seq<u8>)
    ensures
        fields.len() <= spec_insert(fields, name, value).len() <= fields.len() + 1,
{
    match spec_index_of(fields, name) {
        Some(i) => {
            assert(spec_is_first_match(fields, name, i));
        },
        None => {},
    }
}

impl Clone for HeaderMap {
    fn clone(&self) -> (m: HeaderMap)
        ensures
            m@ == self@,
    {
        proof {
            use_type_invariant(self);
        }
        let mut entries: Vec<HeaderEntry> = Vec::new();
        let mut i: usize = 0;
        while i < self.entries.len()
            invariant
                i <= self.entries@.len(),
                entries@.len() == i,
                forall|j: int|
                    0 <= j < i ==> (#[trigger] entries@[j]).name@ == self.entries@[j].name@
                        && entries@[j].value@ == self.entries@[j].value@,
            decreases self.entries@.len() - i,
        {
            entries.push(
                HeaderEntry {
                    name: to_vec(self.entries[i].name.as_slice()),
                    value: to_vec(self.entries[i].value.as_slice()),
                },
            );
            i += 1;
        }
        proof {
            let copy = Seq::new(entries@.len(), |k: int| (entries@[k].name@, entries@[k].value@));
            assert(copy =~= self@);
        }
        HeaderMap { entries }
    }
}

/// The error for a field that cannot be inserted: the name is judged first.
pub open spec fn spec_insert_error(name: Seq<u8>, value: Seq<u8>) -> HttpErrorView {
    if !spec_is_header_name(name) {
        HttpErrorView::InvalidHeader("invalid HTTP header name"@)
    } else {
        HttpErrorView::InvalidHeader("failed to parse header value"@)
    }
}

} // verus!
