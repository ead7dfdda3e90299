//! Request and connection metadata: an ordered string-keyed map whose values
//! are strings, byte runs or `u64`s. A later write for a key replaces the
//! earlier one, so keys never repeat. Per-key behaviour flags are recorded as
//! lists of key names under two well-known keys.

use vstd::prelude::*;

verus! {

/// The well-known key listing the keys whose values must not be logged.
pub open spec fn sensitive_key() -> Seq<char> {
    seq!['v', 'o', 'x', ':', 's', 'e', 'n', 's', 'i', 't', 'i', 'v', 'e']
}

/// The well-known key listing the keys whose values must not be forwarded.
pub open spec fn no_propagate_key() -> Seq<char> {
    seq!['v', 'o', 'x', ':', 'n', 'o', '-', 'p', 'r', 'o', 'p', 'a', 'g', 'a', 't', 'e']
}

fn sensitive_key_string() -> (s: String)
    ensures
        s@ == sensitive_key(),
{
    let mut s = String::new();
    crate::text::push_char(&mut s, 'v');
    crate::text::push_char(&mut s, 'o');
    crate::text::push_char(&mut s, 'x');
    crate::text::push_char(&mut s, ':');
    crate::text::push_char(&mut s, 's');
    crate::text::push_char(&mut s, 'e');
    crate::text::push_char(&mut s, 'n');
    crate::text::push_char(&mut s, 's');
    crate::text::push_char(&mut s, 'i');
    crate::text::push_char(&mut s, 't');
    crate::text::push_char(&mut s, 'i');
    crate::text::push_char(&mut s, 'v');
    crate::text::push_char(&mut s, 'e');
    s
}

fn no_propagate_key_string() -> (s: String)
    ensures
        s@ == no_propagate_key(),
{
    let mut s = String::new();
    crate::text::push_char(&mut s, 'v');
    crate::text::push_char(&mut s, 'o');
    crate::text::push_char(&mut s, 'x');
    crate::text::push_char(&mut s, ':');
    crate::text::push_char(&mut s, 'n');
    crate::text::push_char(&mut s, 'o');
    crate::text::push_char(&mut s, '-');
    crate::text::push_char(&mut s, 'p');
    crate::text::push_char(&mut s, 'r');
    crate::text::push_char(&mut s, 'o');
    crate::text::push_char(&mut s, 'p');
    crate::text::push_char(&mut s, 'a');
    crate::text::push_char(&mut s, 'g');
    crate::text::push_char(&mut s, 'a');
    crate::text::push_char(&mut s, 't');
    crate::text::push_char(&mut s, 'e');
    s
}

/// Per-key behaviour flags, a construction-time convenience (not a wire type).
#[derive(Clone, Copy, Debug, PartialEq, Eq, Structural, Default)]
pub struct MetadataFlags(pub u64);

impl MetadataFlags {
    /// No special handling.
    pub fn none() -> (r: MetadataFlags)
        ensures
            r == MetadataFlags(0),
    {
        MetadataFlags(0)
    }

    /// Value must not be logged, traced, or included in error messages.
    pub fn sensitive() -> (r: MetadataFlags)
        ensures
            r == MetadataFlags(1),
    {
        MetadataFlags(1)
    }

    /// Value must not be forwarded to downstream calls.
    pub fn no_propagate() -> (r: MetadataFlags)
        ensures
            r == MetadataFlags(2),
    {
        MetadataFlags(2)
    }

    /// Every flag set in `other` is set in `self`.
    pub open spec fn spec_contains(self, other: MetadataFlags) -> bool {
        (self.0 & other.0) == other.0
    }

    /// Returns `true` if all flags in `other` are set in `self`.
    pub fn contains(self, other: Self) -> (r: bool)
        ensures
            r == self.spec_contains(other),
    {
        (self.0 & other.0) == other.0
    }

}

impl std::ops::BitOr for MetadataFlags {
    type Output = Self;

    /// The flags set in either operand.
    fn bitor(self, rhs: Self) -> (r: Self)
        ensures
            r.0 == self.0 | rhs.0,
    {
        MetadataFlags(self.0 | rhs.0)
    }
}

impl vstd::std_specs::ops::BitOrSpecImpl for MetadataFlags {
    open spec fn obeys_bitor_spec() -> bool {
        true
    }

    open spec fn bitor_req(self, rhs: Self) -> bool {
        true
    }

    open spec fn bitor_spec(self, rhs: Self) -> Self {
        MetadataFlags(self.0 | rhs.0)
    }
}

impl std::ops::BitOrAssign for MetadataFlags {
    /// Adds the flags set in `rhs`.
    fn bitor_assign(&mut self, rhs: Self)
        ensures
            final(self).0 == old(self).0 | rhs.0,
    {
        self.0 = self.0 | rhs.0;
    }
}

/// A metadata value.
pub enum MetaValue {
    Str(String),
    U64(u64),
    Bytes(Vec<u8>),
    /// A list of key names, as held under the well-known flag keys.
    List(Vec<String>),
}

/// The mathematical content of a [`MetaValue`].
pub enum MetaValueView {
    Str(Seq<char>),
    U64(u64),
    Bytes(Seq<u8>),
    List(Seq<Seq<char>>),
}

impl View for MetaValue {
    type V = MetaValueView;

    open spec fn view(&self) -> MetaValueView {
        match self {
            MetaValue::Str(s) => MetaValueView::Str(s@),
            MetaValue::U64(n) => MetaValueView::U64(*n),
            MetaValue::Bytes(b) => MetaValueView::Bytes(b@),
            MetaValue::List(l) => MetaValueView::List(l@.map_values(|s: String| s@)),
        }
    }
}

/// One key/value pair.
pub struct MetaEntry {
    pub key: String,
    pub value: MetaValue,
}

impl View for MetaEntry {
    type V = (Seq<char>, MetaValueView);

    open spec fn view(&self) -> (Seq<char>, MetaValueView) {
        (self.key@, self.value@)
    }
}

/// The entries of a metadata object, as key/value views.
pub open spec fn entries_view(v: Seq<MetaEntry>) -> Seq<(Seq<char>, MetaValueView)> {
    v.map_values(|e: MetaEntry| e@)
}

/// No key occurs twice.
pub open spec fn unique_keys(s: Seq<(Seq<char>, MetaValueView)>) -> bool {
    forall|i: int, j: int| 0 <= i < j < s.len() ==> s[i].0 != s[j].0
}

/// `k` occurs as a key.
pub open spec fn has_key(s: Seq<(Seq<char>, MetaValueView)>, k: Seq<char>) -> bool {
    exists|i: int| 0 <= i < s.len() && s[i].0 == k
}

/// The position of key `k` (meaningful when `has_key`).
pub open spec fn key_index(s: Seq<(Seq<char>, MetaValueView)>, k: Seq<char>) -> int {
    choose|i: int| 0 <= i < s.len() && s[i].0 == k
}

/// The value stored under `k`, if any.
pub open spec fn lookup(s: Seq<(Seq<char>, MetaValueView)>, k: Seq<char>) -> Option<MetaValueView> {
    if has_key(s, k) {
        Some(s[key_index(s, k)].1)
    } else {
        None
    }
}

/// Insert or replace: an existing key keeps its position and takes the new
/// value; a new key goes to the end.
pub open spec fn insert_entry(
    s: Seq<(Seq<char>, MetaValueView)>,
    k: Seq<char>,
    v: MetaValueView,
) -> Seq<(Seq<char>, MetaValueView)> {
    if has_key(s, k) {
        s.update(key_index(s, k), (k, v))
    } else {
        s.push((k, v))
    }
}

/// Append `key` to the list under `flag_key`, creating the list (and
/// replacing any non-list value there) when needed.
pub open spec fn add_flag(
    s: Seq<(Seq<char>, MetaValueView)>,
    flag_key: Seq<char>,
    key: Seq<char>,
) -> Seq<(Seq<char>, MetaValueView)> {
    match lookup(s, flag_key) {
        Some(MetaValueView::List(l)) => insert_entry(s, flag_key, MetaValueView::List(l.push(key))),
        _ => insert_entry(s, flag_key, MetaValueView::List(seq![key])),
    }
}

/// The entries after recording `key` under the flag keys selected by `flags`.
pub open spec fn record_flags(
    s: Seq<(Seq<char>, MetaValueView)>,
    key: Seq<char>,
    flags: MetadataFlags,
) -> Seq<(Seq<char>, MetaValueView)> {
    let s1 = if flags.spec_contains(MetadataFlags(1)) {
        add_flag(s, sensitive_key(), key)
    } else {
        s
    };
    if flags.spec_contains(MetadataFlags(2)) {
        add_flag(s1, no_propagate_key(), key)
    } else {
        s1
    }
}

/// Whether the value under `flag_key` is a list naming `key`.
pub open spec fn flag_lists(s: Seq<(Seq<char>, MetaValueView)>, flag_key: Seq<char>, key: Seq<char>) -> bool {
    match lookup(s, flag_key) {
        Some(MetaValueView::List(l)) => l.contains(key),
        _ => false,
    }
}

/// Request or connection metadata: `None` is the null value (reads as
/// empty), `Some` an object with its entries in insertion order.
pub struct Metadata {
    object: Option<Vec<MetaEntry>>,
}

impl Metadata {
    /// Whether the metadata is an object (rather than null).
    pub closed spec fn is_object(&self) -> bool {
        self.object is Some
    }

    /// The entries (empty for null), as key/value views.
    pub closed spec fn entries(&self) -> Seq<(Seq<char>, MetaValueView)> {
        match self.object {
            Some(v) => entries_view(v@),
            None => Seq::empty(),
        }
    }

    /// Keys are unique.
    pub open spec fn wf(&self) -> bool {
        unique_keys(self.entries())
    }
}

/// The position of a key is determined by the key when keys are unique.
pub proof fn lemma_key_index_unique(s: Seq<(Seq<char>, MetaValueView)>, k: Seq<char>, i: int)
    requires
        unique_keys(s),
        0 <= i < s.len(),
        s[i].0 == k,
    ensures
        has_key(s, k),
        key_index(s, k) == i,
        lookup(s, k) == Some(s[i].1),
{
    assert(0 <= i < s.len() && s[i].0 == k);
    let j = key_index(s, k);
    if j < i {
        assert(s[j].0 != s[i].0);
    } else if j > i {
        assert(s[i].0 != s[j].0);
    }
}

/// Inserting or replacing keeps keys unique and makes the key map to the new
/// value, leaving every other key's value alone.
pub proof fn lemma_insert_entry(
    s: Seq<(Seq<char>, MetaValueView)>,
    k: Seq<char>,
    v: MetaValueView,
)
    requires
        unique_keys(s),
    ensures
        unique_keys(insert_entry(s, k, v)),
        lookup(insert_entry(s, k, v), k) == Some(v),
        forall|k2: Seq<char>| k2 != k ==> lookup(insert_entry(s, k, v), k2) == #[trigger] lookup(s, k2),
        has_key(s, k) ==> insert_entry(s, k, v).len() == s.len(),
        !has_key(s, k) ==> insert_entry(s, k, v).len() == s.len() + 1,
{
    let t = insert_entry(s, k, v);
    if has_key(s, k) {
        let i = key_index(s, k);
        assert(t == s.update(i, (k, v)));
        assert forall|a: int, b: int| 0 <= a < b < t.len() implies t[a].0 != t[b].0 by {
            if a == i {
                assert(s[b].0 != s[i].0);
            } else if b == i {
                assert(s[a].0 != s[i].0);
            } else {
                assert(s[a].0 != s[b].0);
            }
        }
        lemma_key_index_unique(t, k, i);
        assert forall|k2: Seq<char>| k2 != k implies lookup(t, k2) == #[trigger] lookup(s, k2) by {
            if has_key(s, k2) {
                let j = key_index(s, k2);
                assert(j != i);
                lemma_key_index_unique(t, k2, j);
            } else {
                if has_key(t, k2) {
                    let j = key_index(t, k2);
                    assert(s[j].0 == k2);
                }
            }
        }
    } else {
        assert(t == s.push((k, v)));
        assert forall|a: int, b: int| 0 <= a < b < t.len() implies t[a].0 != t[b].0 by {
            if b == s.len() {
                assert(s[a].0 != k);
            } else {
                assert(s[a].0 != s[b].0);
            }
        }
        lemma_key_index_unique(t, k, s.len() as int);
        assert forall|k2: Seq<char>| k2 != k implies lookup(t, k2) == #[trigger] lookup(s, k2) by {
            if has_key(s, k2) {
                let j = key_index(s, k2);
                lemma_key_index_unique(t, k2, j);
            } else {
                if has_key(t, k2) {
                    let j = key_index(t, k2);
                    assert(j < s.len());
                    assert(s[j].0 == k2);
                }
            }
        }
    }
}

proof fn lemma_add_flag(s: Seq<(Seq<char>, MetaValueView)>, flag_key: Seq<char>, key: Seq<char>)
    requires
        unique_keys(s),
    ensures
        unique_keys(add_flag(s, flag_key, key)),
        flag_lists(add_flag(s, flag_key, key), flag_key, key),
        forall|k2: Seq<char>| k2 != flag_key ==> lookup(add_flag(s, flag_key, key), k2) == #[trigger] lookup(s, k2),
{
    match lookup(s, flag_key) {
        Some(MetaValueView::List(l)) => {
            lemma_insert_entry(s, flag_key, MetaValueView::List(l.push(key)));
            assert(l.push(key)[l.len() as int] == key);
        },
        _ => {
            lemma_insert_entry(s, flag_key, MetaValueView::List(seq![key]));
            assert(seq![key][0] == key);
        },
    }
}

fn clone_strings(v: &Vec<String>) -> (r: Vec<String>)
    ensures
        r@.map_values(|s: String| s@) == v@.map_values(|s: String| s@),
{
    let mut r: Vec<String> = Vec::new();
    let mut i: usize = 0;
    while i < v.len()
        invariant
            i <= v.len(),
            r@.map_values(|s: String| s@) == v@.subrange(0, i as int).map_values(|s: String| s@),
        decreases v.len() - i,
    {
        r.push(v[i].clone());
        i += 1;
        assert(v@.subrange(0, i as int).map_values(|s: String| s@) =~= v@.subrange(0, i - 1).map_values(|s: String| s@).push(v@[i - 1]@));
        assert(r@.map_values(|s: String| s@) =~= v@.subrange(0, i as int).map_values(|s: String| s@));
    }
    assert(v@.subrange(0, i as int) =~= v@);
    r
}

/// Finds the position of `key`.
fn find_key(v: &Vec<MetaEntry>, key: &String) -> (r: Option<usize>)
    ensures
        match r {
            Some(i) => i < v@.len() && v@[i as int].key@ == key@,
            None => !has_key(entries_view(v@), key@),
        },
{
    let mut i: usize = 0;
    while i < v.len()
        invariant
            i <= v.len(),
            forall|j: int| 0 <= j < i ==> v@[j].key@ != key@,
        decreases v.len() - i,
    {
        if v[i].key == *key {
            return Some(i);
        }
        i += 1;
    }
    assert forall|j: int| 0 <= j < entries_view(v@).len() implies entries_view(v@)[j].0 != key@ by {
        assert(entries_view(v@)[j] == v@[j]@);
    }
    None
}

/// Inserts or replaces `key` in a vector of entries.
fn insert_into(v: &mut Vec<MetaEntry>, key: String, value: MetaValue)
    requires
        unique_keys(entries_view(old(v)@)),
    ensures
        entries_view(final(v)@) == insert_entry(entries_view(old(v)@), key@, value@),
        unique_keys(entries_view(final(v)@)),
{
    let ghost s = entries_view(v@);
    let ghost k = key@;
    let ghost val = value@;
    proof {
        lemma_insert_entry(s, k, val);
    }
    match find_key(v, &key) {
        Some(i) => {
            proof {
                assert(s[i as int].0 == k);
                lemma_key_index_unique(s, k, i as int);
            }
            v.set(i, MetaEntry { key, value });
            assert(entries_view(v@) =~= s.update(i as int, (k, val)));
        },
        None => {
            v.push(MetaEntry { key, value });
            assert(entries_view(v@) =~= s.push((k, val)));
        },
    }
}

/// Appends `key` to the list under `flag_key`, creating it when absent.
fn add_flag_into(v: &mut Vec<MetaEntry>, flag_key: String, key: &String)
    requires
        unique_keys(entries_view(old(v)@)),
    ensures
        entries_view(final(v)@) == add_flag(entries_view(old(v)@), flag_key@, key@),
        unique_keys(entries_view(final(v)@)),
{
    let ghost s = entries_view(v@);
    let found = find_key(v, &flag_key);
    let new_value = match found {
        Some(i) => {
            proof {
                lemma_key_index_unique(s, flag_key@, i as int);
                assert(s[i as int] == v@[i as int]@);
            }
            match &v[i].value {
                MetaValue::List(l) => {
                    let mut l2 = clone_strings(l);
                    l2.push(key.clone());
                    assert(l2@.map_values(|s: String| s@) =~= l@.map_values(|s: String| s@).push(key@));
                    MetaValue::List(l2)
                },
                _ => {
                    let mut l2: Vec<String> = Vec::new();
                    l2.push(key.clone());
                    assert(l2@.map_values(|s: String| s@) =~= seq![key@]);
                    MetaValue::List(l2)
                },
            }
        },
        None => {
            let mut l2: Vec<String> = Vec::new();
            l2.push(key.clone());
            assert(l2@.map_values(|s: String| s@) =~= seq![key@]);
            MetaValue::List(l2)
        },
    };
    insert_into(v, flag_key, new_value);
}

impl Metadata {
    /// The null metadata value, which reads as empty.
    pub fn new() -> (m: Metadata)
        ensures
            !m.is_object(),
            m.entries() == Seq::<(Seq<char>, MetaValueView)>::empty(),
            m.wf(),
    {
        Metadata { object: None }
    }

    /// The string value at `key`, if present and a string.
    pub fn meta_str(&self, key: &str) -> (r: Option<&str>)
        requires
            self.wf(),
        ensures
            match r {
                Some(x) => lookup(self.entries(), key@) == Some(MetaValueView::Str(x@)),
                None => !(lookup(self.entries(), key@) matches Some(MetaValueView::Str(_))),
            },
    {
        match &self.object {
            None => None,
            Some(v) => {
                let k = String::from_str(key);
                match find_key(v, &k) {
                    None => None,
                    Some(i) => {
                        proof {
                            lemma_key_index_unique(entries_view(v@), key@, i as int);
                        }
                        match &v[i].value {
                            MetaValue::Str(s) => Some(s.as_str()),
                            _ => None,
                        }
                    },
                }
            },
        }
    }

    /// The `u64` value at `key`, if present and a number.
    pub fn meta_u64(&self, key: &str) -> (r: Option<u64>)
        requires
            self.wf(),
        ensures
            match r {
                Some(x) => lookup(self.entries(), key@) == Some(MetaValueView::U64(x)),
                None => !(lookup(self.entries(), key@) matches Some(MetaValueView::U64(_))),
            },
    {
        match &self.object {
            None => None,
            Some(v) => {
                let k = String::from_str(key);
                match find_key(v, &k) {
                    None => None,
                    Some(i) => {
                        proof {
                            lemma_key_index_unique(entries_view(v@), key@, i as int);
                        }
                        match &v[i].value {
                            MetaValue::U64(n) => Some(*n),
                            _ => None,
                        }
                    },
                }
            },
        }
    }

    /// The byte-run value at `key`, if present and bytes.
    pub fn meta_bytes(&self, key: &str) -> (r: Option<&[u8]>)
        requires
            self.wf(),
        ensures
            match r {
                Some(x) => lookup(self.entries(), key@) == Some(MetaValueView::Bytes(x@)),
                None => !(lookup(self.entries(), key@) matches Some(MetaValueView::Bytes(_))),
            },
    {
        match &self.object {
            None => None,
            Some(v) => {
                let k = String::from_str(key);
                match find_key(v, &k) {
                    None => None,
                    Some(i) => {
                        proof {
                            lemma_key_index_unique(entries_view(v@), key@, i as int);
                        }
                        match &v[i].value {
                            MetaValue::Bytes(b) => Some(b.as_slice()),
                            _ => None,
                        }
                    },
                }
            },
        }
    }

    /// The number of entries (0 when null), well-known flag keys included.
    pub fn meta_len(&self) -> (n: usize)
        ensures
            n == self.entries().len(),
    {
        match &self.object {
            None => 0,
            Some(v) => v.len(),
        }
    }

    /// Whether there are no entries.
    pub fn meta_is_empty(&self) -> (b: bool)
        ensures
            b == (self.entries().len() == 0),
    {
        self.meta_len() == 0
    }

    fn flag_lists_exec(&self, flag_key: String, key: &str) -> (b: bool)
        requires
            self.wf(),
        ensures
            b == flag_lists(self.entries(), flag_key@, key@),
    {
        match &self.object {
            None => false,
            Some(v) => {
                match find_key(v, &flag_key) {
                    None => false,
                    Some(i) => {
                        proof {
                            lemma_key_index_unique(entries_view(v@), flag_key@, i as int);
                        }
                        match &v[i].value {
                            MetaValue::List(l) => {
                                let k = String::from_str(key);
                                let ghost lv = l@.map_values(|s: String| s@);
                                assert(entries_view(v@)[i as int] == v@[i as int]@);
                                assert(lookup(self.entries(), flag_key@) == Some(MetaValueView::List(lv)));
                                let mut j: usize = 0;
                                while j < l.len()
                                    invariant
                                        j <= l.len(),
                                        lv == l@.map_values(|s: String| s@),
                                        k@ == key@,
                                        lookup(self.entries(), flag_key@) == Some(MetaValueView::List(lv)),
                                        forall|m: int| 0 <= m < j ==> lv[m] != key@,
                                    decreases l.len() - j,
                                {
                                    assert(lv[j as int] == l@[j as int]@);
                                    if l[j] == k {
                                        assert(lv[j as int] == key@);
                                        assert(lv.contains(key@));
                                        return true;
                                    }
                                    j += 1;
                                }
                                assert(!lv.contains(key@));
                                false
                            },
                            _ => false,
                        }
                    },
                }
            },
        }
    }

    /// Whether `key` is marked sensitive.
    pub fn meta_is_sensitive(&self, key: &str) -> (b: bool)
        requires
            self.wf(),
        ensures
            b == flag_lists(self.entries(), sensitive_key(), key@),
    {
        self.flag_lists_exec(sensitive_key_string(), key)
    }

    /// Whether `key` is marked do-not-propagate.
    pub fn meta_is_no_propagate(&self, key: &str) -> (b: bool)
        requires
            self.wf(),
        ensures
            b == flag_lists(self.entries(), no_propagate_key(), key@),
    {
        self.flag_lists_exec(no_propagate_key_string(), key)
    }
}

/// Insert (or replace) `key` to `value`, turning null metadata into an
/// object, and record `flags` under the well-known keys.
pub fn meta_set(metadata: &mut Metadata, key: &str, value: MetaValue, flags: MetadataFlags)
    requires
        old(metadata).wf(),
    ensures
        final(metadata).wf(),
        final(metadata).is_object(),
        final(metadata).entries() == record_flags(
            insert_entry(old(metadata).entries(), key@, value@),
            key@,
            flags,
        ),
{
    let mut v: Vec<MetaEntry> = match metadata.object.take() {
        Some(v) => v,
        None => Vec::new(),
    };
    assert(entries_view(v@) == old(metadata).entries());
    let k = String::from_str(key);
    insert_into(&mut v, k.clone(), value);
    if flags.contains(MetadataFlags(1)) {
        add_flag_into(&mut v, sensitive_key_string(), &k);
    }
    if flags.contains(MetadataFlags(2)) {
        add_flag_into(&mut v, no_propagate_key_string(), &k);
    }
    metadata.object = Some(v);
}

/// Whether `k` is one of the two well-known flag keys.
pub open spec fn is_flag_key(k: Seq<char>) -> bool {
    k == sensitive_key() || k == no_propagate_key()
}

/// The entries other than the well-known flag keys, in order.
pub open spec fn user_entries(s: Seq<(Seq<char>, MetaValueView)>) -> Seq<(Seq<char>, MetaValueView)>
    decreases s.len(),
{
    if s.len() == 0 {
        Seq::empty()
    } else if is_flag_key(s.last().0) {
        user_entries(s.drop_last())
    } else {
        user_entries(s.drop_last()).push(s.last())
    }
}

fn copy_bytes(b: &[u8]) -> (c: Vec<u8>)
    ensures
        c@ == b@,
{
    let mut c: Vec<u8> = Vec::new();
    let mut i: usize = 0;
    while i < b.len()
        invariant
            i <= b.len(),
            c@ == b@.subrange(0, i as int),
        decreases b.len() - i,
    {
        c.push(b[i]);
        i += 1;
        assert(c@ =~= b@.subrange(0, i as int));
    }
    assert(b@.subrange(0, i as int) =~= b@);
    c
}

fn is_flag_key_exec(k: &String) -> (b: bool)
    ensures
        b == is_flag_key(k@),
{
    let s = sensitive_key_string();
    let n = no_propagate_key_string();
    *k == s || *k == n
}

impl Metadata {
    /// The object's entries, or `None` for null metadata.
    pub fn as_object(&self) -> (r: Option<&[MetaEntry]>)
        ensures
            r is Some == self.is_object(),
            r matches Some(v) ==> entries_view(v@) == self.entries(),
    {
        match &self.object {
            Some(v) => Some(v.as_slice()),
            None => None,
        }
    }

    /// The `(key, value)` entries other than the well-known flag keys.
    pub fn meta_entries(&self) -> (r: Vec<(&str, &MetaValue)>)
        ensures
            r@.map_values(|p: (&str, &MetaValue)| (p.0@, p.1@)) == user_entries(self.entries()),
    {
        let mut r: Vec<(&str, &MetaValue)> = Vec::new();
        match &self.object {
            None => {
                assert(r@.map_values(|p: (&str, &MetaValue)| (p.0@, p.1@)) =~= Seq::empty());
                r
            },
            Some(v) => {
                let ghost s = entries_view(v@);
                let mut i: usize = 0;
                while i < v.len()
                    invariant
                        i <= v.len(),
                        s == entries_view(v@),
                        r@.map_values(|p: (&str, &MetaValue)| (p.0@, p.1@)) == user_entries(s.take(i as int)),
                    decreases v.len() - i,
                {
                    let e = &v[i];
                    assert(s.take(i + 1).drop_last() =~= s.take(i as int));
                    assert(s.take(i + 1).last() == e@);
                    if !is_flag_key_exec(&e.key) {
                        r.push((e.key.as_str(), &e.value));
                        assert(r@.map_values(|p: (&str, &MetaValue)| (p.0@, p.1@)) =~= user_entries(s.take(i as int)).push(e@));
                    }
                    i += 1;
                }
                assert(s.take(i as int) =~= s);
                r
            },
        }
    }
}

impl Default for Metadata {
    fn default() -> (m: Metadata)
        ensures
            !m.is_object(),
            m.entries() == Seq::<(Seq<char>, MetaValueView)>::empty(),
    {
        Metadata { object: None }
    }
}

/// Fluent builder producing a metadata object.
pub struct MetadataBuilder {
    obj: Vec<MetaEntry>,
}

impl MetadataBuilder {
    /// The entries built so far.
    pub closed spec fn entries(&self) -> Seq<(Seq<char>, MetaValueView)> {
        entries_view(self.obj@)
    }

    /// Keys are unique.
    pub open spec fn wf(&self) -> bool {
        unique_keys(self.entries())
    }

    /// Add (or replace) a string entry.
    pub fn str(self, key: &str, value: &str) -> (r: Self)
        requires
            self.wf(),
        ensures
            r.wf(),
            r.entries() == insert_entry(self.entries(), key@, MetaValueView::Str(value@)),
    {
        let mut obj = self.obj;
        insert_into(&mut obj, String::from_str(key), MetaValue::Str(String::from_str(value)));
        MetadataBuilder { obj }
    }

    /// Add (or replace) a `u64` entry.
    pub fn u64(self, key: &str, value: u64) -> (r: Self)
        requires
            self.wf(),
        ensures
            r.wf(),
            r.entries() == insert_entry(self.entries(), key@, MetaValueView::U64(value)),
    {
        let mut obj = self.obj;
        insert_into(&mut obj, String::from_str(key), MetaValue::U64(value));
        MetadataBuilder { obj }
    }

    /// Add (or replace) a byte-run entry.
    pub fn bytes(self, key: &str, value: &[u8]) -> (r: Self)
        requires
            self.wf(),
        ensures
            r.wf(),
            r.entries() == insert_entry(self.entries(), key@, MetaValueView::Bytes(value@)),
    {
        let mut obj = self.obj;
        insert_into(&mut obj, String::from_str(key), MetaValue::Bytes(copy_bytes(value)));
        MetadataBuilder { obj }
    }

    /// Mark `key` sensitive (recorded under the `vox:sensitive` key).
    pub fn sensitive(self, key: &str) -> (r: Self)
        requires
            self.wf(),
        ensures
            r.wf(),
            r.entries() == add_flag(self.entries(), sensitive_key(), key@),
    {
        let mut obj = self.obj;
        add_flag_into(&mut obj, sensitive_key_string(), &String::from_str(key));
        MetadataBuilder { obj }
    }

    /// Mark `key` do-not-propagate (recorded under the `vox:no-propagate` key).
    pub fn no_propagate(self, key: &str) -> (r: Self)
        requires
            self.wf(),
        ensures
            r.wf(),
            r.entries() == add_flag(self.entries(), no_propagate_key(), key@),
    {
        let mut obj = self.obj;
        add_flag_into(&mut obj, no_propagate_key_string(), &String::from_str(key));
        MetadataBuilder { obj }
    }

    /// Finish building: an object holding exactly the entries added.
    pub fn build(self) -> (m: Metadata)
        ensures
            m.is_object(),
            m.entries() == self.entries(),
            m.wf() == self.wf(),
    {
        Metadata { object: Some(self.obj) }
    }
}

/// Start building metadata fluently.
pub fn metadata() -> (b: MetadataBuilder)
    ensures
        b.wf(),
        b.entries() == Seq::<(Seq<char>, MetaValueView)>::empty(),
{
    let b = MetadataBuilder { obj: Vec::new() };
    assert(b.entries() =~= Seq::<(Seq<char>, MetaValueView)>::empty());
    b
}

/// Look up a string metadata value by key.
pub fn metadata_get_str<'a>(metadata: &'a Metadata, key: &str) -> (r: Option<&'a str>)
    requires
        metadata.wf(),
    ensures
        match r {
            Some(x) => lookup(metadata.entries(), key@) == Some(MetaValueView::Str(x@)),
            None => !(lookup(metadata.entries(), key@) matches Some(MetaValueView::Str(_))),
        },
{
    metadata.meta_str(key)
}

/// Look up a `u64` metadata value by key.
pub fn metadata_get_u64(metadata: &Metadata, key: &str) -> (r: Option<u64>)
    requires
        metadata.wf(),
    ensures
        match r {
            Some(x) => lookup(metadata.entries(), key@) == Some(MetaValueView::U64(x)),
            None => !(lookup(metadata.entries(), key@) matches Some(MetaValueView::U64(_))),
        },
{
    metadata.meta_u64(key)
}

/// Metadata is already owned; the conversion is the identity.
pub fn metadata_into_owned(metadata: Metadata) -> (r: Metadata)
    ensures
        r == metadata,
{
    metadata
}

proof fn lemma_flag_keys_differ()
    ensures
        sensitive_key() != no_propagate_key(),
{
    assert(sensitive_key().len() != no_propagate_key().len());
}

proof fn lemma_record_flags(s: Seq<(Seq<char>, MetaValueView)>, key: Seq<char>, flags: MetadataFlags)
    requires
        unique_keys(s),
    ensures
        unique_keys(record_flags(s, key, flags)),
        forall|k2: Seq<char>| !is_flag_key(k2) ==> lookup(record_flags(s, key, flags), k2) == #[trigger] lookup(s, k2),
        flags.spec_contains(MetadataFlags(1)) ==> flag_lists(record_flags(s, key, flags), sensitive_key(), key),
        flags.spec_contains(MetadataFlags(2)) ==> flag_lists(record_flags(s, key, flags), no_propagate_key(), key),
{
    lemma_flag_keys_differ();
    let s1 = if flags.spec_contains(MetadataFlags(1)) {
        add_flag(s, sensitive_key(), key)
    } else {
        s
    };
    if flags.spec_contains(MetadataFlags(1)) {
        lemma_add_flag(s, sensitive_key(), key);
    }
    if flags.spec_contains(MetadataFlags(2)) {
        lemma_add_flag(s1, no_propagate_key(), key);
        assert(lookup(add_flag(s1, no_propagate_key(), key), sensitive_key()) == lookup(s1, sensitive_key()));
    }
}

/// A write is read back: after `meta_set(key, value, flags)` the key holds
/// `value` (for any key other than the two well-known flag keys), keys stay
/// unique, every other ordinary key keeps its value, and each requested flag
/// lists the key.
pub proof fn law_set_then_get(m: Metadata, key: Seq<char>, value: MetaValueView, flags: MetadataFlags)
    requires
        m.wf(),
        !is_flag_key(key),
    ensures
        ({
            let after = record_flags(insert_entry(m.entries(), key, value), key, flags);
            &&& unique_keys(after)
            &&& lookup(after, key) == Some(value)
            &&& forall|k2: Seq<char>| k2 != key && !is_flag_key(k2) ==> lookup(after, k2) == #[trigger] lookup(m.entries(), k2)
            &&& flags.spec_contains(MetadataFlags(1)) ==> flag_lists(after, sensitive_key(), key)
            &&& flags.spec_contains(MetadataFlags(2)) ==> flag_lists(after, no_propagate_key(), key)
        }),
{
    let s = m.entries();
    lemma_insert_entry(s, key, value);
    lemma_record_flags(insert_entry(s, key, value), key, flags);
    let after = record_flags(insert_entry(s, key, value), key, flags);
    assert forall|k2: Seq<char>| k2 != key && !is_flag_key(k2) implies lookup(after, k2) == #[trigger] lookup(s, k2) by {
        assert(lookup(after, k2) == lookup(insert_entry(s, key, value), k2));
    }
}

/// No duplicate keys: a later write for a key replaces the earlier one, so
/// the entry count is the same as after the first write and the key reads
/// back the later value.
pub proof fn law_later_write_replaces(
    s: Seq<(Seq<char>, MetaValueView)>,
    key: Seq<char>,
    v1: MetaValueView,
    v2: MetaValueView,
)
    requires
        unique_keys(s),
    ensures
        insert_entry(insert_entry(s, key, v1), key, v2).len() == insert_entry(s, key, v1).len(),
        lookup(insert_entry(insert_entry(s, key, v1), key, v2), key) == Some(v2),
        unique_keys(insert_entry(insert_entry(s, key, v1), key, v2)),
{
    lemma_insert_entry(s, key, v1);
    lemma_insert_entry(insert_entry(s, key, v1), key, v2);
}

/// Null metadata (the default) reads as empty: no entries, no values, no flags.
pub proof fn law_default_is_empty(m: Metadata, key: Seq<char>)
    requires
        !m.is_object(),
    ensures
        m.entries().len() == 0,
        lookup(m.entries(), key) is None,
        !flag_lists(m.entries(), sensitive_key(), key),
        !flag_lists(m.entries(), no_propagate_key(), key),
        user_entries(m.entries()).len() == 0,
{
}

/// The logical entries never include the well-known flag keys.
pub proof fn law_entries_hide_flag_keys(s: Seq<(Seq<char>, MetaValueView)>)
    ensures
        forall|i: int| 0 <= i < user_entries(s).len() ==> !is_flag_key(#[trigger] user_entries(s)[i].0),
    decreases s.len(),
{
    if s.len() > 0 {
        law_entries_hide_flag_keys(s.drop_last());
        let r = user_entries(s.drop_last());
        if !is_flag_key(s.last().0) {
            assert forall|i: int| 0 <= i < user_entries(s).len() implies !is_flag_key(#[trigger] user_entries(s)[i].0) by {
                if i < r.len() {
                    assert(user_entries(s)[i] == r[i]);
                }
            }
        }
    }
}

/// `contains` is a subset test on the flag bits: everything contains
/// `NONE`, every flag set contains itself, and a union contains each operand.
pub proof fn law_flags_contains(a: MetadataFlags, b: MetadataFlags)
    ensures
        a.spec_contains(MetadataFlags(0)),
        a.spec_contains(a),
        MetadataFlags(a.0 | b.0).spec_contains(a),
        MetadataFlags(a.0 | b.0).spec_contains(b),
{
    let x = a.0;
    let y = b.0;
    assert(x & 0 == 0) by (bit_vector);
    assert(x & x == x) by (bit_vector);
    assert((x | y) & x == x) by (bit_vector);
    assert((x | y) & y == y) by (bit_vector);
}

} // verus!
