//! Point-in-time images of the target application's key-value store, and the
//! key-level difference between two of them.
use vstd::prelude::*;

verus! {

/// One key of an image and the text held for it.
pub type EntryView = (Seq<char>, Seq<char>);

/// A key together with the way it differs between two images.
pub type ChangeView = (Seq<char>, ChangeKind);

/// Canonical JSON text of a stored value that parses as JSON.
pub uninterp spec fn canonical_json_of(raw: Seq<char>) -> Option<Seq<char>>;

/// JSON string literal that holds a raw value verbatim.
pub uninterp spec fn json_quoted(raw: Seq<char>) -> Seq<char>;

/// Relies on serde_json: `from_str::<Value>` and the `Display` of `Value`, which
/// writes object keys in sorted order. `None` exactly when the text is no JSON.
#[verifier::external_body]
fn canonical_json(raw: &str) -> (r: Option<String>)
    ensures
        match r {
            Some(t) => canonical_json_of(raw@) == Some(t@),
            None => canonical_json_of(raw@).is_none(),
        },
{
    serde_json::from_str::<serde_json::Value>(raw).ok().map(|v| v.to_string())
}

/// Relies on serde_json::to_string on a `str`: the value as one JSON string.
#[verifier::external_body]
fn quote_json(raw: &str) -> (r: String)
    ensures
        r@ == json_quoted(raw@),
{
    serde_json::to_string(raw).unwrap_or_default()
}

/// The decoded form of a stored value: its canonical JSON text where it parses,
/// else the raw text as a JSON string.
pub open spec fn decoded_text(raw: Seq<char>) -> Seq<char> {
    match canonical_json_of(raw) {
        Some(t) => t,
        None => json_quoted(raw),
    }
}

/// Decodes one stored value, so that values that are equal as JSON compare equal.
pub fn decode_store_value(raw: &str) -> (r: String)
    ensures
        r@ == decoded_text(raw@),
{
    match canonical_json(raw) {
        Some(t) => t,
        None => quote_json(raw),
    }
}

pub open spec fn keys_unique(s: Seq<EntryView>) -> bool {
    forall|i: int, j: int|
        0 <= i < s.len() && 0 <= j < s.len() && i != j ==> s[i].0 != s[j].0
}

pub open spec fn has_key(s: Seq<EntryView>, k: Seq<char>) -> bool {
    exists|i: int| 0 <= i < s.len() && s[i].0 == k
}

/// The text held for `k`, if any.
pub open spec fn lookup(s: Seq<EntryView>, k: Seq<char>) -> Option<Seq<char>> {
    if has_key(s, k) {
        Some(s[choose|i: int| 0 <= i < s.len() && s[i].0 == k].1)
    } else {
        None
    }
}

#[derive(PartialEq, Eq, Structural, Clone, Copy, Debug)]
pub enum ChangeKind {
    Added,
    Removed,
    Changed,
}

/// What one entry of the newer image contributes to the difference.
pub open spec fn classify_new(old: Seq<EntryView>, e: EntryView) -> Seq<ChangeView> {
    match lookup(old, e.0) {
        None => seq![(e.0, ChangeKind::Added)],
        Some(v) => if v != e.1 {
            seq![(e.0, ChangeKind::Changed)]
        } else {
            Seq::empty()
        },
    }
}

/// What one entry of the older image contributes to the difference.
pub open spec fn classify_old(new: Seq<EntryView>, e: EntryView) -> Seq<ChangeView> {
    if has_key(new, e.0) {
        Seq::empty()
    } else {
        seq![(e.0, ChangeKind::Removed)]
    }
}

/// Keys of the newer image that were added or changed, in its order.
pub open spec fn added_or_changed(old: Seq<EntryView>, new: Seq<EntryView>) -> Seq<ChangeView>
    decreases new.len(),
{
    if new.len() == 0 {
        Seq::empty()
    } else {
        added_or_changed(old, new.drop_last()) + classify_new(old, new.last())
    }
}

/// Keys of the older image that are gone from the newer one, in its order.
pub open spec fn removed_keys(old: Seq<EntryView>, new: Seq<EntryView>) -> Seq<ChangeView>
    decreases old.len(),
{
    if old.len() == 0 {
        Seq::empty()
    } else {
        removed_keys(old.drop_last(), new) + classify_old(new, old.last())
    }
}

/// The key-level difference from `old` to `new`.
pub open spec fn diff_of(old: Seq<EntryView>, new: Seq<EntryView>) -> Seq<ChangeView> {
    added_or_changed(old, new) + removed_keys(old, new)
}

/// The line that reports one change: `"<key>: added"` and so on.
pub open spec fn change_text(c: ChangeView) -> Seq<char> {
    c.0 + match c.1 {
        ChangeKind::Added => ": added"@,
        ChangeKind::Removed => ": removed"@,
        ChangeKind::Changed => ": changed"@,
    }
}

/// Decimal digits of a number.
pub open spec fn decimal_text(n: nat) -> Seq<char>
    decreases n,
{
    if n < 10 {
        seq![digit_char(n)]
    } else {
        decimal_text(n / 10).push(digit_char(n % 10))
    }
}

pub open spec fn digit_char(d: nat) -> char {
    if d < 10 {
        ((d + 48) as u8) as char
    } else {
        '?'
    }
}

/// The one digit `d` as text.
fn digit_text(d: usize) -> (r: &'static str)
    requires
        d < 10,
    ensures
        r@ == seq![digit_char(d as nat)],
{
    let r = match d {
        0 => "0",
        1 => "1",
        2 => "2",
        3 => "3",
        4 => "4",
        5 => "5",
        6 => "6",
        7 => "7",
        8 => "8",
        _ => "9",
    };
    proof {
        reveal_strlit("0");
        reveal_strlit("1");
        reveal_strlit("2");
        reveal_strlit("3");
        reveal_strlit("4");
        reveal_strlit("5");
        reveal_strlit("6");
        reveal_strlit("7");
        reveal_strlit("8");
        reveal_strlit("9");
        assert(r@ =~= seq![digit_char(d as nat)]);
    }
    r
}

/// The decimal digits of `n`.
pub(crate) fn count_text(n: usize) -> (r: String)
    ensures
        r@ == decimal_text(n as nat),
    decreases n,
{
    if n < 10 {
        String::from_str(digit_text(n))
    } else {
        let mut r = count_text(n / 10);
        r.append(digit_text(n % 10));
        proof {
            assert(r@ =~= decimal_text((n / 10) as nat).push(digit_char((n % 10) as nat)));
        }
        r
    }
}

/// One key of an image and its text.
pub struct SnapshotEntry {
    pub key: String,
    pub value: String,
}

/// An image of the store: each key at most once, in the order it was read.
pub struct Snapshot {
    entries: Vec<SnapshotEntry>,
}

impl View for Snapshot {
    type V = Seq<EntryView>;

    closed spec fn view(&self) -> Seq<EntryView> {
        self.entries@.map_values(|e: SnapshotEntry| (e.key@, e.value@))
    }
}

proof fn lemma_lookup_at(s: Seq<EntryView>, i: int)
    requires
        keys_unique(s),
        0 <= i < s.len(),
    ensures
        has_key(s, s[i].0),
        lookup(s, s[i].0) == Some(s[i].1),
{
    let k = s[i].0;
    assert(s[i].0 == k);
    let j = choose|j: int| 0 <= j < s.len() && s[j].0 == k;
    assert(j == i);
}

impl Snapshot {
    pub open spec fn wf(&self) -> bool {
        keys_unique(self@)
    }

    /// An image that holds nothing.
    pub fn new() -> (r: Snapshot)
        ensures
            r.wf(),
            r@ == Seq::<EntryView>::empty(),
    {
        let r = Snapshot { entries: Vec::new() };
        assert(r@ =~= Seq::<EntryView>::empty());
        r
    }

    pub fn len(&self) -> (r: usize)
        ensures
            r == self@.len(),
    {
        self.entries.len()
    }

    /// Position of `key`, if the image holds it.
    fn find(&self, key: &String) -> (r: Option<usize>)
        ensures
            match r {
                Some(i) => i < self@.len() && self@[i as int].0 == key@,
                None => !has_key(self@, key@),
            },
    {
        let mut i: usize = 0;
        while i < self.entries.len()
            invariant
                i <= self.entries@.len(),
                self@.len() == self.entries@.len(),
                forall|j: int| 0 <= j < i ==> self@[j].0 != key@,
            decreases self.entries@.len() - i,
        {
            if self.entries[i].key == *key {
                return Some(i);
            }
            i = i + 1;
        }
        None
    }

    /// The text held for `key`.
    pub fn get(&self, key: &String) -> (r: Option<String>)
        requires
            self.wf(),
        ensures
            match r {
                Some(v) => lookup(self@, key@) == Some(v@),
                None => lookup(self@, key@).is_none(),
            },
    {
        match self.find(key) {
            Some(i) => {
                proof {
                    lemma_lookup_at(self@, i as int);
                }
                Some(self.entries[i].value.clone())
            },
            None => None,
        }
    }

    /// Stores `value` under `key`, in place where the key is held, else last.
    pub fn set(&mut self, key: String, value: String)
        requires
            old(self).wf(),
        ensures
            final(self).wf(),
            lookup(final(self)@, key@) == Some(value@),
            forall|k: Seq<char>| k != key@ ==> lookup(final(self)@, k) == lookup(old(self)@, k),
    {
        let ghost prev = self@;
        match self.find(&key) {
            Some(i) => {
                let ghost k = key@;
                let ghost v = value@;
                self.entries.set(i, SnapshotEntry { key, value });
                assert(self@ =~= prev.update(i as int, (k, v)));
                assert forall|a: int, b: int|
                    0 <= a < self@.len() && 0 <= b < self@.len() && a != b implies self@[a].0
                        != self@[b].0 by {
                    if a != i && b != i {
                        assert(prev[a].0 != prev[b].0);
                    }
                }
                proof {
                    lemma_lookup_at(self@, i as int);
                    assert forall|q: Seq<char>| q != k implies lookup(self@, q) == lookup(
                        prev,
                        q,
                    ) by {
                        if has_key(prev, q) {
                            let j = choose|j: int| 0 <= j < prev.len() && prev[j].0 == q;
                            lemma_lookup_at(prev, j);
                            assert(self@[j] == prev[j]);
                            lemma_lookup_at(self@, j);
                        } else {
                            assert(!has_key(self@, q)) by {
                                if has_key(self@, q) {
                                    let j = choose|j: int| 0 <= j < self@.len() && self@[j].0 == q;
                                    assert(prev[j].0 == q);
                                }
                            }
                        }
                    }
                }
            },
            None => {
                let ghost k = key@;
                let ghost v = value@;
                self.entries.push(SnapshotEntry { key, value });
                assert(self@ =~= prev.push((k, v)));
                proof {
                    lemma_lookup_at(self@, prev.len() as int);
                    assert forall|q: Seq<char>| q != k implies lookup(self@, q) == lookup(
                        prev,
                        q,
                    ) by {
                        if has_key(prev, q) {
                            let j = choose|j: int| 0 <= j < prev.len() && prev[j].0 == q;
                            lemma_lookup_at(prev, j);
                            assert(self@[j] == prev[j]);
                            lemma_lookup_at(self@, j);
                        } else {
                            assert(!has_key(self@, q)) by {
                                if has_key(self@, q) {
                                    let j = choose|j: int| 0 <= j < self@.len() && self@[j].0 == q;
                                    assert(j < prev.len());
                                    assert(prev[j].0 == q);
                                }
                            }
                        }
                    }
                }
            },
        }
    }

    /// Takes `key` out of the image; the number of entries removed (0 or 1).
    pub fn remove(&mut self, key: &String) -> (r: usize)
        requires
            old(self).wf(),
        ensures
            final(self).wf(),
            r == (if has_key(old(self)@, key@) { 1usize } else { 0usize }),
            lookup(final(self)@, key@).is_none(),
            forall|k: Seq<char>| k != key@ ==> lookup(final(self)@, k) == lookup(old(self)@, k),
    {
        let ghost prev = self@;
        match self.find(key) {
            Some(i) => {
                self.entries.remove(i);
                assert(self@ =~= prev.remove(i as int));
                assert forall|a: int, b: int|
                    0 <= a < self@.len() && 0 <= b < self@.len() && a != b implies self@[a].0
                        != self@[b].0 by {
                    let pa = if a < i { a } else { a + 1 };
                    let pb = if b < i { b } else { b + 1 };
                    assert(self@[a] == prev[pa]);
                    assert(self@[b] == prev[pb]);
                }
                proof {
                    assert(!has_key(self@, key@)) by {
                        if has_key(self@, key@) {
                            let j = choose|j: int| 0 <= j < self@.len() && self@[j].0 == key@;
                            let pj = if j < i { j } else { j + 1 };
                            assert(prev[pj].0 == key@);
                            assert(prev[i as int].0 == key@);
                        }
                    }
                    assert forall|q: Seq<char>| q != key@ implies lookup(self@, q) == lookup(
                        prev,
                        q,
                    ) by {
                        if has_key(prev, q) {
                            let j = choose|j: int| 0 <= j < prev.len() && prev[j].0 == q;
                            assert(j != i);
                            lemma_lookup_at(prev, j);
                            let nj = if j < i { j } else { j - 1 };
                            assert(self@[nj] == prev[j]);
                            lemma_lookup_at(self@, nj);
                        } else {
                            assert(!has_key(self@, q)) by {
                                if has_key(self@, q) {
                                    let j = choose|j: int| 0 <= j < self@.len() && self@[j].0 == q;
                                    let pj = if j < i { j } else { j + 1 };
                                    assert(prev[pj].0 == q);
                                }
                            }
                        }
                    }
                }
                1
            },
            None => {
                assert(lookup(self@, key@).is_none());
                0
            },
        }
    }
}

/// What the store's rows give for `k`: the decoded text of the last row with
/// that key.
pub open spec fn row_lookup(rows: Seq<(String, String)>, k: Seq<char>) -> Option<Seq<char>>
    decreases rows.len(),
{
    if rows.len() == 0 {
        None
    } else if rows.last().0@ == k {
        Some(decoded_text(rows.last().1@))
    } else {
        row_lookup(rows.drop_last(), k)
    }
}

/// How a difference is summed up in one line.
pub open spec fn summary_text(n: nat) -> Seq<char> {
    if n > 0 {
        decimal_text(n) + " fields changed"@
    } else {
        "No changes"@
    }
}

/// The difference between two images: whether there is one, one line per
/// changed key, and a summary line.
pub struct DataDiff {
    pub has_changes: bool,
    pub changed_fields: Vec<String>,
    pub summary: String,
}

impl DataDiff {
    /// The lines of `changed_fields` as text.
    pub open spec fn field_lines(&self) -> Seq<Seq<char>> {
        self.changed_fields@.map_values(|s: String| s@)
    }

    /// This value reports exactly the difference from `old` to `new`.
    pub open spec fn reports(&self, old: Seq<EntryView>, new: Seq<EntryView>) -> bool {
        &&& self.field_lines() == diff_of(old, new).map_values(|c: ChangeView| change_text(c))
        &&& self.has_changes == (diff_of(old, new).len() > 0)
        &&& self.summary@ == summary_text(diff_of(old, new).len())
    }
}

impl Snapshot {
    /// Builds an image from the store's `(key, value)` rows, decoding each value.
    pub fn from_rows(rows: &Vec<(String, String)>) -> (r: Snapshot)
        ensures
            r.wf(),
            forall|k: Seq<char>| lookup(r@, k) == row_lookup(rows@, k),
    {
        let mut r = Snapshot::new();
        let mut i: usize = 0;
        while i < rows.len()
            invariant
                i <= rows@.len(),
                r.wf(),
                forall|k: Seq<char>| lookup(r@, k) == row_lookup(rows@.subrange(0, i as int), k),
            decreases rows@.len() - i,
        {
            let key = rows[i].0.clone();
            let value = decode_store_value(rows[i].1.as_str());
            r.set(key, value);
            proof {
                let next = rows@.subrange(0, i + 1);
                assert(next.drop_last() =~= rows@.subrange(0, i as int));
                assert(next.last() == rows@[i as int]);
            }
            i = i + 1;
        }
        assert(rows@.subrange(0, rows@.len() as int) =~= rows@);
        r
    }

    /// A copy of the image.
    pub fn duplicate(&self) -> (r: Snapshot)
        ensures
            r@ == self@,
    {
        let mut entries: Vec<SnapshotEntry> = Vec::new();
        let mut i: usize = 0;
        while i < self.entries.len()
            invariant
                i <= self.entries@.len(),
                entries@.len() == i,
                forall|j: int|
                    0 <= j < i ==> entries@[j].key@ == self.entries@[j].key@ && entries@[j].value@
                        == self.entries@[j].value@,
            decreases self.entries@.len() - i,
        {
            let e = SnapshotEntry {
                key: self.entries[i].key.clone(),
                value: self.entries[i].value.clone(),
            };
            entries.push(e);
            i = i + 1;
        }
        let r = Snapshot { entries };
        assert(r@ =~= self@);
        r
    }
}

/// The line that reports one change.
fn change_line(key: &String, kind: ChangeKind) -> (r: String)
    ensures
        r@ == change_text((key@, kind)),
{
    let mut t = key.clone();
    match kind {
        ChangeKind::Added => t.append(": added"),
        ChangeKind::Removed => t.append(": removed"),
        ChangeKind::Changed => t.append(": changed"),
    }
    t
}

/// Compares two images key by key: first the keys of `new` that were added or
/// whose decoded value changed, in `new`'s order, then the keys of `old` that
/// are gone, in `old`'s order.
pub fn diff_snapshots(old: &Snapshot, new: &Snapshot) -> (d: DataDiff)
    requires
        old.wf(),
        new.wf(),
    ensures
        d.reports(old@, new@),
{
    let mut fields: Vec<String> = Vec::new();
    let mut i: usize = 0;
    while i < new.entries.len()
        invariant
            i <= new.entries@.len(),
            new@.len() == new.entries@.len(),
            old.wf(),
            fields@.map_values(|s: String| s@) == added_or_changed(
                old@,
                new@.subrange(0, i as int),
            ).map_values(|c: ChangeView| change_text(c)),
        decreases new.entries@.len() - i,
    {
        let ghost before = fields@;
        let key = &new.entries[i].key;
        let ghost e = new@[i as int];
        match old.get(key) {
            None => {
                let line = change_line(key, ChangeKind::Added);
                fields.push(line);
            },
            Some(v) => {
                if v != new.entries[i].value {
                    let line = change_line(key, ChangeKind::Changed);
                    fields.push(line);
                }
            },
        }
        proof {
            let next = new@.subrange(0, i + 1);
            assert(next.drop_last() =~= new@.subrange(0, i as int));
            assert(next.last() == e);
            let f = |c: ChangeView| change_text(c);
            let prev_part = added_or_changed(old@, new@.subrange(0, i as int));
            assert((prev_part + classify_new(old@, e)).map_values(f) =~= prev_part.map_values(f)
                + classify_new(old@, e).map_values(f));
            assert(fields@.map_values(|s: String| s@) =~= before.map_values(|s: String| s@)
                + classify_new(old@, e).map_values(f));
        }
        i = i + 1;
    }
    assert(new@.subrange(0, new@.len() as int) =~= new@);
    let ghost first = added_or_changed(old@, new@);
    let mut j: usize = 0;
    while j < old.entries.len()
        invariant
            j <= old.entries@.len(),
            old@.len() == old.entries@.len(),
            first == added_or_changed(old@, new@),
            fields@.map_values(|s: String| s@) == (first + removed_keys(
                old@.subrange(0, j as int),
                new@,
            )).map_values(|c: ChangeView| change_text(c)),
        decreases old.entries@.len() - j,
    {
        let ghost before = fields@;
        let key = &old.entries[j].key;
        let ghost e = old@[j as int];
        if new.find(key).is_none() {
            let line = change_line(key, ChangeKind::Removed);
            fields.push(line);
        }
        proof {
            let next = old@.subrange(0, j + 1);
            assert(next.drop_last() =~= old@.subrange(0, j as int));
            assert(next.last() == e);
            let f = |c: ChangeView| change_text(c);
            let prev_part = first + removed_keys(old@.subrange(0, j as int), new@);
            assert(first + removed_keys(next, new@) =~= prev_part + classify_old(new@, e));
            assert((prev_part + classify_old(new@, e)).map_values(f) =~= prev_part.map_values(f)
                + classify_old(new@, e).map_values(f));
            assert(fields@.map_values(|s: String| s@) =~= before.map_values(|s: String| s@)
                + classify_old(new@, e).map_values(f));
        }
        j = j + 1;
    }
    assert(old@.subrange(0, old@.len() as int) =~= old@);
    let has_changes = fields.len() > 0;
    let summary = if has_changes {
        count_text(fields.len()).concat(" fields changed")
    } else {
        String::from_str("No changes")
    };
    DataDiff { has_changes, changed_fields: fields, summary }
}

proof fn lemma_added_split(old: Seq<EntryView>, a: Seq<EntryView>, b: Seq<EntryView>)
    ensures
        added_or_changed(old, a + b) == added_or_changed(old, a) + added_or_changed(old, b),
    decreases b.len(),
{
    if b.len() == 0 {
        assert(a + b =~= a);
        assert(added_or_changed(old, a) + added_or_changed(old, b) =~= added_or_changed(old, a));
    } else {
        assert((a + b).drop_last() =~= a + b.drop_last());
        assert((a + b).last() == b.last());
        lemma_added_split(old, a, b.drop_last());
        assert(added_or_changed(old, a + b) =~= added_or_changed(old, a) + added_or_changed(old, b));
    }
}

proof fn lemma_removed_split(a: Seq<EntryView>, b: Seq<EntryView>, new: Seq<EntryView>)
    ensures
        removed_keys(a + b, new) == removed_keys(a, new) + removed_keys(b, new),
    decreases b.len(),
{
    if b.len() == 0 {
        assert(a + b =~= a);
        assert(removed_keys(a, new) + removed_keys(b, new) =~= removed_keys(a, new));
    } else {
        assert((a + b).drop_last() =~= a + b.drop_last());
        assert((a + b).last() == b.last());
        lemma_removed_split(a, b.drop_last(), new);
        assert(removed_keys(a + b, new) =~= removed_keys(a, new) + removed_keys(b, new));
    }
}

proof fn lemma_added_none(old: Seq<EntryView>, new: Seq<EntryView>)
    requires
        forall|i: int| 0 <= i < new.len() ==> lookup(old, #[trigger] new[i].0) == Some(new[i].1),
    ensures
        added_or_changed(old, new).len() == 0,
    decreases new.len(),
{
    if new.len() > 0 {
        let rest = new.drop_last();
        assert forall|i: int| 0 <= i < rest.len() implies lookup(old, #[trigger] rest[i].0) == Some(
            rest[i].1,
        ) by {
            assert(rest[i] == new[i]);
        }
        lemma_added_none(old, rest);
        assert(lookup(old, new[new.len() - 1].0) == Some(new[new.len() - 1].1));
    }
}

proof fn lemma_removed_none(old: Seq<EntryView>, new: Seq<EntryView>)
    requires
        forall|i: int| 0 <= i < old.len() ==> has_key(new, #[trigger] old[i].0),
    ensures
        removed_keys(old, new).len() == 0,
    decreases old.len(),
{
    if old.len() > 0 {
        let rest = old.drop_last();
        assert forall|i: int| 0 <= i < rest.len() implies has_key(new, #[trigger] rest[i].0) by {
            assert(rest[i] == old[i]);
        }
        lemma_removed_none(rest, new);
        assert(has_key(new, old[old.len() - 1].0));
    }
}

proof fn lemma_single(old: Seq<EntryView>, e: EntryView)
    ensures
        added_or_changed(old, seq![e]) == classify_new(old, e),
        removed_keys(seq![e], old) == classify_old(old, e),
{
    assert(seq![e].drop_last() =~= Seq::<EntryView>::empty());
    assert(seq![e].last() == e);
    assert(added_or_changed(old, Seq::<EntryView>::empty()) == Seq::<ChangeView>::empty());
    assert(removed_keys(Seq::<EntryView>::empty(), old) == Seq::<ChangeView>::empty());
    assert(Seq::<ChangeView>::empty() + classify_new(old, e) =~= classify_new(old, e));
    assert(Seq::<ChangeView>::empty() + classify_old(old, e) =~= classify_old(old, e));
}

/// Two images that hold the same text for every key, such as two reads of the
/// store with no write between them, differ in nothing.
pub proof fn lemma_same_contents_no_changes(s1: Snapshot, s2: Snapshot)
    requires
        s1.wf(),
        s2.wf(),
        forall|k: Seq<char>| lookup(s1@, k) == lookup(s2@, k),
    ensures
        diff_of(s1@, s2@).len() == 0,
{
    assert forall|i: int| 0 <= i < s2@.len() implies lookup(s1@, #[trigger] s2@[i].0) == Some(
        s2@[i].1,
    ) by {
        lemma_lookup_at(s2@, i);
    }
    lemma_added_none(s1@, s2@);
    assert forall|i: int| 0 <= i < s1@.len() implies has_key(s2@, #[trigger] s1@[i].0) by {
        lemma_lookup_at(s1@, i);
        assert(lookup(s2@, s1@[i].0).is_some());
    }
    lemma_removed_none(s1@, s2@);
}

/// Where the newer image is the older one with the value of exactly one key
/// replaced by a different value, the difference is that key, changed, alone.
pub proof fn lemma_one_value_changed(old: Snapshot, new: Snapshot, i: int)
    requires
        old.wf(),
        new.wf(),
        0 <= i < old@.len(),
        new@.len() == old@.len(),
        new@[i].0 == old@[i].0,
        new@[i].1 != old@[i].1,
        forall|j: int| 0 <= j < old@.len() && j != i ==> new@[j] == old@[j],
    ensures
        diff_of(old@, new@) == seq![(old@[i].0, ChangeKind::Changed)],
{
    let o = old@;
    let n = new@;
    let front = n.subrange(0, i);
    let back = n.subrange(i + 1, n.len() as int);
    assert(n =~= front + seq![n[i]] + back);
    lemma_added_split(o, front + seq![n[i]], back);
    lemma_added_split(o, front, seq![n[i]]);
    assert forall|j: int| 0 <= j < front.len() implies lookup(o, #[trigger] front[j].0) == Some(
        front[j].1,
    ) by {
        assert(front[j] == o[j]);
        lemma_lookup_at(o, j);
    }
    lemma_added_none(o, front);
    assert forall|j: int| 0 <= j < back.len() implies lookup(o, #[trigger] back[j].0) == Some(
        back[j].1,
    ) by {
        assert(back[j] == o[j + i + 1]);
        lemma_lookup_at(o, j + i + 1);
    }
    lemma_added_none(o, back);
    lemma_single(o, n[i]);
    lemma_lookup_at(o, i);
    assert(classify_new(o, n[i]) == seq![(o[i].0, ChangeKind::Changed)]);
    assert forall|j: int| 0 <= j < o.len() implies has_key(n, #[trigger] o[j].0) by {
        assert(n[j].0 == o[j].0);
    }
    lemma_removed_none(o, n);
    assert(diff_of(o, n) =~= seq![(o[i].0, ChangeKind::Changed)]);
}

proof fn lemma_added_keys_from(old: Seq<EntryView>, new: Seq<EntryView>)
    ensures
        forall|j: int|
            0 <= j < added_or_changed(old, new).len() ==> exists|i: int|
                0 <= i < new.len() && new[i].0 == (#[trigger] added_or_changed(old, new)[j]).0,
    decreases new.len(),
{
    if new.len() > 0 {
        let rest = new.drop_last();
        lemma_added_keys_from(old, rest);
        let pre = added_or_changed(old, rest);
        let all = added_or_changed(old, new);
        assert forall|j: int| 0 <= j < all.len() implies exists|i: int|
            0 <= i < new.len() && new[i].0 == (#[trigger] all[j]).0 by {
            if j < pre.len() {
                assert(all[j] == pre[j]);
                let i = choose|i: int| 0 <= i < rest.len() && rest[i].0 == pre[j].0;
                assert(new[i] == rest[i]);
            } else {
                assert(all[j].0 == new.last().0);
                assert(new[new.len() - 1] == new.last());
            }
        }
    }
}

proof fn lemma_removed_keys_from(old: Seq<EntryView>, new: Seq<EntryView>)
    ensures
        forall|j: int|
            0 <= j < removed_keys(old, new).len() ==> exists|i: int|
                0 <= i < old.len() && old[i].0 == (#[trigger] removed_keys(old, new)[j]).0,
    decreases old.len(),
{
    if old.len() > 0 {
        let rest = old.drop_last();
        lemma_removed_keys_from(rest, new);
        let pre = removed_keys(rest, new);
        let all = removed_keys(old, new);
        assert forall|j: int| 0 <= j < all.len() implies exists|i: int|
            0 <= i < old.len() && old[i].0 == (#[trigger] all[j]).0 by {
            if j < pre.len() {
                assert(all[j] == pre[j]);
                let i = choose|i: int| 0 <= i < rest.len() && rest[i].0 == pre[j].0;
                assert(old[i] == rest[i]);
            } else {
                assert(all[j].0 == old.last().0);
                assert(old[old.len() - 1] == old.last());
            }
        }
    }
}

/// A key that the image `b` holds and the image `a` does not is reported as
/// added in the difference from `a` to `b`, and as removed in the difference
/// from `b` to `a`; each time exactly once, with no other line for that key.
pub proof fn lemma_added_removed_asymmetry(a: Snapshot, b: Snapshot, k: Seq<char>)
    requires
        a.wf(),
        b.wf(),
        has_key(b@, k),
        !has_key(a@, k),
    ensures
        diff_of(a@, b@).contains((k, ChangeKind::Added)),
        diff_of(b@, a@).contains((k, ChangeKind::Removed)),
        exists|x: int|
            0 <= x < diff_of(a@, b@).len() && diff_of(a@, b@)[x] == (k, ChangeKind::Added)
                && forall|j: int|
                0 <= j < diff_of(a@, b@).len() && (#[trigger] diff_of(a@, b@)[j]).0 == k ==> j
                    == x,
        exists|x: int|
            0 <= x < diff_of(b@, a@).len() && diff_of(b@, a@)[x] == (k, ChangeKind::Removed)
                && forall|j: int|
                0 <= j < diff_of(b@, a@).len() && (#[trigger] diff_of(b@, a@)[j]).0 == k ==> j
                    == x,
{
    let bs = b@;
    let i = choose|i: int| 0 <= i < bs.len() && bs[i].0 == k;
    let front = bs.subrange(0, i);
    let back = bs.subrange(i + 1, bs.len() as int);
    assert(bs =~= front + seq![bs[i]] + back);
    assert forall|q: int| 0 <= q < front.len() implies front[q].0 != k by {
        assert(front[q] == bs[q]);
    }
    assert forall|q: int| 0 <= q < back.len() implies back[q].0 != k by {
        assert(back[q] == bs[i + 1 + q]);
    }
    // from a to b
    lemma_added_split(a@, front + seq![bs[i]], back);
    lemma_added_split(a@, front, seq![bs[i]]);
    lemma_single(a@, bs[i]);
    lemma_added_keys_from(a@, front);
    lemma_added_keys_from(a@, back);
    lemma_removed_keys_from(a@, bs);
    let af = added_or_changed(a@, front);
    let ab = added_or_changed(a@, back);
    let added = added_or_changed(a@, bs);
    let at = af.len() as int;
    assert(classify_new(a@, bs[i]) == seq![(k, ChangeKind::Added)]);
    assert(added == af + seq![(k, ChangeKind::Added)] + ab);
    let d1 = diff_of(a@, bs);
    assert(d1[at] == (k, ChangeKind::Added));
    assert forall|j: int| 0 <= j < d1.len() && (#[trigger] d1[j]).0 == k implies j == at by {
        if j < at {
            assert(d1[j] == af[j]);
            let q = choose|q: int| 0 <= q < front.len() && front[q].0 == af[j].0;
        } else if at < j < added.len() {
            assert(d1[j] == ab[j - at - 1]);
            let q = choose|q: int| 0 <= q < back.len() && back[q].0 == ab[j - at - 1].0;
        } else if j >= added.len() {
            let r = removed_keys(a@, bs);
            assert(d1[j] == r[j - added.len()]);
            let q = choose|q: int| 0 <= q < a@.len() && a@[q].0 == r[j - added.len()].0;
        }
    }
    // from b to a
    lemma_removed_split(front + seq![bs[i]], back, a@);
    lemma_removed_split(front, seq![bs[i]], a@);
    lemma_removed_keys_from(front, a@);
    lemma_removed_keys_from(back, a@);
    lemma_added_keys_from(bs, a@);
    let rf = removed_keys(front, a@);
    let rb = removed_keys(back, a@);
    let removed = removed_keys(bs, a@);
    assert(classify_old(a@, bs[i]) == seq![(k, ChangeKind::Removed)]);
    assert(removed == rf + seq![(k, ChangeKind::Removed)] + rb);
    let pre = added_or_changed(bs, a@);
    let d2 = diff_of(bs, a@);
    let rt = (pre.len() + rf.len()) as int;
    assert(d2[rt] == (k, ChangeKind::Removed));
    assert forall|j: int| 0 <= j < d2.len() && (#[trigger] d2[j]).0 == k implies j == rt by {
        if j < pre.len() {
            assert(d2[j] == pre[j]);
            let q = choose|q: int| 0 <= q < a@.len() && a@[q].0 == pre[j].0;
        } else if j < rt {
            assert(d2[j] == rf[j - pre.len()]);
            let q = choose|q: int| 0 <= q < front.len() && front[q].0 == rf[j - pre.len()].0;
        } else if j > rt {
            assert(d2[j] == rb[j - rt - 1]);
            let q = choose|q: int| 0 <= q < back.len() && back[q].0 == rb[j - rt - 1].0;
        }
    }
}

} // verus!
