//! What the commands hand to the shell and take from it, as plain values:
//! the parameters a command declares, the rows it prints, the JSON documents
//! that clusters answer with, and the runtime errors it raises.

use vstd::prelude::*;
use vstd::string::StrSliceExecFns;

verus! {

/// The kind of value that a parameter takes.
#[derive(Clone, Copy, PartialEq, Eq, Structural, Debug)]
pub enum SyntaxShape {
    String,
}

/// A positional parameter that every call must supply.
#[derive(Debug, PartialEq, Eq)]
pub struct PositionalArg {
    pub name: String,
    pub shape: SyntaxShape,
    pub description: String,
}

impl View for PositionalArg {
    type V = (Seq<char>, SyntaxShape, Seq<char>);

    open spec fn view(&self) -> (Seq<char>, SyntaxShape, Seq<char>) {
        (self.name@, self.shape, self.description@)
    }
}

impl PositionalArg {
    /// A required parameter that takes a string.
    pub fn string(name: &str, description: &str) -> (a: PositionalArg)
        ensures
            a@ == (name@, SyntaxShape::String, description@),
    {
        PositionalArg {
            name: String::from_str(name),
            shape: SyntaxShape::String,
            description: String::from_str(description),
        }
    }
}

/// A parameter given by name (`--name value`), with an optional one-letter form.
#[derive(Debug, PartialEq, Eq)]
pub struct NamedArg {
    pub name: String,
    pub shape: SyntaxShape,
    pub description: String,
    pub short: Option<char>,
}

impl View for NamedArg {
    type V = (Seq<char>, SyntaxShape, Seq<char>, Option<char>);

    open spec fn view(&self) -> (Seq<char>, SyntaxShape, Seq<char>, Option<char>) {
        (self.name@, self.shape, self.description@, self.short)
    }
}

impl NamedArg {
    /// A named parameter that takes a string and has no one-letter form.
    pub fn string(name: &str, description: &str) -> (a: NamedArg)
        ensures
            a@ == (name@, SyntaxShape::String, description@, None::<char>),
    {
        NamedArg {
            name: String::from_str(name),
            shape: SyntaxShape::String,
            description: String::from_str(description),
            short: None,
        }
    }
}

/// What a command declares about how it is called.
#[derive(Debug, PartialEq, Eq)]
pub struct Signature {
    pub name: String,
    pub required: Vec<PositionalArg>,
    pub named: Vec<NamedArg>,
}

/// The abstract value of a [`Signature`].
pub struct SignatureView {
    pub name: Seq<char>,
    pub required: Seq<(Seq<char>, SyntaxShape, Seq<char>)>,
    pub named: Seq<(Seq<char>, SyntaxShape, Seq<char>, Option<char>)>,
}

impl View for Signature {
    type V = SignatureView;

    open spec fn view(&self) -> SignatureView {
        SignatureView {
            name: self.name@,
            required: self.required@.map_values(|a: PositionalArg| a@),
            named: self.named@.map_values(|a: NamedArg| a@),
        }
    }
}

/// One value shown in a row.
#[derive(Debug, PartialEq, Eq)]
pub enum Cell {
    Text(String),
    Bool(bool),
}

/// The abstract value of a [`Cell`].
pub enum CellView {
    Text(Seq<char>),
    Bool(bool),
}

impl View for Cell {
    type V = CellView;

    open spec fn view(&self) -> CellView {
        match self {
            Cell::Text(s) => CellView::Text(s@),
            Cell::Bool(b) => CellView::Bool(*b),
        }
    }
}

/// A row of named columns, in the order in which they were first set.
#[derive(Debug, PartialEq, Eq)]
pub struct Row {
    pub entries: Vec<(String, Cell)>,
}

/// Column `i` of `entries` is the first one named `key`.
pub open spec fn first_column(entries: Seq<(Seq<char>, CellView)>, key: Seq<char>, i: int) -> bool {
    &&& 0 <= i < entries.len()
    &&& entries[i].0 == key
    &&& forall|j: int| 0 <= j < i ==> (#[trigger] entries[j]).0 != key
}

/// `entries` with column `key` set to `cell`: the first column of that name
/// keeps its place if there is one, else the column is added at the end.
pub open spec fn row_insert(
    entries: Seq<(Seq<char>, CellView)>,
    key: Seq<char>,
    cell: CellView,
) -> Seq<(Seq<char>, CellView)> {
    if exists|i: int| #[trigger] first_column(entries, key, i) {
        entries.update(choose|i: int| #[trigger] first_column(entries, key, i), (key, cell))
    } else {
        entries.push((key, cell))
    }
}

impl View for Row {
    type V = Seq<(Seq<char>, CellView)>;

    open spec fn view(&self) -> Seq<(Seq<char>, CellView)> {
        self.entries@.map_values(|e: (String, Cell)| (e.0@, e.1@))
    }
}

impl Row {
    /// A row with no columns.
    pub fn new() -> (r: Row)
        ensures
            r@ == Seq::<(Seq<char>, CellView)>::empty(),
    {
        let r = Row { entries: Vec::new() };
        assert(r@ =~= Seq::<(Seq<char>, CellView)>::empty());
        r
    }

    /// Sets column `key` to `value`.
    pub fn insert(&mut self, key: &str, value: Cell)
        ensures
            final(self)@ == row_insert(old(self)@, key@, value@),
    {
        let ghost old_view = self@;
        let ghost cell = value@;
        let k = String::from_str(key);
        let n: usize = self.entries.len();
        let mut i: usize = 0;
        while i < n
            invariant
                n == self.entries@.len(),
                self@ == old_view,
                k@ == key@,
                0 <= i <= n,
                forall|j: int| 0 <= j < i ==> (#[trigger] old_view[j]).0 != key@,
            ensures
                i < n ==> old_view[i as int].0 == key@,
            decreases n - i,
        {
            if self.entries[i].0 == k {
                break;
            }
            i = i + 1;
        }
        if i < n {
            self.entries.set(i, (k, value));
            proof {
                assert(first_column(old_view, key@, i as int));
                let c = choose|j: int| #[trigger] first_column(old_view, key@, j);
                assert(c == i as int) by {
                    if c < i {
                        assert(old_view[c].0 != key@);
                    }
                    if c > i {
                        assert(old_view[i as int].0 != key@);
                    }
                }
                assert(self@ =~= old_view.update(i as int, (key@, cell)));
            }
        } else {
            self.entries.push((k, value));
            assert forall|j: int| !(#[trigger] first_column(old_view, key@, j)) by {
                if 0 <= j < old_view.len() {
                    assert(old_view[j].0 != key@);
                }
            }
            assert(self@ =~= old_view.push((key@, cell)));
        }
    }
}

/// Setting a column that `entries` does not have adds it at the end.
pub proof fn lemma_row_insert_fresh(entries: Seq<(Seq<char>, CellView)>, key: Seq<char>, cell: CellView)
    requires
        forall|i: int| 0 <= i < entries.len() ==> (#[trigger] entries[i]).0 != key,
    ensures
        row_insert(entries, key, cell) == entries.push((key, cell)),
{
    assert forall|i: int| !(#[trigger] first_column(entries, key, i)) by {
        if 0 <= i < entries.len() {
            assert(entries[i].0 != key);
        }
    }
}

/// No two columns of `entries` have the same name.
pub open spec fn columns_unique(entries: Seq<(Seq<char>, CellView)>) -> bool {
    forall|i: int, j: int|
        0 <= i < entries.len() && 0 <= j < entries.len() && i != j
            ==> (#[trigger] entries[i]).0 != (#[trigger] entries[j]).0
}

/// Building a row with distinct column names one column at a time: setting
/// the next column of `target` on its first `k` columns gives its first `k + 1`.
pub proof fn lemma_row_insert_next(target: Seq<(Seq<char>, CellView)>, k: int)
    requires
        columns_unique(target),
        0 <= k < target.len(),
    ensures
        row_insert(target.take(k), target[k].0, target[k].1) == target.take(k + 1),
{
    let prefix = target.take(k);
    assert forall|i: int| 0 <= i < prefix.len() implies (#[trigger] prefix[i]).0 != target[k].0 by {
        assert(prefix[i] == target[i]);
    }
    lemma_row_insert_fresh(prefix, target[k].0, target[k].1);
    assert(prefix.push((target[k].0, target[k].1)) =~= target.take(k + 1));
}

/// The text of an optional string, empty when there is none.
pub open spec fn text_or_empty(o: Option<String>) -> Seq<char> {
    match o {
        Some(s) => s@,
        None => Seq::empty(),
    }
}

/// The text of an optional string, empty when there is none.
pub fn unwrap_or_empty(o: Option<String>) -> (r: String)
    ensures
        r@ == text_or_empty(o),
{
    match o {
        Some(s) => s,
        None => String::new(),
    }
}

/// `a` comes before `b` in name order: the order of Rust's `String`, which
/// compares the UTF-8 bytes and so orders by code point, char by char, a
/// proper prefix coming first.
pub open spec fn text_less(a: Seq<char>, b: Seq<char>) -> bool
    decreases a.len(),
{
    if b.len() == 0 {
        false
    } else if a.len() == 0 {
        true
    } else if a[0] != b[0] {
        (a[0] as int) < (b[0] as int)
    } else {
        text_less(a.drop_first(), b.drop_first())
    }
}

/// No text comes before itself.
pub proof fn lemma_text_less_irreflexive(a: Seq<char>)
    ensures
        !text_less(a, a),
    decreases a.len(),
{
    if a.len() > 0 {
        lemma_text_less_irreflexive(a.drop_first());
    }
}

/// Of two different texts, one comes before the other.
pub proof fn lemma_text_less_total(a: Seq<char>, b: Seq<char>)
    ensures
        a != b ==> text_less(a, b) || text_less(b, a),
        !(text_less(a, b) && text_less(b, a)),
    decreases a.len(),
{
    if a.len() > 0 && b.len() > 0 {
        if a[0] == b[0] {
            lemma_text_less_total(a.drop_first(), b.drop_first());
            if a.drop_first() == b.drop_first() {
                assert forall|i: int| 0 <= i < a.len() implies a[i] == b[i] by {
                    if i > 0 {
                        assert(a[i] == a.drop_first()[i - 1]);
                        assert(b[i] == b.drop_first()[i - 1]);
                    }
                }
                assert(a =~= b);
            }
        }
    } else if a.len() == 0 && b.len() == 0 {
        assert(a =~= b);
    }
}

/// Name order is transitive.
pub proof fn lemma_text_less_transitive(a: Seq<char>, b: Seq<char>, c: Seq<char>)
    requires
        text_less(a, b),
        text_less(b, c),
    ensures
        text_less(a, c),
    decreases a.len(),
{
    if a.len() > 0 && a[0] == b[0] && b[0] == c[0] {
        lemma_text_less_transitive(a.drop_first(), b.drop_first(), c.drop_first());
    }
}

/// Name order puts a text before every longer text it begins, and otherwise
/// decides at the first char where two texts differ, by code point.
pub proof fn law_text_less_orders_by_code_point(p: Seq<char>, q: Seq<char>, x: char, y: char, a: Seq<char>, b: Seq<char>)
    ensures
        q.len() > 0 ==> text_less(p, p + q) && !text_less(p + q, p),
        (x as int) < (y as int) ==> text_less(p.push(x) + a, p.push(y) + b) && !text_less(p.push(y) + b, p.push(x) + a),
    decreases p.len(),
{
    if p.len() == 0 {
        assert(p + q =~= q);
        assert(p.push(x) + a =~= seq![x] + a);
        assert(p.push(y) + b =~= seq![y] + b);
    } else {
        law_text_less_orders_by_code_point(p.drop_first(), q, x, y, a, b);
        assert((p + q).drop_first() =~= p.drop_first() + q);
        assert((p.push(x) + a).drop_first() =~= p.drop_first().push(x) + a);
        assert((p.push(y) + b).drop_first() =~= p.drop_first().push(y) + b);
    }
}

/// Whether `a` comes before `b` in name order.
pub fn text_precedes(a: &str, b: &str) -> (r: bool)
    ensures
        r == text_less(a@, b@),
{
    let la: usize = a.unicode_len();
    let lb: usize = b.unicode_len();
    let mut i: usize = 0;
    assert(a@.skip(0) =~= a@ && b@.skip(0) =~= b@);
    while i < la && i < lb
        invariant
            la == a@.len(),
            lb == b@.len(),
            0 <= i <= la,
            i <= lb,
            text_less(a@, b@) == text_less(a@.skip(i as int), b@.skip(i as int)),
        decreases la - i,
    {
        let ca = a.get_char(i);
        let cb = b.get_char(i);
        if ca != cb {
            return (ca as u32) < (cb as u32);
        }
        proof {
            assert(a@.skip(i as int).drop_first() =~= a@.skip(i + 1));
            assert(b@.skip(i as int).drop_first() =~= b@.skip(i + 1));
        }
        i = i + 1;
    }
    i < lb
}

/// A JSON document as a cluster sent it. A number is kept as the text
/// `serde_json` prints for the number it parsed; an object lists its members.
#[derive(Debug, PartialEq, Eq)]
pub enum JsonValue {
    Null,
    Bool(bool),
    Number(String),
    Text(String),
    Array(Vec<JsonValue>),
    Object(Vec<(String, JsonValue)>),
}

/// The members of an object, each as its name's text and its value.
pub open spec fn members_view(members: Seq<(String, JsonValue)>) -> Seq<(Seq<char>, JsonValue)> {
    members.map_values(|e: (String, JsonValue)| (e.0@, e.1))
}

/// Member `i` of `members` is the first one named `key`.
pub open spec fn first_member(members: Seq<(Seq<char>, JsonValue)>, key: Seq<char>, i: int) -> bool {
    &&& 0 <= i < members.len()
    &&& members[i].0 == key
    &&& forall|j: int| 0 <= j < i ==> (#[trigger] members[j]).0 != key
}

/// The value of the first member of `members` named `key`, if there is one.
pub open spec fn member(members: Seq<(Seq<char>, JsonValue)>, key: Seq<char>) -> Option<JsonValue> {
    if exists|i: int| #[trigger] first_member(members, key, i) {
        Some(members[choose|i: int| #[trigger] first_member(members, key, i)].1)
    } else {
        None
    }
}

/// No name occurs twice among `members`.
pub open spec fn names_unique(members: Seq<(Seq<char>, JsonValue)>) -> bool {
    forall|i: int, j: int|
        0 <= i < members.len() && 0 <= j < members.len() && i != j
            ==> (#[trigger] members[i]).0 != (#[trigger] members[j]).0
}

/// Member `i` of `members` is the first whose name comes after `key` in name order.
pub open spec fn first_after(members: Seq<(Seq<char>, JsonValue)>, key: Seq<char>, i: int) -> bool {
    &&& 0 <= i < members.len()
    &&& text_less(key, members[i].0)
    &&& forall|j: int| 0 <= j < i ==> !text_less(key, (#[trigger] members[j]).0)
}

/// The names of `members` come in strictly ascending name order.
pub open spec fn names_ascending(members: Seq<(Seq<char>, JsonValue)>) -> bool {
    forall|i: int, j: int|
        0 <= i < j < members.len() ==> text_less((#[trigger] members[i]).0, (#[trigger] members[j]).0)
}

/// `members` with member `key` set to `value`, as a map ordered by name sets
/// it: the first member of that name takes the new value in its place; when
/// none has the name, the member goes before the first member whose name
/// comes after it, or at the end.
pub open spec fn with_member(
    members: Seq<(Seq<char>, JsonValue)>,
    key: Seq<char>,
    value: JsonValue,
) -> Seq<(Seq<char>, JsonValue)> {
    if exists|i: int| #[trigger] first_member(members, key, i) {
        members.update(choose|i: int| #[trigger] first_member(members, key, i), (key, value))
    } else if exists|i: int| #[trigger] first_after(members, key, i) {
        members.insert(choose|i: int| #[trigger] first_after(members, key, i), (key, value))
    } else {
        members.push((key, value))
    }
}

/// Some member of `members` has a name after `key`, so a first one has.
proof fn lemma_first_after_exists(members: Seq<(Seq<char>, JsonValue)>, key: Seq<char>, i: int)
    requires
        0 <= i < members.len(),
        text_less(key, members[i].0),
    ensures
        exists|f: int| #[trigger] first_after(members, key, f),
    decreases i,
{
    if exists|j: int| 0 <= j < i && text_less(key, (#[trigger] members[j]).0) {
        let j = choose|j: int| 0 <= j < i && text_less(key, (#[trigger] members[j]).0);
        lemma_first_after_exists(members, key, j);
    } else {
        assert(first_after(members, key, i));
    }
}

/// Setting a member keeps the names of an object in ascending name order,
/// each name once.
pub proof fn law_set_member_keeps_names_ascending(
    members: Seq<(Seq<char>, JsonValue)>,
    key: Seq<char>,
    value: JsonValue,
)
    requires
        names_ascending(members),
    ensures
        names_ascending(with_member(members, key, value)),
        names_unique(with_member(members, key, value)),
{
    let r = with_member(members, key, value);
    if exists|i: int| #[trigger] first_member(members, key, i) {
        let c = choose|i: int| #[trigger] first_member(members, key, i);
        assert forall|i: int, j: int| 0 <= i < j < r.len() implies text_less((#[trigger] r[i]).0, (#[trigger] r[j]).0) by {
            assert(r[i].0 == members[i].0);
            assert(r[j].0 == members[j].0);
        }
    } else {
        assert forall|j: int| 0 <= j < members.len() implies (#[trigger] members[j]).0 != key by {
            if members[j].0 == key {
                lemma_first_member_exists(members, key, j);
            }
        }
        if exists|i: int| #[trigger] first_after(members, key, i) {
            let p = choose|i: int| #[trigger] first_after(members, key, i);
            assert forall|j: int| 0 <= j < p implies text_less((#[trigger] members[j]).0, key) by {
                lemma_text_less_total(members[j].0, key);
            }
            assert forall|j: int| p <= j < members.len() implies text_less(key, (#[trigger] members[j]).0) by {
                if j > p {
                    lemma_text_less_transitive(key, members[p].0, members[j].0);
                }
            }
            assert forall|i: int, j: int| 0 <= i < j < r.len() implies text_less((#[trigger] r[i]).0, (#[trigger] r[j]).0) by {
                if j < p {
                    assert(r[i] == members[i] && r[j] == members[j]);
                } else if j == p {
                    assert(r[i] == members[i]);
                } else if i < p {
                    assert(r[i] == members[i] && r[j] == members[j - 1]);
                    if j - 1 >= p {
                        lemma_text_less_transitive(members[i].0, key, members[j - 1].0);
                    }
                } else if i == p {
                    assert(r[j] == members[j - 1]);
                } else {
                    assert(r[i] == members[i - 1] && r[j] == members[j - 1]);
                }
            }
        } else {
            assert forall|j: int| 0 <= j < members.len() implies text_less((#[trigger] members[j]).0, key) by {
                lemma_text_less_total(members[j].0, key);
                if text_less(key, members[j].0) {
                    lemma_first_after_exists(members, key, j);
                }
            }
            assert forall|i: int, j: int| 0 <= i < j < r.len() implies text_less((#[trigger] r[i]).0, (#[trigger] r[j]).0) by {
                if j < members.len() {
                    assert(r[i] == members[i] && r[j] == members[j]);
                } else {
                    assert(r[i] == members[i]);
                }
            }
        }
    }
    assert forall|i: int, j: int| 0 <= i < r.len() && 0 <= j < r.len() && i != j
        implies (#[trigger] r[i]).0 != (#[trigger] r[j]).0 by {
        if i < j {
            lemma_text_less_irreflexive(r[i].0);
        } else {
            lemma_text_less_irreflexive(r[j].0);
        }
    }
}

/// `member` finds the first member named `key` when there is one, and nothing
/// when no member is named `key`.
pub proof fn lemma_member(members: Seq<(Seq<char>, JsonValue)>, key: Seq<char>)
    ensures
        forall|i: int| #[trigger] first_member(members, key, i) ==> member(members, key) == Some(members[i].1),
        (forall|i: int| 0 <= i < members.len() ==> (#[trigger] members[i]).0 != key)
            ==> member(members, key) is None,
{
    assert forall|i: int| #[trigger] first_member(members, key, i) implies member(members, key) == Some(members[i].1) by {
        let c = choose|c: int| #[trigger] first_member(members, key, c);
        if c < i {
            assert(members[c].0 != key);
        }
        if c > i {
            assert(members[i].0 != key);
        }
    }
    if forall|i: int| 0 <= i < members.len() ==> (#[trigger] members[i]).0 != key {
        assert forall|i: int| !(#[trigger] first_member(members, key, i)) by {
            if 0 <= i < members.len() {
                assert(members[i].0 != key);
            }
        }
    }
}

/// Some member of `members` is named `key`, so a first one is.
proof fn lemma_first_member_exists(members: Seq<(Seq<char>, JsonValue)>, key: Seq<char>, i: int)
    requires
        0 <= i < members.len(),
        members[i].0 == key,
    ensures
        exists|f: int| #[trigger] first_member(members, key, f),
    decreases i,
{
    if exists|j: int| 0 <= j < i && (#[trigger] members[j]).0 == key {
        let j = choose|j: int| 0 <= j < i && (#[trigger] members[j]).0 == key;
        lemma_first_member_exists(members, key, j);
    } else {
        assert(first_member(members, key, i));
    }
}

/// The position of the first member of `members` named `key`, if there is one.
pub fn find_member(members: &Vec<(String, JsonValue)>, key: &str) -> (r: Option<usize>)
    ensures
        match r {
            Some(i) => first_member(members_view(members@), key@, i as int)
                && member(members_view(members@), key@) == Some(members@[i as int].1),
            None => member(members_view(members@), key@) is None,
        },
{
    let ghost mv = members_view(members@);
    let name = String::from_str(key);
    let n: usize = members.len();
    let mut i: usize = 0;
    while i < n
        invariant
            n == members@.len(),
            mv == members_view(members@),
            name@ == key@,
            0 <= i <= n,
            forall|j: int| 0 <= j < i ==> (#[trigger] mv[j]).0 != key@,
        decreases n - i,
    {
        if members[i].0 == name {
            proof {
                assert(first_member(mv, key@, i as int));
                lemma_member(mv, key@);
            }
            return Some(i);
        }
        i = i + 1;
    }
    proof {
        lemma_member(mv, key@);
    }
    None
}

/// Sets the member named `key` to `value`, as a map ordered by name does: the
/// first member of that name takes the new value; when none has the name, the
/// member goes before the first member whose name comes after it, or at the end.
pub fn set_member(members: &mut Vec<(String, JsonValue)>, key: &str, value: JsonValue)
    ensures
        members_view(final(members)@) == with_member(members_view(old(members)@), key@, value),
        member(members_view(final(members)@), key@) == Some(value),
        names_ascending(members_view(old(members)@)) ==> names_ascending(members_view(final(members)@))
            && names_unique(members_view(final(members)@)),
{
    let ghost old_m = members_view(members@);
    let ghost v = value;
    let name = String::from_str(key);
    let n: usize = members.len();
    match find_member(members, key) {
        Some(i) => {
            members.set(i, (name, value));
            proof {
                let m = members_view(members@);
                let c = choose|c: int| #[trigger] first_member(old_m, key@, c);
                assert(c == i as int) by {
                    if c < i {
                        assert(old_m[c].0 != key@);
                    }
                    if c > i {
                        assert(old_m[i as int].0 != key@);
                    }
                }
                assert(m =~= old_m.update(i as int, (key@, v)));
                assert(first_member(m, key@, i as int));
                lemma_member(m, key@);
            }
        },
        None => {
            proof {
                lemma_member(old_m, key@);
                assert forall|j: int| 0 <= j < old_m.len() implies (#[trigger] old_m[j]).0 != key@ by {
                    if old_m[j].0 == key@ {
                        lemma_first_member_exists(old_m, key@, j);
                    }
                }
                assert(!exists|i: int| #[trigger] first_member(old_m, key@, i));
            }
            let mut p: usize = 0;
            while p < n
                invariant
                    n == members@.len(),
                    members_view(members@) == old_m,
                    0 <= p <= n,
                    forall|j: int| 0 <= j < p ==> !text_less(key@, (#[trigger] old_m[j]).0),
                ensures
                    p < n ==> text_less(key@, old_m[p as int].0),
                decreases n - p,
            {
                if text_precedes(key, members[p].0.as_str()) {
                    break;
                }
                p = p + 1;
            }
            proof {
                if p < n {
                    assert(first_after(old_m, key@, p as int));
                    let c = choose|c: int| #[trigger] first_after(old_m, key@, c);
                    assert(c == p as int) by {
                        if c < p {
                            assert(!text_less(key@, old_m[c].0));
                        }
                        if c > p {
                            assert(!text_less(key@, old_m[p as int].0));
                        }
                    }
                } else {
                    assert forall|j: int| !(#[trigger] first_after(old_m, key@, j)) by {
                        if 0 <= j < old_m.len() {
                            assert(!text_less(key@, old_m[j].0));
                        }
                    }
                }
            }
            if p < n {
                members.insert(p, (name, value));
                assert(members_view(members@) =~= old_m.insert(p as int, (key@, v)));
            } else {
                members.push((name, value));
                assert(members_view(members@) =~= old_m.push((key@, v)));
            }
            proof {
                let m = members_view(members@);
                assert(m[p as int].0 == key@);
                assert forall|j: int| 0 <= j < p implies (#[trigger] m[j]).0 != key@ by {
                    assert(m[j] == old_m[j]);
                }
                assert(first_member(m, key@, p as int));
                lemma_member(m, key@);
            }
        },
    }
    proof {
        if names_ascending(old_m) {
            law_set_member_keeps_names_ascending(old_m, key@, v);
        }
    }
}

/// A sweep over the clusters a command addresses, one at a time, in order.
pub struct Sweep {
    identifiers: Vec<String>,
    next: usize,
}

impl Sweep {
    #[verifier::type_invariant]
    closed spec fn inv(self) -> bool {
        self.next <= self.identifiers@.len()
    }

    /// The identifiers of the clusters, in the order in which they are visited.
    pub closed spec fn ids(self) -> Seq<Seq<char>> {
        self.identifiers@.map_values(|s: String| s@)
    }

    /// How many clusters have been dealt with.
    pub closed spec fn pos(self) -> int {
        if self.next <= self.identifiers@.len() {
            self.next as int
        } else {
            self.identifiers@.len() as int
        }
    }

    /// Every cluster has been dealt with.
    pub open spec fn finished(self) -> bool {
        self.pos() == self.ids().len()
    }

    /// A sweep is never past its last cluster.
    pub proof fn lemma_pos_bounds(self)
        ensures
            0 <= self.pos() <= self.ids().len(),
    {
    }

    /// A sweep that has dealt with none of `identifiers` yet.
    pub fn new(identifiers: Vec<String>) -> (s: Sweep)
        ensures
            s.ids() == identifiers@.map_values(|i: String| i@),
            s.pos() == 0,
    {
        Sweep { identifiers, next: 0 }
    }

    /// The cluster to deal with next, if any is left.
    pub fn current(&self) -> (r: Option<&String>)
        ensures
            0 <= self.pos() <= self.ids().len(),
            match r {
                Some(id) => self.pos() < self.ids().len() && id@ == self.ids()[self.pos()],
                None => self.pos() == self.ids().len(),
            },
    {
        proof {
            use_type_invariant(self);
        }
        if self.next < self.identifiers.len() {
            Some(&self.identifiers[self.next])
        } else {
            None
        }
    }

    /// Marks the current cluster as dealt with.
    pub fn advance(&mut self)
        ensures
            final(self).ids() == old(self).ids(),
            0 <= final(self).pos() <= final(self).ids().len(),
            final(self).pos() == if old(self).finished() { old(self).pos() } else { old(self).pos() + 1 },
    {
        proof {
            use_type_invariant(&*self);
        }
        if self.next < self.identifiers.len() {
            self.next = self.next + 1;
        }
    }
}

/// A parsed JSON document as `serde_json` holds it.
#[verifier::external_type_specification]
#[verifier::external_body]
pub struct ExSerdeJsonValue(serde_json::Value);

/// What `serde_json::from_str::<serde_json::Value>` makes of `text`: the
/// document, or the error's `Debug` rendering.
pub uninterp spec fn json_parse(text: Seq<char>) -> Result<JsonValue, Seq<char>>;

/// What `serde_json::from_str::<serde_json::Map<String, serde_json::Value>>`
/// makes of `text`: the members of the object, or the error's `Debug` rendering.
pub uninterp spec fn json_parse_object(text: Seq<char>) -> Result<Seq<(Seq<char>, JsonValue)>, Seq<char>>;

/// Turns a `serde_json` document into the library's, variant by variant; a
/// number keeps the text `serde_json` prints for it.
#[verifier::external_body]
fn json_from_value(v: serde_json::Value) -> JsonValue {
    match v {
        serde_json::Value::Null => JsonValue::Null,
        serde_json::Value::Bool(b) => JsonValue::Bool(b),
        serde_json::Value::Number(n) => JsonValue::Number(n.to_string()),
        serde_json::Value::String(s) => JsonValue::Text(s),
        serde_json::Value::Array(a) => JsonValue::Array(a.into_iter().map(json_from_value).collect()),
        serde_json::Value::Object(m) => JsonValue::Object(m.into_iter().map(|(k, v)| (k, json_from_value(v))).collect()),
    }
}

/// Calls `serde_json::from_str::<serde_json::Value>(text)`. The result
/// depends on the text alone, so the contract names it; an error is given by
/// its `Debug` rendering, the text the shell's conversion of a `serde_json`
/// error into a runtime error uses as its reason.
#[verifier::external_body]
pub fn parse_json(text: &str) -> (r: Result<JsonValue, String>)
    ensures
        match r {
            Ok(v) => json_parse(text@) == Ok::<JsonValue, Seq<char>>(v),
            Err(m) => json_parse(text@) == Err::<JsonValue, Seq<char>>(m@),
        },
{
    match serde_json::from_str::<serde_json::Value>(text) {
        Ok(v) => Ok(json_from_value(v)),
        Err(e) => Err(format!("{:?}", e)),
    }
}

/// Calls `serde_json::from_str::<serde_json::Map<String, serde_json::Value>>(text)`,
/// which accepts only an object. The result depends on the text alone, so the
/// contract names it; an error is given by its `Debug` rendering, as for
/// [`parse_json`]. The map is a `BTreeMap<String, Value>`, so its members come
/// out in ascending `String` order, each name once; the contract states that.
#[verifier::external_body]
pub fn parse_json_object(text: &str) -> (r: Result<Vec<(String, JsonValue)>, String>)
    ensures
        match r {
            Ok(m) => {
                &&& json_parse_object(text@) == Ok::<Seq<(Seq<char>, JsonValue)>, Seq<char>>(members_view(m@))
                &&& names_ascending(members_view(m@))
                &&& names_unique(members_view(m@))
            },
            Err(e) => json_parse_object(text@) == Err::<Seq<(Seq<char>, JsonValue)>, Seq<char>>(e@),
        },
{
    match serde_json::from_str::<serde_json::Map<String, serde_json::Value>>(text) {
        Ok(m) => Ok(m.into_iter().map(|(k, v)| (k, json_from_value(v))).collect()),
        Err(e) => Err(format!("{:?}", e)),
    }
}

/// A runtime error raised by a command, with the reason it gives.
#[derive(Debug, PartialEq, Eq)]
pub struct CommandError {
    pub reason: String,
}

/// The text under which the shell displays a runtime error with this reason.
pub open spec fn runtime_error_display(reason: Seq<char>) -> Seq<char> {
    "Unknown Error("@ + reason + ")"@
}

/// Calls `nu_errors::ShellError::untagged_runtime_error(reason)` and renders
/// the error with its `Display` impl. That impl prints the document `Unknown
/// Error` followed by the reason in round brackets, through a pretty printer
/// that writes text verbatim and without colour; the contract states that text.
#[verifier::external_body]
fn runtime_error_text(reason: &str) -> (text: String)
    ensures
        text@ == runtime_error_display(reason@),
{
    nu_errors::ShellError::untagged_runtime_error(reason).to_string()
}

impl CommandError {
    /// A runtime error with the given reason.
    pub fn runtime(reason: &str) -> (e: CommandError)
        ensures
            e.reason@ == reason@,
    {
        CommandError { reason: String::from_str(reason) }
    }

    /// The error raised for a response the command did not expect: its reason
    /// is `Unexpected: ` followed by `title`.
    pub fn unexpected(title: &str) -> (e: CommandError)
        ensures
            e.reason@ == "Unexpected: "@ + title@,
    {
        let reason = String::from_str("Unexpected: ").concat(title);
        CommandError { reason }
    }

    /// The text under which the shell displays this error.
    pub fn display_text(&self) -> (text: String)
        ensures
            text@ == runtime_error_display(self.reason@),
    {
        runtime_error_text(self.reason.as_str())
    }
}

} // verus!
