//! Variable scopes: which value a variable has, and how scripts change it.

use vstd::prelude::*;
use crate::http::{KeyValue, KeyValueModel, text_row};
use crate::lookup::{NamedModel, Named, position, lemma_position, lemma_is_position, find};
use crate::scripting::{ScriptResult, SideEffect, SideEffectModel, VarScope};
use crate::text::{chars_of, is_blank, same, trim, trimmed};

verus! {

/// Whether `a` comes before `b` in the order of code points.
pub open spec fn text_before(a: Seq<char>, b: Seq<char>) -> bool
    decreases a.len(),
{
    if b.len() == 0 {
        false
    } else if a.len() == 0 {
        true
    } else if a[0] != b[0] {
        a[0] < b[0]
    } else {
        text_before(a.drop_first(), b.drop_first())
    }
}

/// The order of texts is total.
pub proof fn lemma_text_order_total(a: Seq<char>, b: Seq<char>)
    requires
        a != b,
    ensures
        text_before(a, b) || text_before(b, a),
    decreases a.len(),
{
    if a.len() > 0 && b.len() > 0 && a[0] == b[0] {
        if a.drop_first() == b.drop_first() {
            assert(a =~= seq![a[0]] + a.drop_first());
            assert(b =~= seq![b[0]] + b.drop_first());
        }
        lemma_text_order_total(a.drop_first(), b.drop_first());
    } else if a.len() == 0 && b.len() == 0 {
        assert(a =~= b);
    }
}

/// No text comes before itself, and two texts are not before each other.
pub proof fn lemma_text_order_strict(a: Seq<char>, b: Seq<char>)
    ensures
        !(text_before(a, b) && text_before(b, a)),
        !text_before(a, a),
    decreases a.len(),
{
    if a.len() > 0 {
        if b.len() > 0 {
            lemma_text_order_strict(a.drop_first(), b.drop_first());
        } else {
            lemma_text_order_strict(a.drop_first(), b);
        }
    }
}

/// The order of texts is transitive.
pub proof fn lemma_text_order_transitive(a: Seq<char>, b: Seq<char>, c: Seq<char>)
    requires
        text_before(a, b),
        text_before(b, c),
    ensures
        text_before(a, c),
    decreases a.len(),
{
    if a.len() > 0 && a[0] == b[0] && b[0] == c[0] {
        lemma_text_order_transitive(a.drop_first(), b.drop_first(), c.drop_first());
    }
}

/// Whether `a` comes before `b` in the order of code points.
fn comes_before(a: &str, b: &str) -> (r: bool)
    ensures
        r == text_before(a@, b@),
{
    let x = chars_of(a);
    let y = chars_of(b);
    let mut i: usize = 0;
    assert(x@.skip(0) =~= a@);
    assert(y@.skip(0) =~= b@);
    while i < x.len() && i < y.len() && x[i] == y[i]
        invariant
            i <= x.len(),
            i <= y.len(),
            text_before(x@.skip(i as int), y@.skip(i as int)) == text_before(a@, b@),
        decreases x.len() - i,
    {
        assert(x@.skip(i as int).drop_first() =~= x@.skip(i + 1));
        assert(y@.skip(i as int).drop_first() =~= y@.skip(i + 1));
        i = i + 1;
    }
    if i >= y.len() {
        false
    } else if i >= x.len() {
        true
    } else {
        x[i] < y[i]
    }
}

/// One variable and its value.
#[derive(Debug)]
pub struct Variable {
    pub name: String,
    pub value: String,
}

/// Variables by name. They are kept in the order of their names, each name once.
#[derive(Debug)]
pub struct VariableMap {
    entries: Vec<Variable>,
}

/// Whether names are in strictly increasing order.
pub open spec fn in_name_order(entries: Seq<Variable>) -> bool {
    forall|i: int, j: int|
        0 <= i < j < entries.len() ==> text_before(
            (#[trigger] entries[i]).name@,
            (#[trigger] entries[j]).name@,
        )
}

/// The entries as a map from names to values.
pub open spec fn entry_map(entries: Seq<Variable>) -> Map<Seq<char>, Seq<char>> {
    Map::new(
        |name: Seq<char>| exists|i: int| 0 <= i < entries.len() && (#[trigger] entries[i]).name@ == name,
        |name: Seq<char>|
            entries[choose|i: int| 0 <= i < entries.len() && (#[trigger] entries[i]).name@ == name].value@,
    )
}

/// An entry's name maps to its value.
proof fn lemma_entry(entries: Seq<Variable>, i: int)
    requires
        in_name_order(entries),
        0 <= i < entries.len(),
    ensures
        entry_map(entries).contains_key(entries[i].name@),
        entry_map(entries)[entries[i].name@] == entries[i].value@,
{
    let name = entries[i].name@;
    let k = choose|k: int| 0 <= k < entries.len() && (#[trigger] entries[k]).name@ == name;
    lemma_text_order_strict(name, name);
    assert(k == i);
}

impl VariableMap {
    #[verifier::type_invariant]
    spec fn ordered(self) -> bool {
        in_name_order(self.entries@)
    }

    /// The variables as a map from names to values.
    pub closed spec fn map(self) -> Map<Seq<char>, Seq<char>> {
        entry_map(self.entries@)
    }

    /// No variables.
    pub fn new() -> (r: VariableMap)
        ensures
            r.map() == Map::<Seq<char>, Seq<char>>::empty(),
    {
        let r = VariableMap { entries: Vec::new() };
        assert(r.map() =~= Map::<Seq<char>, Seq<char>>::empty());
        r
    }

    /// The variables in the order of their names.
    pub fn entries(&self) -> (r: &Vec<Variable>)
        ensures
            in_name_order(r@),
            entry_map(r@) == self.map(),
    {
        proof {
            use_type_invariant(self);
        }
        &self.entries
    }

    /// Gives `name` the value `value`, in place of any value it had.
    pub fn insert(&mut self, name: String, value: String)
        ensures
            final(self).map() == old(self).map().insert(name@, value@),
    {
        proof {
            use_type_invariant(&*self);
        }
        let ghost before = self.entries@;
        let mut entries: Vec<Variable> = Vec::new();
        std::mem::swap(&mut entries, &mut self.entries);
        let n = entries.len();
        let mut at: usize = 0;
        while at < n && comes_before(entries[at].name.as_str(), name.as_str())
            invariant
                entries@ == before,
                n == before.len(),
                at <= n,
                forall|k: int| 0 <= k < at ==> text_before((#[trigger] before[k]).name@, name@),
            decreases n - at,
        {
            at = at + 1;
        }
        let ghost key = name@;
        let ghost val = value@;
        if at < n && entries[at].name == name {
            entries[at].value = value;
            proof {
                let after = entries@;
                assert forall|i: int, j: int| 0 <= i < j < after.len() implies text_before(
                    (#[trigger] after[i]).name@,
                    (#[trigger] after[j]).name@,
                ) by {
                    assert(after[i].name == before[i].name);
                    assert(after[j].name == before[j].name);
                }
                assert forall|k: Seq<char>| entry_map(before).insert(key, val).contains_key(k)
                    == entry_map(after).contains_key(k) by {
                    if entry_map(before).contains_key(k) {
                        let i = choose|i: int|
                            0 <= i < before.len() && (#[trigger] before[i]).name@ == k;
                        assert(after[i].name@ == k);
                    }
                    if entry_map(after).contains_key(k) {
                        let i = choose|i: int|
                            0 <= i < after.len() && (#[trigger] after[i]).name@ == k;
                        assert(before[i].name@ == k);
                    }
                    assert(after[at as int].name@ == key);
                }
                assert forall|k: Seq<char>| #[trigger]
                    entry_map(after).contains_key(k) implies entry_map(after)[k] == entry_map(
                    before,
                ).insert(key, val)[k] by {
                    let i = choose|i: int| 0 <= i < after.len() && (#[trigger] after[i]).name@ == k;
                    lemma_entry(after, i);
                    lemma_entry(before, i);
                    if k == key {
                        lemma_entry(after, at as int);
                    } else {
                        assert(i != at);
                    }
                }
                assert(entry_map(after) =~= entry_map(before).insert(key, val));
            }
        } else {
            let entry = Variable { name, value };
            entries.insert(at, entry);
            proof {
                let after = entries@;
                if at < n {
                    lemma_text_order_total(before[at as int].name@, key);
                }
                assert forall|i: int, j: int| 0 <= i < j < after.len() implies text_before(
                    (#[trigger] after[i]).name@,
                    (#[trigger] after[j]).name@,
                ) by {
                    if j < at {
                        assert(after[i] == before[i] && after[j] == before[j]);
                    } else if j == at {
                        assert(after[i] == before[i]);
                    } else if i == at {
                        assert(after[j] == before[j - 1]);
                        if j - 1 > at {
                            lemma_text_order_transitive(
                                key,
                                before[at as int].name@,
                                before[j - 1].name@,
                            );
                        }
                    } else if i < at {
                        assert(after[i] == before[i] && after[j] == before[j - 1]);
                    } else {
                        assert(after[i] == before[i - 1] && after[j] == before[j - 1]);
                    }
                }
                assert forall|k: Seq<char>| entry_map(before).insert(key, val).contains_key(k)
                    == entry_map(after).contains_key(k) by {
                    if entry_map(before).contains_key(k) {
                        let i = choose|i: int|
                            0 <= i < before.len() && (#[trigger] before[i]).name@ == k;
                        if i < at {
                            assert(after[i].name@ == k);
                        } else {
                            assert(after[i + 1].name@ == k);
                        }
                    }
                    if entry_map(after).contains_key(k) {
                        let i = choose|i: int|
                            0 <= i < after.len() && (#[trigger] after[i]).name@ == k;
                        if i < at {
                            assert(before[i].name@ == k);
                        } else if i > at {
                            assert(before[i - 1].name@ == k);
                        }
                    }
                    assert(after[at as int].name@ == key);
                }
                assert forall|k: Seq<char>| #[trigger]
                    entry_map(after).contains_key(k) implies entry_map(after)[k] == entry_map(
                    before,
                ).insert(key, val)[k] by {
                    let i = choose|i: int| 0 <= i < after.len() && (#[trigger] after[i]).name@ == k;
                    lemma_entry(after, i);
                    lemma_entry(after, at as int);
                    if i < at {
                        lemma_entry(before, i);
                        lemma_text_order_strict(k, k);
                    } else if i > at {
                        lemma_entry(before, i - 1);
                        lemma_text_order_strict(k, k);
                    }
                }
                assert(entry_map(after) =~= entry_map(before).insert(key, val));
            }
        }
        self.entries = entries;
    }

    /// The value of `name`.
    pub fn get(&self, name: &str) -> (r: Option<&String>)
        ensures
            match r {
                Some(v) => self.map().contains_key(name@) && v@ == self.map()[name@],
                None => !self.map().contains_key(name@),
            },
    {
        proof {
            use_type_invariant(self);
        }
        let mut i: usize = 0;
        while i < self.entries.len()
            invariant
                in_name_order(self.entries@),
                i <= self.entries.len(),
                forall|k: int| 0 <= k < i ==> (#[trigger] self.entries@[k]).name@ != name@,
            decreases self.entries.len() - i,
        {
            if same(self.entries[i].name.as_str(), name) {
                proof {
                    lemma_entry(self.entries@, i as int);
                }
                return Some(&self.entries[i].value);
            }
            i = i + 1;
        }
        None
    }

    /// Whether `name` has a value.
    pub fn contains_key(&self, name: &str) -> (b: bool)
        ensures
            b == self.map().contains_key(name@),
    {
        self.get(name).is_some()
    }
}

/// Whether a row gives a variable a value: it is enabled and its key is not blank.
pub open spec fn sets_variable(row: KeyValueModel) -> bool {
    row.enabled && trimmed(row.key).len() > 0
}

/// `vars` after the rows of a scope, first row first.
pub open spec fn with_rows(
    vars: Map<Seq<char>, Seq<char>>,
    rows: Seq<KeyValueModel>,
) -> Map<Seq<char>, Seq<char>>
    decreases rows.len(),
{
    if rows.len() == 0 {
        vars
    } else {
        let before = with_rows(vars, rows.drop_last());
        let row = rows.last();
        if sets_variable(row) {
            before.insert(trimmed(row.key), row.value)
        } else {
            before
        }
    }
}

/// The rows of several scopes, first scope first.
pub open spec fn all_rows(scopes: Seq<Seq<KeyValueModel>>) -> Seq<KeyValueModel>
    decreases scopes.len(),
{
    if scopes.len() == 0 {
        Seq::empty()
    } else {
        all_rows(scopes.drop_last()) + scopes.last()
    }
}

/// The variables that hold for a request: its own rows over its path variables,
/// those over its folders from the innermost outwards, those over the
/// environment and the global variables.
pub open spec fn merged_scopes(
    globals: Seq<KeyValueModel>,
    environment: Seq<KeyValueModel>,
    folders: Seq<Seq<KeyValueModel>>,
    path: Seq<KeyValueModel>,
    request: Seq<KeyValueModel>,
) -> Map<Seq<char>, Seq<char>> {
    with_rows(
        Map::empty(),
        globals + environment + all_rows(folders) + path + request,
    )
}

/// Adds the variables that the rows of a scope set.
pub fn insert_enabled_variables(vars: &mut VariableMap, rows: &[KeyValue])
    ensures
        final(vars).map() == with_rows(old(vars).map(), rows.deep_view()),
{
    let ghost model = rows.deep_view();
    let ghost before = vars.map();
    let mut i: usize = 0;
    assert(model.take(0) =~= Seq::<KeyValueModel>::empty());
    while i < rows.len()
        invariant
            model == rows.deep_view(),
            i <= rows.len(),
            vars.map() == with_rows(before, model.take(i as int)),
        decreases rows.len() - i,
    {
        let row = &rows[i];
        assert(model[i as int] == row.deep_view());
        assert(model.take(i + 1).drop_last() =~= model.take(i as int));
        assert(model.take(i + 1).last() == row.deep_view());
        if row.enabled && !is_blank(row.key.as_str()) {
            vars.insert(trim(row.key.as_str()).to_owned(), row.value.clone());
        }
        i = i + 1;
    }
    assert(model.take(model.len() as int) =~= model);
}

/// The variables that hold for a request, of all its scopes.
pub fn merge_variable_scopes(
    globals: &[KeyValue],
    environment: &[KeyValue],
    folders: &[&[KeyValue]],
    path: &[KeyValue],
    request: &[KeyValue],
) -> (r: VariableMap)
    ensures
        r.map() == merged_scopes(
            globals.deep_view(),
            environment.deep_view(),
            folders.deep_view(),
            path.deep_view(),
            request.deep_view(),
        ),
{
    let mut vars = VariableMap::new();
    let ghost none = Map::<Seq<char>, Seq<char>>::empty();
    let ghost g = globals.deep_view();
    let ghost e = environment.deep_view();
    let ghost f = folders.deep_view();
    insert_enabled_variables(&mut vars, globals);
    insert_enabled_variables(&mut vars, environment);
    proof {
        lemma_rows_in_turn(none, g, e);
    }
    let ghost base = g + e;
    let mut i: usize = 0;
    assert(f.take(0) =~= Seq::<Seq<KeyValueModel>>::empty());
    assert(base + all_rows(f.take(0)) =~= base);
    while i < folders.len()
        invariant
            f == folders.deep_view(),
            none == Map::<Seq<char>, Seq<char>>::empty(),
            i <= folders.len(),
            vars.map() == with_rows(none, base + all_rows(f.take(i as int))),
        decreases folders.len() - i,
    {
        insert_enabled_variables(&mut vars, folders[i]);
        proof {
            let now = base + all_rows(f.take(i as int));
            assert(f[i as int] == folders@[i as int].deep_view());
            assert(f.take(i + 1).drop_last() =~= f.take(i as int));
            assert(f.take(i + 1).last() == f[i as int]);
            lemma_rows_in_turn(none, now, f[i as int]);
            assert(now + f[i as int] =~= base + all_rows(f.take(i + 1)));
        }
        i = i + 1;
    }
    assert(f.take(f.len() as int) =~= f);
    insert_enabled_variables(&mut vars, path);
    insert_enabled_variables(&mut vars, request);
    proof {
        let upper = base + all_rows(f);
        lemma_rows_in_turn(none, upper, path.deep_view());
        lemma_rows_in_turn(none, upper + path.deep_view(), request.deep_view());
    }
    vars
}

/// Two scopes taken in turn are one scope of all their rows.
pub proof fn lemma_rows_in_turn(
    vars: Map<Seq<char>, Seq<char>>,
    first: Seq<KeyValueModel>,
    second: Seq<KeyValueModel>,
)
    ensures
        with_rows(with_rows(vars, first), second) == with_rows(vars, first + second),
    decreases second.len(),
{
    if second.len() == 0 {
        assert(first + second =~= first);
    } else {
        lemma_rows_in_turn(vars, first, second.drop_last());
        assert((first + second).drop_last() =~= first + second.drop_last());
        assert((first + second).last() == second.last());
    }
}

/// The value that a scope gives to `name`: that of its last row for it.
pub open spec fn value_in(rows: Seq<KeyValueModel>, name: Seq<char>) -> Option<Seq<char>>
    decreases rows.len(),
{
    if rows.len() == 0 {
        None
    } else if sets_variable(rows.last()) && trimmed(rows.last().key) == name {
        Some(rows.last().value)
    } else {
        value_in(rows.drop_last(), name)
    }
}

/// The value that nested scopes give to `name`: that of the last scope with one.
pub open spec fn value_in_scopes(
    scopes: Seq<Seq<KeyValueModel>>,
    name: Seq<char>,
) -> Option<Seq<char>>
    decreases scopes.len(),
{
    if scopes.len() == 0 {
        None
    } else if value_in(scopes.last(), name) is Some {
        value_in(scopes.last(), name)
    } else {
        value_in_scopes(scopes.drop_last(), name)
    }
}

/// A scope's rows set `name` to [`value_in`] and keep the value of every name that
/// they do not set.
pub proof fn lemma_rows_set(
    vars: Map<Seq<char>, Seq<char>>,
    rows: Seq<KeyValueModel>,
    name: Seq<char>,
)
    ensures
        match value_in(rows, name) {
            Some(v) => with_rows(vars, rows).contains_key(name) && with_rows(vars, rows)[name] == v,
            None => {
                &&& with_rows(vars, rows).contains_key(name) == vars.contains_key(name)
                &&& vars.contains_key(name) ==> with_rows(vars, rows)[name] == vars[name]
            },
        },
    decreases rows.len(),
{
    if rows.len() > 0 {
        lemma_rows_set(vars, rows.drop_last(), name);
    }
}

proof fn lemma_scopes_set(
    vars: Map<Seq<char>, Seq<char>>,
    scopes: Seq<Seq<KeyValueModel>>,
    name: Seq<char>,
)
    ensures
        match value_in_scopes(scopes, name) {
            Some(v) => {
                &&& with_rows(vars, all_rows(scopes)).contains_key(name)
                &&& with_rows(vars, all_rows(scopes))[name] == v
            },
            None => {
                &&& with_rows(vars, all_rows(scopes)).contains_key(name) == vars.contains_key(name)
                &&& vars.contains_key(name) ==> with_rows(vars, all_rows(scopes))[name] == vars[name]
            },
        },
    decreases scopes.len(),
{
    if scopes.len() > 0 {
        let outer = all_rows(scopes.drop_last());
        lemma_scopes_set(vars, scopes.drop_last(), name);
        lemma_rows_in_turn(vars, outer, scopes.last());
        lemma_rows_set(with_rows(vars, outer), scopes.last(), name);
    }
}

/// Precedence of scopes: a variable has the value of the request's own rows; of
/// its path variables where those do not set it; else of the innermost folder that
/// sets it; else of the environment; else of the global variables. It has none
/// where no scope sets it.
pub proof fn law_scope_precedence(
    globals: Seq<KeyValueModel>,
    environment: Seq<KeyValueModel>,
    folders: Seq<Seq<KeyValueModel>>,
    path: Seq<KeyValueModel>,
    request: Seq<KeyValueModel>,
    name: Seq<char>,
)
    ensures
        ({
            let vars = merged_scopes(globals, environment, folders, path, request);
            let value = if value_in(request, name) is Some {
                value_in(request, name)
            } else if value_in(path, name) is Some {
                value_in(path, name)
            } else if value_in_scopes(folders, name) is Some {
                value_in_scopes(folders, name)
            } else if value_in(environment, name) is Some {
                value_in(environment, name)
            } else {
                value_in(globals, name)
            };
            &&& vars.contains_key(name) == (value is Some)
            &&& value is Some ==> vars[name] == value->0
        }),
{
    let none = Map::<Seq<char>, Seq<char>>::empty();
    let inner = all_rows(folders);
    let upto_environment = with_rows(with_rows(none, globals), environment);
    let upto_folders = with_rows(upto_environment, inner);
    let upto_path = with_rows(upto_folders, path);
    lemma_rows_set(none, globals, name);
    lemma_rows_set(with_rows(none, globals), environment, name);
    lemma_scopes_set(upto_environment, folders, name);
    lemma_rows_set(upto_folders, path, name);
    lemma_rows_set(upto_path, request, name);
    lemma_rows_in_turn(none, globals, environment);
    lemma_rows_in_turn(none, globals + environment, inner);
    lemma_rows_in_turn(none, globals + environment + inner, path);
    lemma_rows_in_turn(none, globals + environment + inner + path, request);
}

/// Rows that are disabled or whose key is blank have no effect: without them the
/// variables are the same.
pub proof fn law_inactive_rows_are_ignored(
    vars: Map<Seq<char>, Seq<char>>,
    rows: Seq<KeyValueModel>,
)
    ensures
        with_rows(vars, rows) == with_rows(vars, rows.filter(|row: KeyValueModel| sets_variable(row))),
    decreases rows.len(),
{
    reveal(Seq::filter);
    let active = |row: KeyValueModel| sets_variable(row);
    if rows.len() > 0 {
        law_inactive_rows_are_ignored(vars, rows.drop_last());
        let kept = rows.drop_last().filter(active);
        if sets_variable(rows.last()) {
            assert(rows.filter(active) =~= kept.push(rows.last()));
            assert(kept.push(rows.last()).drop_last() =~= kept);
        } else {
            assert(rows.filter(active) =~= kept);
        }
    } else {
        assert(rows.filter(active) =~= rows);
    }
}

impl NamedModel for KeyValueModel {
    open spec fn name_of(self) -> Seq<char> {
        self.key
    }
}

impl Named for KeyValue {
    fn name_text(&self) -> (r: &str) {
        self.key.as_str()
    }
}

/// The environment variable that an effect sets, and its value.
pub open spec fn environment_setting(effect: SideEffectModel) -> Option<(Seq<char>, Seq<char>)> {
    match effect {
        SideEffectModel::SetVariable { scope, name, value } => if scope == VarScope::Environment {
            Some((name, value))
        } else {
            None
        },
    }
}

/// The name of the environment variable that an effect sets.
pub open spec fn set_name(effect: SideEffectModel) -> Seq<char> {
    match environment_setting(effect) {
        Some((name, value)) => name,
        None => Seq::empty(),
    }
}

/// `rows` after one effect: the first row with its key gets the value and is enabled;
/// where there is none, one is added at the end.
pub open spec fn with_effect(
    rows: Seq<KeyValueModel>,
    effect: SideEffectModel,
) -> Seq<KeyValueModel> {
    match environment_setting(effect) {
        Some((name, value)) => match position(rows, name) {
            Some(i) => rows.update(i, KeyValueModel { value, enabled: true, ..rows[i] }),
            None => rows.push(text_row(name, value)),
        },
        None => rows,
    }
}

/// `rows` after the effects, first effect first.
pub open spec fn with_effects(
    rows: Seq<KeyValueModel>,
    effects: Seq<SideEffectModel>,
) -> Seq<KeyValueModel>
    decreases effects.len(),
{
    if effects.len() == 0 {
        rows
    } else {
        with_effect(with_effects(rows, effects.drop_last()), effects.last())
    }
}

/// Whether some effect, in its turn, changes the rows that it finds.
pub open spec fn effects_change(rows: Seq<KeyValueModel>, effects: Seq<SideEffectModel>) -> bool
    decreases effects.len(),
{
    if effects.len() == 0 {
        false
    } else {
        let before = with_effects(rows, effects.drop_last());
        effects_change(rows, effects.drop_last()) || with_effect(before, effects.last()) != before
    }
}

/// Applies the environment variables that a script set to the rows of an
/// environment. Says whether an effect changed anything.
pub fn apply_environment_effects(variables: &mut Vec<KeyValue>, result: &ScriptResult) -> (changed:
    bool)
    ensures
        final(variables).deep_view() == with_effects(
            old(variables).deep_view(),
            result.deep_view().effects,
        ),
        changed == effects_change(old(variables).deep_view(), result.deep_view().effects),
{
    let ghost start = variables.deep_view();
    let ghost effects = result.deep_view().effects;
    let mut changed = false;
    let mut i: usize = 0;
    assert(effects.take(0) =~= Seq::<SideEffectModel>::empty());
    while i < result.effects.len()
        invariant
            effects == result.effects.deep_view(),
            i <= result.effects.len(),
            variables.deep_view() == with_effects(start, effects.take(i as int)),
            changed == effects_change(start, effects.take(i as int)),
        decreases result.effects.len() - i,
    {
        let ghost before = variables.deep_view();
        assert(effects[i as int] == result.effects@[i as int].deep_view());
        assert(effects.take(i + 1).drop_last() =~= effects.take(i as int));
        assert(effects.take(i + 1).last() == effects[i as int]);
        let SideEffect::SetVariable { scope, name, value } = &result.effects[i];
        if *scope == VarScope::Environment {
            let found = find(variables, name.as_str());
            match found {
                Some(at) => {
                    assert(before[at as int] == variables@[at as int].deep_view());
                    if variables[at].value != *value || !variables[at].enabled {
                        variables[at].value = value.clone();
                        variables[at].enabled = true;
                        changed = true;
                        proof {
                            let row = KeyValueModel {
                                value: value@,
                                enabled: true,
                                ..before[at as int]
                            };
                            assert(variables.deep_view() =~= before.update(at as int, row));
                            assert(variables.deep_view()[at as int] == row);
                            assert(row != before[at as int]);
                        }
                    } else {
                        assert(before.update(
                            at as int,
                            KeyValueModel { value: value@, enabled: true, ..before[at as int] },
                        ) =~= before);
                    }
                },
                None => {
                    variables.push(KeyValue::new(name.as_str(), value.as_str()));
                    assert(variables.deep_view() =~= before.push(text_row(name@, value@)));
                    assert(variables.deep_view().len() != before.len());
                    changed = true;
                },
            }
        }
        i = i + 1;
    }
    assert(effects.take(effects.len() as int) =~= effects);
    changed
}

/// The value that the effects leave in the environment variable `name`.
pub open spec fn last_setting(effects: Seq<SideEffectModel>, name: Seq<char>) -> Option<Seq<char>>
    decreases effects.len(),
{
    if effects.len() == 0 {
        None
    } else {
        match environment_setting(effects.last()) {
            Some((n, value)) => if n == name {
                Some(value)
            } else {
                last_setting(effects.drop_last(), name)
            },
            None => last_setting(effects.drop_last(), name),
        }
    }
}

/// What becomes of each row: effects keep every row in its place with its key,
/// its kind and its file. The first row with a key that they set has the last value
/// set and is enabled; every other row is unchanged.
pub proof fn law_effects_on_rows(
    rows: Seq<KeyValueModel>,
    effects: Seq<SideEffectModel>,
    i: int,
)
    requires
        0 <= i < rows.len(),
    ensures
        with_effects(rows, effects).len() >= rows.len(),
        position(with_effects(rows, effects), rows[i].key) == position(rows, rows[i].key),
        with_effects(rows, effects)[i] == (match last_setting(effects, rows[i].key) {
            Some(value) => if position(rows, rows[i].key) == Some(i) {
                KeyValueModel { value, enabled: true, ..rows[i] }
            } else {
                rows[i]
            },
            None => rows[i],
        }),
    decreases effects.len(),
{
    if effects.len() > 0 {
        let before = with_effects(rows, effects.drop_last());
        law_effects_on_rows(rows, effects.drop_last(), i);
        lemma_position(before, rows[i].key);
        lemma_position(rows, rows[i].key);
        match environment_setting(effects.last()) {
            Some((name, value)) => {
                lemma_position(before, name);
                let after = with_effect(before, effects.last());
                let at = position(before, rows[i].key)->0;
                assert forall|j: int| 0 <= j < at implies (#[trigger] after[j]).name_of()
                    != rows[i].key by {
                    assert(before[j].name_of() != rows[i].key);
                }
                lemma_is_position(after, rows[i].key, at);
            },
            None => {},
        }
    } else {
        lemma_position(rows, rows[i].key);
    }
}

/// After the effects, the environment holds every variable that they set: its
/// first row has the last value set, and is enabled.
pub proof fn law_last_effect_wins(
    rows: Seq<KeyValueModel>,
    effects: Seq<SideEffectModel>,
    name: Seq<char>,
)
    requires
        last_setting(effects, name) is Some,
    ensures
        position(with_effects(rows, effects), name) is Some,
        ({
            let after = with_effects(rows, effects);
            let row = after[position(after, name)->0];
            row.value == last_setting(effects, name)->0 && row.enabled
        }),
    decreases effects.len(),
{
    let before = with_effects(rows, effects.drop_last());
    let after = with_effects(rows, effects);
    let (set, value) = environment_setting(effects.last())->0;
    lemma_position(before, name);
    lemma_position(before, set);
    if environment_setting(effects.last()) is Some && set == name {
        match position(before, name) {
            Some(i) => {
                assert forall|j: int| 0 <= j < i implies (#[trigger] after[j]).name_of()
                    != name by {
                    assert(before[j].name_of() != name);
                }
                lemma_is_position(after, name, i);
            },
            None => {
                assert forall|j: int| 0 <= j < before.len() implies (#[trigger] after[j]).name_of()
                    != name by {
                    assert(before[j].name_of() != name);
                }
                lemma_is_position(after, name, before.len() as int);
            },
        }
    } else {
        law_last_effect_wins(rows, effects.drop_last(), name);
        if environment_setting(effects.last()) is Some {
            let i = position(before, name)->0;
            assert forall|j: int| 0 <= j < i implies (#[trigger] after[j]).name_of() != name by {
                assert(before[j].name_of() != name);
            }
            lemma_is_position(after, name, i);
        }
    }
}

proof fn lemma_effects_keep_len(
    rows: Seq<KeyValueModel>,
    effects: Seq<SideEffectModel>,
)
    requires
        forall|k: int| #![trigger effects[k]]
            0 <= k < effects.len() && environment_setting(effects[k]) is Some ==> position(
                rows,
                set_name(effects[k]),
            ) is Some,
    ensures
        with_effects(rows, effects).len() == rows.len(),
    decreases effects.len(),
{
    if effects.len() > 0 {
        let fewer = effects.drop_last();
        assert forall|k: int| #![trigger fewer[k]]
            0 <= k < fewer.len() && environment_setting(fewer[k]) is Some implies position(
            rows,
            set_name(fewer[k]),
        ) is Some by {
            assert(fewer[k] == effects[k]);
        }
        lemma_effects_keep_len(rows, fewer);
        if environment_setting(effects.last()) is Some {
            let name = set_name(effects.last());
            assert(effects[effects.len() - 1] == effects.last());
            lemma_position(rows, name);
            let i = position(rows, name)->0;
            law_effects_on_rows(rows, fewer, i);
        }
    }
}

proof fn lemma_setting_is_last(effects: Seq<SideEffectModel>, k: int)
    requires
        0 <= k < effects.len(),
        environment_setting(effects[k]) is Some,
    ensures
        last_setting(effects, set_name(effects[k])) is Some,
    decreases effects.len(),
{
    if k < effects.len() - 1 {
        assert(effects.drop_last()[k] == effects[k]);
        lemma_setting_is_last(effects.drop_last(), k);
    }
}

/// Applying the same effects once more leaves the rows as they are.
pub proof fn law_effects_idempotent(rows: Seq<KeyValueModel>, effects: Seq<SideEffectModel>)
    ensures
        with_effects(with_effects(rows, effects), effects) == with_effects(rows, effects),
{
    let once = with_effects(rows, effects);
    let twice = with_effects(once, effects);
    assert forall|k: int| #![trigger effects[k]]
        0 <= k < effects.len() && environment_setting(effects[k]) is Some implies position(
        once,
        set_name(effects[k]),
    ) is Some by {
        lemma_setting_is_last(effects, k);
        law_last_effect_wins(rows, effects, set_name(effects[k]));
    }
    lemma_effects_keep_len(once, effects);
    assert forall|i: int| 0 <= i < once.len() implies twice[i] == once[i] by {
        law_effects_on_rows(once, effects, i);
        if last_setting(effects, once[i].key) is Some {
            law_last_effect_wins(rows, effects, once[i].key);
        }
    }
    assert(twice =~= once);
}

/// Whether no two effects set the same environment variable.
pub open spec fn set_names_distinct(effects: Seq<SideEffectModel>) -> bool {
    forall|i: int, j: int|
        #![trigger effects[i], effects[j]]
        0 <= i < j < effects.len() && environment_setting(effects[i]) is Some
            && environment_setting(effects[j]) is Some ==> set_name(effects[i]) != set_name(
            effects[j],
        )
}

proof fn lemma_effects_lengthen(rows: Seq<KeyValueModel>, effects: Seq<SideEffectModel>)
    ensures
        with_effects(rows, effects).len() >= rows.len(),
    decreases effects.len(),
{
    if effects.len() > 0 {
        lemma_effects_lengthen(rows, effects.drop_last());
        lemma_position(with_effects(rows, effects.drop_last()), set_name(effects.last()));
    }
}

proof fn lemma_name_not_set(effects: Seq<SideEffectModel>, name: Seq<char>)
    requires
        forall|i: int|
            #![trigger effects[i]]
            0 <= i < effects.len() && environment_setting(effects[i]) is Some ==> set_name(
                effects[i],
            ) != name,
    ensures
        last_setting(effects, name) is None,
    decreases effects.len(),
{
    if effects.len() > 0 {
        let fewer = effects.drop_last();
        assert forall|i: int|
            #![trigger fewer[i]]
            0 <= i < fewer.len() && environment_setting(fewer[i]) is Some implies set_name(
            fewer[i],
        ) != name by {
            assert(fewer[i] == effects[i]);
        }
        lemma_name_not_set(fewer, name);
        assert(effects.last() == effects[effects.len() - 1]);
    }
}

proof fn lemma_change_flag(rows: Seq<KeyValueModel>, effects: Seq<SideEffectModel>)
    requires
        set_names_distinct(effects),
    ensures
        effects_change(rows, effects) == (with_effects(rows, effects) != rows),
    decreases effects.len(),
{
    if effects.len() > 0 {
        let fewer = effects.drop_last();
        let before = with_effects(rows, fewer);
        let after = with_effects(rows, effects);
        assert forall|i: int, j: int|
            #![trigger fewer[i], fewer[j]]
            0 <= i < j < fewer.len() && environment_setting(fewer[i]) is Some
                && environment_setting(fewer[j]) is Some implies set_name(fewer[i]) != set_name(
            fewer[j],
        ) by {
            assert(fewer[i] == effects[i] && fewer[j] == effects[j]);
        }
        lemma_change_flag(rows, fewer);
        if before != rows && environment_setting(effects.last()) is Some {
            let name = set_name(effects.last());
            assert forall|i: int|
                #![trigger fewer[i]]
                0 <= i < fewer.len() && environment_setting(fewer[i]) is Some implies set_name(
                fewer[i],
            ) != name by {
                assert(fewer[i] == effects[i] && effects.last() == effects[effects.len() - 1]);
            }
            lemma_name_not_set(fewer, name);
            lemma_effects_lengthen(rows, fewer);
            lemma_position(before, name);
            if before.len() == rows.len() {
                assert(!(before =~= rows));
                let i = choose|i: int| 0 <= i < rows.len() && before[i] != rows[i];
                law_effects_on_rows(rows, fewer, i);
                assert(before[i].name_of() != name);
                assert(after[i] == before[i]);
            }
        }
    }
}

/// Where no two effects set the same variable, the effects are reported as a change exactly
/// where they change the rows, and a second run of them is never reported.
pub proof fn law_change_is_reported(rows: Seq<KeyValueModel>, effects: Seq<SideEffectModel>)
    requires
        set_names_distinct(effects),
    ensures
        effects_change(rows, effects) == (with_effects(rows, effects) != rows),
        !effects_change(with_effects(rows, effects), effects),
{
    lemma_change_flag(rows, effects);
    lemma_change_flag(with_effects(rows, effects), effects);
    law_effects_idempotent(rows, effects);
}

} // verus!
