//! Named, typed values extracted from registers, and collections of them.

use vstd::prelude::*;
use vstd::std_specs::cmp::PartialEqSpec;
use vstd::std_specs::convert::IntoSpec;

verus! {

/// A named value extracted from a decoded register, identified by a
/// hierarchical slash-delimited path.
#[derive(Debug, Clone, PartialEq, Eq, Hash)]
pub struct GenericFact<T> {
    pub name: String,
    pub value: T,
}

impl<T> GenericFact<T> {
    /// Pair a name with a value.
    pub fn new(name: String, value: T) -> (r: Self)
        ensures
            r.name == name,
            r.value == value,
    {
        Self { name, value }
    }

    /// Convert a fact's value into another value type, keeping the name.
    pub fn from<F: Into<T>>(other: GenericFact<F>) -> (r: Self)
        ensures
            r.name == other.name,
            <F as vstd::std_specs::convert::IntoSpec<T>>::obeys_into_spec() ==> r.value
                == other.value.into_spec(),
    {
        Self { name: other.name, value: other.value.into() }
    }

    /// The fact's full hierarchical name.
    pub fn get_name(&self) -> (r: &str)
        ensures
            r@ == self.name@,
    {
        self.name.as_str()
    }

    /// Prefix the fact's name with one more path segment.
    pub fn add_path(&mut self, path: &str)
        ensures
            final(self).name@ == path@ + "/"@ + old(self).name@,
            final(self).value == old(self).value,
    {
        let mut prefixed = String::from_str(path);
        prefixed.append("/");
        prefixed.append(self.name.as_str());
        self.name = prefixed;
    }
}

/// A fact value as it appears in exported snapshots: a truth value, an
/// unsigned number, or a piece of text.
#[derive(Debug, Clone)]
pub enum FactValue {
    Bool(bool),
    Num(u64),
    Text(String),
}

/// When two fact values count as equal: same variant, same content;
/// text is compared by its characters.
pub open spec fn spec_fact_value_eq(a: FactValue, b: FactValue) -> bool {
    match (a, b) {
        (FactValue::Bool(x), FactValue::Bool(y)) => x == y,
        (FactValue::Num(x), FactValue::Num(y)) => x == y,
        (FactValue::Text(x), FactValue::Text(y)) => x@ == y@,
        _ => false,
    }
}

impl PartialEq for FactValue {
    fn eq(&self, other: &Self) -> (r: bool) {
        match (self, other) {
            (FactValue::Bool(x), FactValue::Bool(y)) => *x == *y,
            (FactValue::Num(x), FactValue::Num(y)) => *x == *y,
            (FactValue::Text(x), FactValue::Text(y)) => *x == *y,
            _ => false,
        }
    }
}

impl vstd::std_specs::cmp::PartialEqSpecImpl for FactValue {
    open spec fn obeys_eq_spec() -> bool {
        true
    }

    open spec fn eq_spec(&self, other: &Self) -> bool {
        spec_fact_value_eq(*self, *other)
    }
}

impl From<bool> for FactValue {
    fn from(v: bool) -> (r: Self) {
        FactValue::Bool(v)
    }
}

impl vstd::std_specs::convert::FromSpecImpl<bool> for FactValue {
    open spec fn obeys_from_spec() -> bool {
        true
    }

    open spec fn from_spec(v: bool) -> Self {
        FactValue::Bool(v)
    }
}

impl From<u32> for FactValue {
    fn from(v: u32) -> (r: Self) {
        FactValue::Num(v as u64)
    }
}

impl vstd::std_specs::convert::FromSpecImpl<u32> for FactValue {
    open spec fn obeys_from_spec() -> bool {
        true
    }

    open spec fn from_spec(v: u32) -> Self {
        FactValue::Num(v as u64)
    }
}

impl From<String> for FactValue {
    fn from(v: String) -> (r: Self) {
        FactValue::Text(v)
    }
}

impl vstd::std_specs::convert::FromSpecImpl<String> for FactValue {
    open spec fn obeys_from_spec() -> bool {
        true
    }

    open spec fn from_spec(v: String) -> Self {
        FactValue::Text(v)
    }
}

/// A source whose whole state can be flattened into a list of facts.
pub trait Facter<T> {
    fn collect_facts(&self) -> Vec<T>;
}

/// No two facts in the sequence share a name.
pub open spec fn spec_unique_names<T>(s: Seq<GenericFact<T>>) -> bool {
    forall|i: int, j: int| 0 <= i < j < s.len() ==> s[i].name@ != s[j].name@
}

/// Some fact in the sequence carries this name.
pub open spec fn spec_contains_name<T>(s: Seq<GenericFact<T>>, name: Seq<char>) -> bool {
    exists|i: int| 0 <= i < s.len() && s[i].name@ == name
}

/// The name-indexed view of a fact list. A later fact with the same name
/// overrides an earlier one: documented last-write-wins policy, not an error.
pub open spec fn spec_fact_map<T>(s: Seq<GenericFact<T>>) -> Map<Seq<char>, GenericFact<T>>
    decreases s.len(),
{
    if s.len() == 0 {
        Map::empty()
    } else {
        spec_fact_map(s.drop_last()).insert(s.last().name@, s.last())
    }
}

/// A name is indexed by the view exactly when some fact carries it.
pub proof fn lemma_fact_map_domain<T>(s: Seq<GenericFact<T>>, name: Seq<char>)
    ensures
        spec_fact_map(s).contains_key(name) <==> spec_contains_name(s, name),
    decreases s.len(),
{
    if s.len() != 0 {
        lemma_fact_map_domain(s.drop_last(), name);
        if s.last().name@ == name {
            assert(s[s.len() - 1].name@ == name);
        } else {
            if spec_contains_name(s.drop_last(), name) {
                let i = choose|i: int|
                    0 <= i < s.drop_last().len() && s.drop_last()[i].name@ == name;
                assert(s[i].name@ == name);
            }
            if spec_contains_name(s, name) {
                let i = choose|i: int| 0 <= i < s.len() && s[i].name@ == name;
                assert(s.drop_last()[i].name@ == name);
            }
        }
    }
}

/// With unique names, the view indexes every fact under its own name.
pub proof fn lemma_fact_map_index<T>(s: Seq<GenericFact<T>>, i: int)
    requires
        spec_unique_names(s),
        0 <= i < s.len(),
    ensures
        spec_fact_map(s).contains_key(s[i].name@),
        spec_fact_map(s)[s[i].name@] == s[i],
    decreases s.len(),
{
    if i < s.len() - 1 {
        assert(spec_unique_names(s.drop_last()));
        lemma_fact_map_index(s.drop_last(), i);
        assert(s.drop_last()[i] == s[i]);
        assert(s[i].name@ != s[s.len() - 1].name@);
    }
}

/// Whether some fact in the vector carries this name.
fn vec_contains_name<T>(v: &Vec<GenericFact<T>>, name: &String) -> (r: bool)
    ensures
        r == spec_contains_name(v@, name@),
{
    let mut i: usize = 0;
    while i < v.len()
        invariant
            i <= v@.len(),
            forall|j: int| 0 <= j < i ==> v@[j].name@ != name@,
        decreases v@.len() - i,
    {
        if v[i].name == *name {
            return true;
        }
        i = i + 1;
    }
    false
}

/// A name-indexed collection of facts, built once from a fact list and
/// read-only afterward. Identity is by name only.
pub struct FactSet<T> {
    pub facts: Vec<GenericFact<T>>,
}

impl<T> FactSet<T> {
    /// The stored facts carry pairwise distinct names. Construction
    /// through [`FactSet::from_facts`] establishes this.
    pub open spec fn wf(self) -> bool {
        spec_unique_names(self.facts@)
    }

    /// The collection seen as a map from name to fact.
    pub open spec fn as_map(self) -> Map<Seq<char>, GenericFact<T>> {
        spec_fact_map(self.facts@)
    }

    /// Build the collection from a fact list; a later duplicate name
    /// overrides an earlier fact (last-write-wins).
    pub fn from_facts(facts: Vec<GenericFact<T>>) -> (r: Self)
        ensures
            r.wf(),
            r.as_map() == spec_fact_map(facts@),
    {
        let mut input = facts;
        let mut out: Vec<GenericFact<T>> = Vec::new();
        while input.len() != 0
            invariant
                spec_unique_names(out@),
                spec_fact_map(facts@) == spec_fact_map(input@).union_prefer_right(
                    spec_fact_map(out@),
                ),
            decreases input@.len(),
        {
            let ghost old_input = input@;
            let ghost old_out = out@;
            let f = input.pop().unwrap();
            let present = vec_contains_name(&out, &f.name);
            proof {
                lemma_fact_map_domain(old_out, f.name@);
                assert(old_input.drop_last().push(old_input.last()) =~= old_input);
            }
            if !present {
                out.push(f);
                proof {
                    assert(out@.drop_last() =~= old_out);
                    assert(spec_fact_map(out@) == spec_fact_map(old_out).insert(
                        out@.last().name@,
                        out@.last(),
                    ));
                    assert(spec_fact_map(input@).union_prefer_right(spec_fact_map(out@))
                        =~= spec_fact_map(old_input).union_prefer_right(spec_fact_map(old_out)));
                    assert(forall|i: int, j: int|
                        0 <= i < j < out@.len() ==> out@[i].name@ != out@[j].name@);
                }
            } else {
                proof {
                    assert(spec_fact_map(input@).union_prefer_right(spec_fact_map(out@))
                        =~= spec_fact_map(old_input).union_prefer_right(spec_fact_map(old_out)));
                }
            }
        }
        proof {
            assert(spec_fact_map(input@).union_prefer_right(spec_fact_map(out@)) =~= spec_fact_map(
                out@,
            ));
        }
        FactSet { facts: out }
    }

    /// Whether the collection holds a fact of this name.
    pub fn contains_name(&self, name: &String) -> (r: bool)
        ensures
            r == spec_contains_name(self.facts@, name@),
    {
        vec_contains_name(&self.facts, name)
    }

    /// Look a fact up by its name.
    pub fn get_by_name<'a>(&'a self, name: &String) -> (r: Option<&'a GenericFact<T>>)
        ensures
            match r {
                Some(f) => f.name@ == name@ && self.facts@.contains(*f) && (self.wf()
                    ==> self.as_map().contains_key(name@) && *f == self.as_map()[name@]),
                None => !spec_contains_name(self.facts@, name@),
            },
    {
        let mut i: usize = 0;
        while i < self.facts.len()
            invariant
                i <= self.facts@.len(),
                forall|j: int| 0 <= j < i ==> self.facts@[j].name@ != name@,
            decreases self.facts@.len() - i,
        {
            if self.facts[i].name == *name {
                let f = &self.facts[i];
                proof {
                    if self.wf() {
                        lemma_fact_map_index(self.facts@, i as int);
                    }
                }
                return Some(f);
            }
            i = i + 1;
        }
        None
    }
}

/// The facts of `to` whose names `from` does not carry, in `to`'s order.
pub open spec fn spec_added<T>(
    from: Seq<GenericFact<T>>,
    to: Seq<GenericFact<T>>,
) -> Seq<GenericFact<T>>
    decreases to.len(),
{
    if to.len() == 0 {
        Seq::empty()
    } else {
        let rest = spec_added(from, to.drop_last());
        if !spec_contains_name(from, to.last().name@) {
            rest.push(to.last())
        } else {
            rest
        }
    }
}

/// The facts of `from` whose names `to` does not carry, in `from`'s order.
pub open spec fn spec_removed<T>(
    from: Seq<GenericFact<T>>,
    to: Seq<GenericFact<T>>,
) -> Seq<GenericFact<T>> {
    spec_added(to, from)
}

/// Whether a fact of `from` counts as changed against `to`: `to` carries
/// its name too, with a value that compares unequal.
pub open spec fn spec_is_changed<T: PartialEq>(
    f: GenericFact<T>,
    to_m: Map<Seq<char>, GenericFact<T>>,
) -> bool {
    to_m.contains_key(f.name@) && !f.value.eq_spec(&to_m[f.name@].value)
}

/// The facts of `from` whose name `to` also carries with a different
/// value, each paired with `to`'s fact of that name, in `from`'s order.
pub open spec fn spec_changed<T: PartialEq>(
    from: Seq<GenericFact<T>>,
    to: Seq<GenericFact<T>>,
) -> Seq<(GenericFact<T>, GenericFact<T>)>
    decreases from.len(),
{
    if from.len() == 0 {
        Seq::empty()
    } else {
        let rest = spec_changed(from.drop_last(), to);
        let f = from.last();
        let to_m = spec_fact_map(to);
        if spec_is_changed(f, to_m) {
            rest.push((f, to_m[f.name@]))
        } else {
            rest
        }
    }
}

/// The facts a sequence of borrows refers to.
pub open spec fn spec_deref_facts<T>(s: Seq<&GenericFact<T>>) -> Seq<GenericFact<T>>
    decreases s.len(),
{
    if s.len() == 0 {
        Seq::empty()
    } else {
        spec_deref_facts(s.drop_last()).push(*s.last())
    }
}

/// The fact pairs a sequence of borrow pairs refers to.
pub open spec fn spec_deref_pairs<T>(s: Seq<(&GenericFact<T>, &GenericFact<T>)>) -> Seq<
    (GenericFact<T>, GenericFact<T>),
>
    decreases s.len(),
{
    if s.len() == 0 {
        Seq::empty()
    } else {
        spec_deref_pairs(s.drop_last()).push((*s.last().0, *s.last().1))
    }
}

impl<T> FactSet<T> {
    /// Facts that are in `to` but not in `self`.
    pub fn added_facts<'to>(&self, to: &'to Self) -> (r: Vec<&'to GenericFact<T>>)
        ensures
            spec_deref_facts(r@) == spec_added(self.facts@, to.facts@),
    {
        let mut out: Vec<&GenericFact<T>> = Vec::new();
        let mut i: usize = 0;
        while i < to.facts.len()
            invariant
                i <= to.facts@.len(),
                spec_deref_facts(out@) == spec_added(self.facts@, to.facts@.take(i as int)),
            decreases to.facts@.len() - i,
        {
            let ghost old_out = out@;
            let f = &to.facts[i];
            let missing = !self.contains_name(&f.name);
            if missing {
                out.push(f);
            }
            proof {
                let next = to.facts@.take(i + 1);
                assert(next.drop_last() =~= to.facts@.take(i as int));
                assert(next.last() == to.facts@[i as int]);
                if missing {
                    assert(out@.drop_last() =~= old_out);
                    assert(spec_deref_facts(out@) == spec_deref_facts(old_out).push(*f));
                }
            }
            i = i + 1;
        }
        proof {
            assert(to.facts@.take(to.facts@.len() as int) =~= to.facts@);
        }
        out
    }

    /// Facts that are in `self` but not in `to`.
    pub fn removed_facts<'s>(&'s self, to: &Self) -> (r: Vec<&'s GenericFact<T>>)
        ensures
            spec_deref_facts(r@) == spec_removed(self.facts@, to.facts@),
    {
        to.added_facts(self)
    }
}

impl<T: PartialEq> FactSet<T> {
    /// Facts that are in both `self` and `to` but carry different values,
    /// as pairs of (fact before, fact after). Meaningful when `to` is
    /// well-formed and the value type's equality obeys its specification.
    pub fn changed_facts<'a>(&'a self, to: &'a Self) -> (r: Vec<
        (&'a GenericFact<T>, &'a GenericFact<T>),
    >)
        ensures
            T::obeys_eq_spec() && to.wf() ==> spec_deref_pairs(r@) == spec_changed(
                self.facts@,
                to.facts@,
            ),
    {
        let ghost to_m = spec_fact_map(to.facts@);
        let mut out: Vec<(&GenericFact<T>, &GenericFact<T>)> = Vec::new();
        let mut i: usize = 0;
        while i < self.facts.len()
            invariant
                i <= self.facts@.len(),
                to_m == spec_fact_map(to.facts@),
                T::obeys_eq_spec() && to.wf() ==> spec_deref_pairs(out@) == spec_changed(
                    self.facts@.take(i as int),
                    to.facts@,
                ),
            decreases self.facts@.len() - i,
        {
            let ghost old_out = out@;
            let ghost prefix = self.facts@.take(i as int);
            let ghost fi = self.facts@[i as int];
            let ghost next = self.facts@.take(i + 1);
            proof {
                assert(next.drop_last() =~= prefix);
                assert(next.last() == fi);
            }
            let f = &self.facts[i];
            match to.get_by_name(&f.name) {
                Some(tf) => {
                    if !(f.value == tf.value) {
                        out.push((f, tf));
                        proof {
                            if T::obeys_eq_spec() && to.wf() {
                                assert(to_m[fi.name@] == *tf);
                                assert(spec_is_changed(fi, to_m));
                                assert(out@.drop_last() =~= old_out);
                                assert(spec_deref_pairs(out@) == spec_deref_pairs(old_out).push(
                                    (*f, *tf),
                                ));
                            }
                        }
                    } else {
                        proof {
                            if T::obeys_eq_spec() && to.wf() {
                                assert(!spec_is_changed(fi, to_m));
                            }
                        }
                    }
                },
                None => {
                    proof {
                        if T::obeys_eq_spec() && to.wf() {
                            lemma_fact_map_domain(to.facts@, fi.name@);
                            assert(!spec_is_changed(fi, to_m));
                        }
                    }
                },
            }
            i = i + 1;
        }
        proof {
            assert(self.facts@.take(self.facts@.len() as int) =~= self.facts@);
        }
        out
    }
}

/// Every fact reported as added carries a name that `to` holds and
/// `from` does not.
pub proof fn lemma_added_sound<T>(from: Seq<GenericFact<T>>, to: Seq<GenericFact<T>>, i: int)
    requires
        0 <= i < spec_added(from, to).len(),
    ensures
        !spec_contains_name(from, spec_added(from, to)[i].name@),
        spec_contains_name(to, spec_added(from, to)[i].name@),
    decreases to.len(),
{
    if to.len() != 0 {
        let rest = spec_added(from, to.drop_last());
        if !spec_contains_name(from, to.last().name@) && i == rest.len() {
            assert(to[to.len() - 1].name@ == spec_added(from, to)[i].name@);
        } else {
            lemma_added_sound(from, to.drop_last(), i);
            let j = choose|j: int|
                0 <= j < to.drop_last().len() && to.drop_last()[j].name@ == rest[i].name@;
            assert(to[j].name@ == rest[i].name@);
        }
    }
}

/// Every name that `to` holds and `from` does not is reported as added.
pub proof fn lemma_added_complete<T>(
    from: Seq<GenericFact<T>>,
    to: Seq<GenericFact<T>>,
    name: Seq<char>,
)
    requires
        spec_contains_name(to, name),
        !spec_contains_name(from, name),
    ensures
        exists|i: int|
            0 <= i < spec_added(from, to).len() && (#[trigger] spec_added(from, to)[i]).name@
                == name,
    decreases to.len(),
{
    let added = spec_added(from, to);
    if to.last().name@ == name {
        assert(added[added.len() - 1].name@ == name);
    } else {
        let j = choose|j: int| 0 <= j < to.len() && to[j].name@ == name;
        assert(to.drop_last()[j].name@ == name);
        lemma_added_complete(from, to.drop_last(), name);
        let rest = spec_added(from, to.drop_last());
        let i = choose|i: int| 0 <= i < rest.len() && rest[i].name@ == name;
        assert(added[i].name@ == name);
    }
}

/// Every pair reported as changed is a fact of `from` whose name `to`
/// carries with a differing value, paired with `to`'s fact of that name.
pub proof fn lemma_changed_sound<T: PartialEq>(
    from: Seq<GenericFact<T>>,
    to: Seq<GenericFact<T>>,
    i: int,
)
    requires
        0 <= i < spec_changed(from, to).len(),
    ensures
        from.contains(spec_changed(from, to)[i].0),
        spec_is_changed(spec_changed(from, to)[i].0, spec_fact_map(to)),
        spec_changed(from, to)[i].1 == spec_fact_map(to)[spec_changed(from, to)[i].0.name@],
    decreases from.len(),
{
    if from.len() != 0 {
        let rest = spec_changed(from.drop_last(), to);
        if spec_is_changed(from.last(), spec_fact_map(to)) && i == rest.len() {
            assert(from.contains(from.last()));
        } else {
            lemma_changed_sound(from.drop_last(), to, i);
            assert(from.drop_last().contains(rest[i].0));
            let j = choose|j: int|
                0 <= j < from.drop_last().len() && from.drop_last()[j] == rest[i].0;
            assert(from[j] == rest[i].0);
        }
    }
}

/// Every fact of `from` whose name `to` carries with a differing value is
/// reported as changed, paired with `to`'s fact of that name.
pub proof fn lemma_changed_complete<T: PartialEq>(
    from: Seq<GenericFact<T>>,
    to: Seq<GenericFact<T>>,
    j: int,
)
    requires
        0 <= j < from.len(),
        spec_is_changed(from[j], spec_fact_map(to)),
    ensures
        exists|i: int|
            0 <= i < spec_changed(from, to).len() && #[trigger] spec_changed(from, to)[i] == (
            from[j],
            spec_fact_map(to)[from[j].name@],
            ),
    decreases from.len(),
{
    let changed = spec_changed(from, to);
    if j == from.len() - 1 {
        let rest = spec_changed(from.drop_last(), to);
        assert(changed[rest.len() as int] == (from[j], spec_fact_map(to)[from[j].name@]));
    } else {
        assert(from.drop_last()[j] == from[j]);
        lemma_changed_complete(from.drop_last(), to, j);
        let rest = spec_changed(from.drop_last(), to);
        let i = choose|i: int|
            0 <= i < rest.len() && #[trigger] rest[i] == (
            from.drop_last()[j],
            spec_fact_map(to)[from.drop_last()[j].name@],
            );
        assert(changed[i] == (from[j], spec_fact_map(to)[from[j].name@]));
    }
}

/// The borrowed view keeps the length of the fact list.
pub proof fn lemma_deref_facts_len<T>(s: Seq<&GenericFact<T>>)
    ensures
        spec_deref_facts(s).len() == s.len(),
    decreases s.len(),
{
    if s.len() != 0 {
        lemma_deref_facts_len(s.drop_last());
    }
}

/// The borrowed view keeps the length of the pair list.
pub proof fn lemma_deref_pairs_len<T>(s: Seq<(&GenericFact<T>, &GenericFact<T>)>)
    ensures
        spec_deref_pairs(s).len() == s.len(),
    decreases s.len(),
{
    if s.len() != 0 {
        lemma_deref_pairs_len(s.drop_last());
    }
}

/// A point-in-time comparison of two fact collections.
pub struct DiffReport<'a, T> {
    pub added: Vec<&'a GenericFact<T>>,
    pub removed: Vec<&'a GenericFact<T>>,
    pub changed: Vec<(&'a GenericFact<T>, &'a GenericFact<T>)>,
}

impl<'a, T> DiffReport<'a, T> {
    /// Two fact collections are equivalent exactly when all three result
    /// lists are empty.
    pub fn is_empty(&self) -> (r: bool)
        ensures
            r == (self.added@.len() == 0 && self.removed@.len() == 0 && self.changed@.len()
                == 0),
    {
        self.added.is_empty() && self.removed.is_empty() && self.changed.is_empty()
    }
}

/// Compare two fact collections: what `to` adds over `from`, what it
/// drops, and which shared names changed value.
pub fn diff<'a, T: PartialEq>(from: &'a FactSet<T>, to: &'a FactSet<T>) -> (r: DiffReport<
    'a,
    T,
>)
    ensures
        spec_deref_facts(r.added@) == spec_added(from.facts@, to.facts@),
        spec_deref_facts(r.removed@) == spec_removed(from.facts@, to.facts@),
        r.added@.len() == spec_added(from.facts@, to.facts@).len(),
        r.removed@.len() == spec_removed(from.facts@, to.facts@).len(),
        T::obeys_eq_spec() && to.wf() ==> spec_deref_pairs(r.changed@) == spec_changed(
            from.facts@,
            to.facts@,
        ) && r.changed@.len() == spec_changed(from.facts@, to.facts@).len(),
{
    let r = DiffReport {
        added: from.added_facts(to),
        removed: from.removed_facts(to),
        changed: from.changed_facts(to),
    };
    proof {
        lemma_deref_facts_len(r.added@);
        lemma_deref_facts_len(r.removed@);
        lemma_deref_pairs_len(r.changed@);
    }
    r
}

/// When every fact of `to` carries a name that `from` carries too,
/// nothing counts as added.
proof fn lemma_added_none<T>(from: Seq<GenericFact<T>>, to: Seq<GenericFact<T>>)
    requires
        forall|i: int| 0 <= i < to.len() ==> spec_contains_name(from, #[trigger] to[i].name@),
    ensures
        spec_added(from, to) == Seq::<GenericFact<T>>::empty(),
    decreases to.len(),
{
    if to.len() != 0 {
        assert(forall|i: int| 0 <= i < to.drop_last().len() ==> to.drop_last()[i] == to[i]);
        lemma_added_none(from, to.drop_last());
    }
}

/// When no fact of `from` counts as changed against `to`, nothing is
/// reported as changed.
proof fn lemma_changed_none<T: PartialEq>(from: Seq<GenericFact<T>>, to: Seq<GenericFact<T>>)
    requires
        forall|i: int|
            0 <= i < from.len() ==> !spec_is_changed(#[trigger] from[i], spec_fact_map(to)),
    ensures
        spec_changed(from, to) == Seq::<(GenericFact<T>, GenericFact<T>)>::empty(),
    decreases from.len(),
{
    if from.len() != 0 {
        assert(forall|i: int|
            0 <= i < from.drop_last().len() ==> from.drop_last()[i] == from[i]);
        lemma_changed_none(from.drop_last(), to);
    }
}

/// Fact-value equality is reflexive: every fact value equals itself.
pub proof fn lemma_fact_value_eq_reflexive()
    ensures
        forall|v: FactValue| #[trigger] v.eq_spec(&v),
{
}

/// Diffing two well-formed fact collections that agree as name-to-fact
/// maps reports nothing: no additions, no removals, and no changes.
/// Holds whenever the value type's equality is reflexive.
pub proof fn lemma_diff_equal_empty<T: PartialEq>(from: FactSet<T>, to: FactSet<T>)
    requires
        from.wf(),
        to.wf(),
        from.as_map() == to.as_map(),
        forall|v: T| #[trigger] v.eq_spec(&v),
    ensures
        spec_added(from.facts@, to.facts@) == Seq::<GenericFact<T>>::empty(),
        spec_removed(from.facts@, to.facts@) == Seq::<GenericFact<T>>::empty(),
        spec_changed(from.facts@, to.facts@) == Seq::<(GenericFact<T>, GenericFact<T>)>::empty(),
{
    assert forall|i: int|
        0 <= i < to.facts@.len() implies spec_contains_name(
        from.facts@,
        #[trigger] to.facts@[i].name@,
    ) by {
        lemma_fact_map_index(to.facts@, i);
        lemma_fact_map_domain(from.facts@, to.facts@[i].name@);
    }
    lemma_added_none(from.facts@, to.facts@);
    assert forall|i: int|
        0 <= i < from.facts@.len() implies spec_contains_name(
        to.facts@,
        #[trigger] from.facts@[i].name@,
    ) by {
        lemma_fact_map_index(from.facts@, i);
        lemma_fact_map_domain(to.facts@, from.facts@[i].name@);
    }
    lemma_added_none(to.facts@, from.facts@);
    assert forall|i: int|
        0 <= i < from.facts@.len() implies !spec_is_changed(
        #[trigger] from.facts@[i],
        spec_fact_map(to.facts@),
    ) by {
        lemma_fact_map_index(from.facts@, i);
    }
    lemma_changed_none(from.facts@, to.facts@);
}

/// Diffing a well-formed fact collection against an unchanged copy of
/// itself reports nothing.
pub proof fn lemma_diff_self_empty<T: PartialEq>(s: FactSet<T>)
    requires
        s.wf(),
        forall|v: T| #[trigger] v.eq_spec(&v),
    ensures
        spec_added(s.facts@, s.facts@) == Seq::<GenericFact<T>>::empty(),
        spec_removed(s.facts@, s.facts@) == Seq::<GenericFact<T>>::empty(),
        spec_changed(s.facts@, s.facts@) == Seq::<(GenericFact<T>, GenericFact<T>)>::empty(),
{
    lemma_diff_equal_empty(s, s);
}

} // verus!
