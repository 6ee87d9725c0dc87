//! The options an engine has declared, by name.

use vstd::prelude::*;

verus! {

/// Model of one entry: the option's name and its default as text.
pub type EntryView = (Seq<char>, Seq<char>);

/// The mapping that a list of declarations amounts to: each name is bound
/// to the text of its last declaration.
pub open spec fn table(entries: Seq<EntryView>) -> Map<Seq<char>, Seq<char>>
    decreases entries.len(),
{
    if entries.len() == 0 {
        Map::empty()
    } else {
        table(entries.drop_last()).insert(entries.last().0, entries.last().1)
    }
}

/// No name occurs twice.
pub open spec fn distinct_names(entries: Seq<EntryView>) -> bool {
    forall|i: int, j: int|
        0 <= i < j < entries.len() ==> (#[trigger] entries[i]).0 != (#[trigger] entries[j]).0
}

/// A name is bound exactly when some entry carries it.
pub proof fn table_domain(entries: Seq<EntryView>, name: Seq<char>)
    ensures
        table(entries).contains_key(name) <==> exists|i: int|
            0 <= i < entries.len() && (#[trigger] entries[i]).0 == name,
    decreases entries.len(),
{
    if entries.len() > 0 {
        let front = entries.drop_last();
        table_domain(front, name);
        if entries.last().0 != name {
            if table(front).contains_key(name) {
                let i = choose|i: int| 0 <= i < front.len() && (#[trigger] front[i]).0 == name;
                assert(entries[i].0 == name);
            } else if exists|i: int| 0 <= i < entries.len() && (#[trigger] entries[i]).0 == name {
                let i = choose|i: int|
                    0 <= i < entries.len() && (#[trigger] entries[i]).0 == name;
                assert(front[i].0 == name);
            }
        }
    }
}

/// The text bound to a name is that of the last entry carrying the name.
pub proof fn table_value(entries: Seq<EntryView>, at: int)
    requires
        0 <= at < entries.len(),
        forall|j: int| at < j < entries.len() ==> (#[trigger] entries[j]).0 != entries[at].0,
    ensures
        table(entries).contains_key(entries[at].0),
        table(entries)[entries[at].0] == entries[at].1,
    decreases entries.len(),
{
    if at < entries.len() - 1 {
        let front = entries.drop_last();
        assert forall|j: int| at < j < front.len() implies (#[trigger] front[j]).0
            != front[at].0 by {
            assert(entries[j].0 != entries[at].0);
        }
        table_value(front, at);
    }
}

/// Names that are distinct stay so without the last entry.
proof fn distinct_names_of_front(entries: Seq<EntryView>)
    requires
        entries.len() > 0,
        distinct_names(entries),
    ensures
        distinct_names(entries.drop_last()),
{
    let front = entries.drop_last();
    assert forall|i: int, j: int| 0 <= i < j < front.len() implies (#[trigger] front[i]).0 != (
    #[trigger] front[j]).0 by {
        assert(entries[i].0 != entries[j].0);
    }
}

/// Overwriting the text of an entry rebinds its name and nothing else.
proof fn table_update(entries: Seq<EntryView>, at: int, text: Seq<char>)
    requires
        0 <= at < entries.len(),
        distinct_names(entries),
    ensures
        table(entries.update(at, (entries[at].0, text))) == table(entries).insert(
            entries[at].0,
            text,
        ),
    decreases entries.len(),
{
    let name = entries[at].0;
    let after = entries.update(at, (name, text));
    let front = entries.drop_last();
    if at == entries.len() - 1 {
        assert(after.drop_last() =~= front);
    } else {
        assert(after.drop_last() =~= front.update(at, (front[at].0, text)));
        distinct_names_of_front(entries);
        table_update(front, at, text);
    }
}

/// With distinct names there are as many bindings as entries.
proof fn table_size(entries: Seq<EntryView>)
    requires
        distinct_names(entries),
    ensures
        table(entries).dom().finite(),
        table(entries).dom().len() == entries.len(),
    decreases entries.len(),
{
    if entries.len() > 0 {
        let front = entries.drop_last();
        distinct_names_of_front(entries);
        table_size(front);
        // The last name is new: no entry before the last one carries it.
        table_domain(front, entries.last().0);
        assert(!table(front).contains_key(entries.last().0)) by {
            assert forall|i: int| 0 <= i < front.len() implies (#[trigger] front[i]).0
                != entries.last().0 by {
                assert(entries[i].0 != entries[entries.len() - 1].0);
            }
        }
        assert(table(entries).dom() =~= table(front).dom().insert(entries.last().0));
    } else {
        assert(table(entries).dom() =~= Set::empty());
    }
}

/// The options an engine has declared: each option's name with its default
/// rendered as text. A name is held once; declaring it again replaces the
/// text.
#[derive(Debug)]
pub struct EngineOptions {
    entries: Vec<(String, String)>,
}

impl View for EngineOptions {
    type V = Map<Seq<char>, Seq<char>>;

    closed spec fn view(&self) -> Map<Seq<char>, Seq<char>> {
        table(self.entries.deep_view())
    }
}

impl Clone for EngineOptions {
    fn clone(&self) -> (copy: EngineOptions)
        ensures
            copy@ == self@,
    {
        proof {
            use_type_invariant(self);
        }
        let mut entries: Vec<(String, String)> = Vec::new();
        let mut at: usize = 0;
        while at < self.entries.len()
            invariant
                at <= self.entries.len(),
                entries.deep_view() == self.entries.deep_view().take(at as int),
            decreases self.entries.len() - at,
        {
            let ghost copied = entries.deep_view();
            let name = self.entries[at].0.clone();
            let text = self.entries[at].1.clone();
            entries.push((name, text));
            assert(entries.deep_view() =~= copied.push((name@, text@)));
            at += 1;
        }
        assert(entries.deep_view() =~= self.entries.deep_view());
        EngineOptions { entries }
    }
}

impl EngineOptions {
    #[verifier::type_invariant]
    spec fn names_are_distinct(&self) -> bool {
        distinct_names(self.entries.deep_view())
    }

    /// No option declared.
    pub fn new() -> (options: EngineOptions)
        ensures
            options@ == Map::<Seq<char>, Seq<char>>::empty(),
    {
        EngineOptions { entries: Vec::new() }
    }

    /// Number of declared options.
    pub fn len(&self) -> (count: usize)
        ensures
            self@.dom().finite(),
            count == self@.dom().len(),
    {
        proof {
            use_type_invariant(self);
            table_size(self.entries.deep_view());
        }
        self.entries.len()
    }

    fn position(&self, name: &String) -> (found: Option<usize>)
        ensures
            match found {
                Some(at) => at < self.entries.len() && self.entries.deep_view()[at as int].0
                    == name@,
                None => forall|i: int|
                    0 <= i < self.entries.len() ==> (#[trigger] self.entries.deep_view()[i]).0
                        != name@,
            },
    {
        let mut at: usize = 0;
        while at < self.entries.len()
            invariant
                at <= self.entries.len(),
                forall|i: int|
                    0 <= i < at ==> (#[trigger] self.entries.deep_view()[i]).0 != name@,
            decreases self.entries.len() - at,
        {
            if self.entries[at].0 == *name {
                return Some(at);
            }
            at += 1;
        }
        None
    }

    /// The text declared for `name`, if the engine declared such an option.
    pub fn get(&self, name: &str) -> (text: Option<&String>)
        ensures
            match text {
                Some(text) => self@.contains_key(name@) && self@[name@] == text@,
                None => !self@.contains_key(name@),
            },
    {
        let key = name.to_string();
        let found = self.position(&key);
        proof {
            use_type_invariant(self);
            table_domain(self.entries.deep_view(), name@);
        }
        match found {
            Some(at) => {
                proof {
                    let entries = self.entries.deep_view();
                    assert forall|j: int| at < j < entries.len() implies (#[trigger] entries[j]).0
                        != entries[at as int].0 by {
                        assert(entries[at as int].0 != entries[j].0);
                    }
                    table_value(entries, at as int);
                }
                Some(&self.entries[at].1)
            },
            None => None,
        }
    }

    /// Binds `name` to `text`, replacing what was bound to it before.
    pub fn insert(&mut self, name: String, text: String)
        ensures
            final(self)@ == old(self)@.insert(name@, text@),
    {
        let found = self.position(&name);
        proof {
            use_type_invariant(&*self);
        }
        let ghost before = self.entries.deep_view();
        let mut entries: Vec<(String, String)> = Vec::new();
        core::mem::swap(&mut self.entries, &mut entries);
        match found {
            Some(at) => {
                entries[at] = (name, text);
                proof {
                    let after = entries.deep_view();
                    assert(after =~= before.update(at as int, (before[at as int].0, text@)));
                    table_update(before, at as int, text@);
                    assert forall|i: int, j: int| 0 <= i < j < after.len() implies (
                    #[trigger] after[i]).0 != (#[trigger] after[j]).0 by {
                        assert(before[i].0 != before[j].0);
                    }
                }
            },
            None => {
                entries.push((name, text));
                proof {
                    let after = entries.deep_view();
                    assert(after.drop_last() =~= before);
                    assert forall|i: int, j: int| 0 <= i < j < after.len() implies (
                    #[trigger] after[i]).0 != (#[trigger] after[j]).0 by {
                        if j < before.len() {
                            assert(before[i].0 != before[j].0);
                        } else {
                            assert(before[i].0 != name@);
                        }
                    }
                }
            },
        }
        self.entries = entries;
    }

    /// Every declared option, as name and text.
    pub fn entries(&self) -> (entries: &Vec<(String, String)>)
        ensures
            table(entries.deep_view()) == self@,
            distinct_names(entries.deep_view()),
    {
        proof {
            use_type_invariant(self);
        }
        &self.entries
    }
}

} // verus!
