//! The set of packages to install: the names given inline, joined with the
//! names listed in a file, each kept once.

use vstd::prelude::*;
use crate::text::{chars_of, lemma_views_push, text_of, trimmed, trimmed_end, views};

verus! {

/// Where the first line of `text` ends: at its first line feed, or at its end
/// if it holds none.
pub open spec fn line_end(text: Seq<char>) -> nat
    decreases text.len(),
{
    if text.len() == 0 || text[0] == '\n' {
        0
    } else {
        1 + line_end(text.drop_first())
    }
}

/// The lines of `text`, each without the white space at its end. A line feed
/// ends a line; what follows the last line feed is a line of its own unless
/// it is empty. A line that holds nothing but white space is kept, as the
/// empty name.
pub open spec fn lines_of(text: Seq<char>) -> Seq<Seq<char>>
    decreases text.len(),
{
    if text.len() == 0 {
        Seq::empty()
    } else {
        let end = line_end(text) as int;
        let rest = if end < text.len() {
            text.skip(end + 1)
        } else {
            Seq::empty()
        };
        seq![trimmed(text.take(end))] + lines_of(rest)
    }
}

/// `names` with each name kept where it first occurs, and nowhere else.
pub open spec fn unique(names: Seq<Seq<char>>) -> Seq<Seq<char>>
    decreases names.len(),
{
    if names.len() == 0 {
        Seq::empty()
    } else {
        let before = unique(names.drop_last());
        if before.contains(names.last()) {
            before
        } else {
            before.push(names.last())
        }
    }
}

/// The names that a file's text lists, or none where there is no file.
pub open spec fn listed_in(file: Option<&str>) -> Seq<Seq<char>> {
    match file {
        Some(text) => lines_of(text@),
        None => Seq::empty(),
    }
}

/// The packages of a run: the inline names, then the names that the file
/// lists, each kept once.
pub open spec fn resolved(inline: Seq<Seq<char>>, file: Option<&str>) -> Seq<Seq<char>> {
    unique(inline + listed_in(file))
}

/// A line that holds no line feed before `end`, and ends there, has its end
/// at `end`.
proof fn lemma_line_end(text: Seq<char>, end: int)
    requires
        0 <= end <= text.len(),
        forall|k: int| 0 <= k < end ==> text[k] != '\n',
        end < text.len() ==> text[end] == '\n',
    ensures
        line_end(text) == end,
    decreases end,
{
    if end > 0 {
        lemma_line_end(text.drop_first(), end - 1);
    }
}

/// Splits the text of a file into the names it lists, one per line.
pub fn read_lines(text: &str) -> (lines: Vec<String>)
    ensures
        views(lines@) == lines_of(text@),
{
    let chars = chars_of(text);
    let mut lines: Vec<String> = Vec::new();
    let mut start: usize = 0;
    assert(text@.skip(0) =~= text@);
    assert(views(lines@) =~= Seq::<Seq<char>>::empty());
    while start < chars.len()
        invariant
            chars@ == text@,
            start <= chars@.len(),
            lines_of(text@) == views(lines@) + lines_of(text@.skip(start as int)),
        decreases chars@.len() - start,
    {
        let ghost tail = text@.skip(start as int);
        let mut end: usize = start;
        while end < chars.len() && chars[end] != '\n'
            invariant
                start <= end <= chars@.len(),
                forall|k: int| start <= k < end ==> chars@[k] != '\n',
            decreases chars@.len() - end,
        {
            end += 1;
        }
        let stop = trimmed_end(&chars, start, end);
        let line = text_of(&chars, start, stop);
        let next: usize = if end < chars.len() {
            end + 1
        } else {
            end
        };
        proof {
            lemma_line_end(tail, end - start);
            assert(tail.take(end - start) =~= chars@.subrange(start as int, end as int));
            if end < chars@.len() {
                assert(tail.skip(end - start + 1) =~= text@.skip(next as int));
            } else {
                assert(text@.skip(next as int) =~= Seq::<char>::empty());
            }
            assert(lines_of(tail) == seq![line@] + lines_of(text@.skip(next as int)));
            lemma_views_push(lines@, line);
            assert(views(lines@).push(line@) + lines_of(text@.skip(next as int)) =~= views(lines@)
                + lines_of(tail));
        }
        lines.push(line);
        start = next;
    }
    assert(lines_of(text@.skip(start as int)) =~= Seq::<Seq<char>>::empty());
    assert(views(lines@) + Seq::<Seq<char>>::empty() =~= views(lines@));
    lines
}

/// Whether `name` is among `names`.
fn holds(names: &Vec<String>, name: &String) -> (found: bool)
    ensures
        found == views(names@).contains(name@),
{
    let mut i: usize = 0;
    while i < names.len()
        invariant
            i <= names@.len(),
            forall|k: int| 0 <= k < i ==> views(names@)[k] != name@,
        decreases names@.len() - i,
    {
        if names[i] == *name {
            assert(views(names@)[i as int] == name@);
            return true;
        }
        i += 1;
    }
    false
}

/// Keeps each name where it first occurs.
pub fn dedup(names: &Vec<String>) -> (kept: Vec<String>)
    ensures
        views(kept@) == unique(views(names@)),
{
    let mut kept: Vec<String> = Vec::new();
    let mut i: usize = 0;
    assert(views(names@).take(0) =~= Seq::<Seq<char>>::empty());
    assert(views(kept@) =~= Seq::<Seq<char>>::empty());
    while i < names.len()
        invariant
            i <= names@.len(),
            views(kept@) == unique(views(names@).take(i as int)),
        decreases names@.len() - i,
    {
        proof {
            let upto = views(names@).take(i + 1);
            assert(upto.drop_last() =~= views(names@).take(i as int));
            assert(upto.last() == names@[i as int]@);
        }
        if !holds(&kept, &names[i]) {
            proof {
                lemma_views_push(kept@, names@[i as int]);
            }
            kept.push(names[i].clone());
        }
        i += 1;
    }
    assert(views(names@).take(names@.len() as int) =~= views(names@));
    kept
}

/// The packages of one run: names of which none occurs twice, in the order
/// in which each was first given.
#[derive(Debug)]
pub struct ModuleSet {
    names: Vec<String>,
}

impl View for ModuleSet {
    type V = Seq<Seq<char>>;

    closed spec fn view(&self) -> Seq<Seq<char>> {
        views(self.names@)
    }
}

impl ModuleSet {
    #[verifier::type_invariant]
    spec fn distinct(&self) -> bool {
        views(self.names@).no_duplicates()
    }

    /// Joins the inline names with the names that the text of a file lists,
    /// if there is a file, and keeps each name once. The file adds to the
    /// inline names; it does not replace them.
    pub fn resolve(inline: &Vec<String>, file: Option<&str>) -> (set: ModuleSet)
        ensures
            set@ == resolved(views(inline@), file),
    {
        let mut all: Vec<String> = Vec::new();
        let mut i: usize = 0;
        assert(views(all@) =~= views(inline@).take(0));
        while i < inline.len()
            invariant
                i <= inline@.len(),
                views(all@) == views(inline@).take(i as int),
            decreases inline@.len() - i,
        {
            proof {
                lemma_views_push(all@, inline@[i as int]);
                assert(views(inline@).take(i + 1) =~= views(inline@).take(i as int).push(
                    inline@[i as int]@,
                ));
            }
            all.push(inline[i].clone());
            i += 1;
        }
        assert(views(inline@).take(inline@.len() as int) =~= views(inline@));
        match file {
            Some(text) => {
                let mut lines = read_lines(text);
                let ghost given = all@;
                let ghost listed = lines@;
                all.append(&mut lines);
                assert(views(all@) =~= views(given) + views(listed));
            },
            None => {
                assert(views(all@) + Seq::<Seq<char>>::empty() =~= views(all@));
            },
        }
        let names = dedup(&all);
        proof {
            law_unique_is_distinct(views(all@));
        }
        ModuleSet { names }
    }

    /// The names, each once.
    pub fn names(&self) -> (names: &Vec<String>)
        ensures
            views(names@) == self@,
            self@.no_duplicates(),
    {
        proof {
            use_type_invariant(self);
        }
        &self.names
    }

    /// How many packages there are.
    pub fn len(&self) -> (count: usize)
        ensures
            count == self@.len(),
    {
        self.names.len()
    }

    /// Whether there is nothing to install.
    pub fn is_empty(&self) -> (empty: bool)
        ensures
            empty == (self@.len() == 0),
    {
        self.names.len() == 0
    }
}

/// What a sequence holds once `last` is added at its end.
proof fn lemma_contains_push(names: Seq<Seq<char>>, last: Seq<char>, name: Seq<char>)
    ensures
        names.push(last).contains(name) <==> names.contains(name) || name == last,
{
    let longer = names.push(last);
    if names.contains(name) {
        let k = choose|k: int| 0 <= k < names.len() && names[k] == name;
        assert(longer[k] == name);
    }
    if name == last {
        assert(longer[names.len() as int] == name);
    }
    if longer.contains(name) {
        let k = choose|k: int| 0 <= k < longer.len() && longer[k] == name;
        if k < names.len() {
            assert(names[k] == name);
        }
    }
}

/// A name is kept exactly if it was given.
pub proof fn law_unique_keeps_every_name(names: Seq<Seq<char>>)
    ensures
        forall|name: Seq<char>| unique(names).contains(name) <==> names.contains(name),
        unique(names).to_set() == names.to_set(),
    decreases names.len(),
{
    if names.len() > 0 {
        let before = names.drop_last();
        let last = names.last();
        law_unique_keeps_every_name(before);
        assert(names =~= before.push(last));
        assert forall|name: Seq<char>| unique(names).contains(name) <==> names.contains(
            name,
        ) by {
            lemma_contains_push(before, last, name);
            lemma_contains_push(unique(before), last, name);
            assert(unique(before).contains(name) <==> before.contains(name));
        }
    }
    assert(unique(names).to_set() =~= names.to_set());
}

/// No name is kept twice.
pub proof fn law_unique_is_distinct(names: Seq<Seq<char>>)
    ensures
        unique(names).no_duplicates(),
    decreases names.len(),
{
    if names.len() > 0 {
        law_unique_is_distinct(names.drop_last());
    }
}

/// Names of which none occurs twice are kept as they are.
pub proof fn law_unique_of_distinct(names: Seq<Seq<char>>)
    requires
        names.no_duplicates(),
    ensures
        unique(names) == names,
    decreases names.len(),
{
    if names.len() > 0 {
        let before = names.drop_last();
        law_unique_of_distinct(before);
        law_unique_keeps_every_name(before);
        if before.contains(names.last()) {
            let k = choose|k: int| 0 <= k < before.len() && before[k] == names.last();
            assert(names[k] == names[names.len() - 1]);
        }
        assert(unique(names) =~= names);
    } else {
        assert(unique(names) =~= names);
    }
}

/// Keeping each name once a second time changes nothing.
pub proof fn law_unique_is_idempotent(names: Seq<Seq<char>>)
    ensures
        unique(unique(names)) == unique(names),
{
    law_unique_is_distinct(names);
    law_unique_of_distinct(unique(names));
}

/// The resolved packages are, as a set, the union of the inline names and the
/// names that the file lists; in what order the names were given, and how
/// often, makes no difference to that set.
pub proof fn law_resolved_is_the_union(inline: Seq<Seq<char>>, file: Option<&str>)
    ensures
        resolved(inline, file).no_duplicates(),
        resolved(inline, file).to_set() == inline.to_set().union(listed_in(file).to_set()),
{
    let all = inline + listed_in(file);
    law_unique_is_distinct(all);
    law_unique_keeps_every_name(all);
    assert forall|name: Seq<char>| all.contains(name) <==> inline.contains(name) || listed_in(
        file,
    ).contains(name) by {
        if inline.contains(name) {
            let k = choose|k: int| 0 <= k < inline.len() && inline[k] == name;
            assert(all[k] == name);
        }
        if listed_in(file).contains(name) {
            let k = choose|k: int| 0 <= k < listed_in(file).len() && listed_in(file)[k] == name;
            assert(all[inline.len() + k] == name);
        }
        if all.contains(name) {
            let k = choose|k: int| 0 <= k < all.len() && all[k] == name;
            if k < inline.len() {
                assert(inline[k] == name);
            } else {
                assert(listed_in(file)[k - inline.len()] == name);
            }
        }
    }
    assert(all.to_set() =~= inline.to_set().union(listed_in(file).to_set()));
}

} // verus!
