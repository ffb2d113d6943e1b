//! The list of subscribed parts.
//!
//! The list is a set of part numbers, trimmed and in upper case, kept in
//! the order of strings. Reading and writing its file is left to the
//! caller: the list is made from the text of the file and gives back the
//! text to be written.

use crate::models::auth::Credentials;
use crate::text::{
    append, append_str, chars_of, same, segments_of, split, string_of, texts, to_uppercase, trim,
    trimmed, uppercase,
};
use vstd::prelude::*;

verus! {

/// `a` comes before `b` in the order of strings: `a` has the smaller
/// character where the two first differ, or is shorter where they do not.
pub open spec fn precedes(a: Seq<char>, b: Seq<char>) -> bool
    decreases a.len(),
{
    if b.len() == 0 {
        false
    } else if a.len() == 0 {
        true
    } else if a[0] != b[0] {
        (a[0] as int) < (b[0] as int)
    } else {
        precedes(a.drop_first(), b.drop_first())
    }
}

/// Every element comes before those after it.
pub open spec fn strictly_increasing(parts: Seq<Seq<char>>) -> bool {
    forall|i: int, j: int| 0 <= i < j < parts.len() ==> precedes(parts[i], parts[j])
}

/// Nothing comes before itself.
pub proof fn lemma_precedes_irreflexive(a: Seq<char>)
    ensures
        !precedes(a, a),
    decreases a.len(),
{
    if a.len() > 0 {
        lemma_precedes_irreflexive(a.drop_first());
    }
}

/// Of two different strings one comes before the other.
pub proof fn lemma_precedes_total(a: Seq<char>, b: Seq<char>)
    ensures
        precedes(a, b) || precedes(b, a) || a == b,
    decreases a.len(),
{
    if a.len() > 0 && b.len() > 0 && a[0] == b[0] {
        lemma_precedes_total(a.drop_first(), b.drop_first());
        if a.drop_first() == b.drop_first() {
            assert(a =~= seq![a[0]] + a.drop_first());
            assert(b =~= seq![b[0]] + b.drop_first());
        }
    } else if a.len() == 0 && b.len() == 0 {
        assert(a =~= b);
    }
}

/// The order of strings is transitive.
pub proof fn lemma_precedes_transitive(a: Seq<char>, b: Seq<char>, c: Seq<char>)
    requires
        precedes(a, b),
        precedes(b, c),
    ensures
        precedes(a, c),
    decreases a.len(),
{
    if a.len() > 0 && a[0] == b[0] && b[0] == c[0] {
        lemma_precedes_transitive(a.drop_first(), b.drop_first(), c.drop_first());
    }
}

/// A part number as the list keeps it: trimmed and in upper case.
pub open spec fn normalized(part_number: Seq<char>) -> Seq<char> {
    uppercase(trimmed(part_number))
}

/// The part numbers that the first `n` lines of a file list, in order: a
/// line that is empty once trimmed, or then begins with `#`, lists none.
pub open spec fn listed_among(lines: Seq<Seq<char>>, n: int) -> Seq<Seq<char>>
    decreases n,
{
    if n <= 0 || n > lines.len() {
        Seq::<Seq<char>>::empty()
    } else {
        let line = trimmed(lines[n - 1]);
        if line.len() == 0 || line[0] == '#' {
            listed_among(lines, n - 1)
        } else {
            listed_among(lines, n - 1).push(uppercase(line))
        }
    }
}

/// The part numbers that the text of a file lists, in order.
pub open spec fn listed_parts(content: Seq<char>) -> Seq<Seq<char>> {
    listed_among(segments_of(content, '\n'), segments_of(content, '\n').len() as int)
}

/// The lines of a file for the first `n` part numbers.
pub open spec fn part_lines(parts: Seq<Seq<char>>, n: int) -> Seq<char>
    decreases n,
{
    if n <= 0 || n > parts.len() {
        Seq::<char>::empty()
    } else {
        part_lines(parts, n - 1) + parts[n - 1] + "\n"@
    }
}

/// The text of the file of a list: a heading of two comment lines and an
/// empty line, then one part number on each line.
pub open spec fn file_text(parts: Seq<Seq<char>>) -> Seq<char> {
    "# McMaster-Carr Subscribed Parts\n# Auto-managed by mmcli - do not edit manually\n\n"@
        + part_lines(parts, parts.len() as int)
}

/// The file that the credentials name for the list, if they name one.
pub fn configured_file(credentials: &Option<Credentials>) -> (r: Option<&String>)
    ensures
        r == match *credentials {
            Some(c) => match c.subscriptions_file {
                Some(path) => Some(&path),
                None => None,
            },
            None => None,
        },
{
    match credentials {
        Some(c) => match &c.subscriptions_file {
            Some(path) => Some(path),
            None => None,
        },
        None => None,
    }
}

/// Whether `a` comes before `b` in the order of strings.
fn comes_before(a: &Vec<char>, b: &Vec<char>) -> (r: bool)
    ensures
        r == precedes(a@, b@),
{
    let mut i: usize = 0;
    assert(a@.skip(0) =~= a@);
    assert(b@.skip(0) =~= b@);
    while i < a.len() && i < b.len()
        invariant
            i <= a.len(),
            i <= b.len(),
            precedes(a@, b@) == precedes(a@.skip(i as int), b@.skip(i as int)),
        decreases a.len() - i,
    {
        assert(a@.skip(i as int).drop_first() =~= a@.skip(i + 1));
        assert(b@.skip(i as int).drop_first() =~= b@.skip(i + 1));
        if a[i] != b[i] {
            return a[i] < b[i];
        }
        i += 1;
    }
    i < b.len()
}

/// A copy of `parts` with `part` put at position `at`.
fn with_part_at(parts: &Vec<String>, at: usize, part: String) -> (r: Vec<String>)
    requires
        at <= parts.len(),
    ensures
        texts(r@) == texts(parts@).insert(at as int, part@),
{
    let mut out: Vec<String> = Vec::new();
    let mut i: usize = 0;
    while i < at
        invariant
            i <= at <= parts.len(),
            out.len() == i,
            forall|j: int| 0 <= j < i ==> out@[j]@ == parts@[j]@,
        decreases at - i,
    {
        out.push(parts[i].clone());
        i += 1;
    }
    out.push(part);
    while i < parts.len()
        invariant
            at <= i <= parts.len(),
            out.len() == i + 1,
            out@[at as int]@ == part@,
            forall|j: int| 0 <= j < at ==> out@[j]@ == parts@[j]@,
            forall|j: int| at <= j < i ==> out@[j + 1]@ == parts@[j]@,
        decreases parts.len() - i,
    {
        out.push(parts[i].clone());
        i += 1;
    }
    proof {
        texts(parts@).insert_ensures(at as int, part@);
        assert(texts(out@) =~= texts(parts@).insert(at as int, part@)) by {
            assert forall|j: int| 0 <= j < out.len() implies texts(out@)[j] == texts(
                parts@,
            ).insert(at as int, part@)[j] by {
                if j > at {
                    assert(out@[(j - 1) + 1]@ == parts@[j - 1]@);
                }
            }
        }
    }
    out
}

/// A copy of `parts` without the part at position `at`.
fn without_part_at(parts: &Vec<String>, at: usize) -> (r: Vec<String>)
    requires
        at < parts.len(),
    ensures
        texts(r@) == texts(parts@).remove(at as int),
{
    let mut out: Vec<String> = Vec::new();
    let mut i: usize = 0;
    while i < parts.len()
        invariant
            i <= parts.len(),
            at < parts.len(),
            out.len() == if i <= at {
                i as int
            } else {
                i - 1
            },
            forall|j: int| 0 <= j < i && j < at ==> out@[j]@ == parts@[j]@,
            forall|j: int| at < j < i ==> out@[j - 1]@ == parts@[j]@,
        decreases parts.len() - i,
    {
        if i != at {
            out.push(parts[i].clone());
        }
        i += 1;
    }
    proof {
        texts(parts@).remove_ensures(at as int);
        assert(texts(out@) =~= texts(parts@).remove(at as int)) by {
            assert forall|j: int| 0 <= j < out.len() implies texts(out@)[j] == texts(
                parts@,
            ).remove(at as int)[j] by {
                if j >= at {
                    assert(out@[(j + 1) - 1]@ == parts@[j + 1]@);
                }
            }
        }
    }
    out
}

/// The local list of subscribed parts with the path of its file.
pub struct SubscriptionManager {
    file_path: String,
    parts: Vec<String>,
}

/// The mathematical content of a [`SubscriptionManager`]: the path of its
/// file and its part numbers in the order of strings.
pub struct SubscriptionsView {
    pub file_path: Seq<char>,
    pub parts: Seq<Seq<char>>,
}

impl View for SubscriptionManager {
    type V = SubscriptionsView;

    closed spec fn view(&self) -> SubscriptionsView {
        SubscriptionsView { file_path: self.file_path@, parts: texts(self.parts@) }
    }
}

impl SubscriptionManager {
    /// The part numbers are in order, none twice.
    #[verifier::type_invariant]
    spec fn parts_are_ordered(&self) -> bool {
        strictly_increasing(texts(self.parts@))
    }

    /// The list that the text of a file holds, with the path of the file.
    /// For a file that does not exist yet the text is empty.
    pub fn new(file_path: &str, content: &str) -> (r: Self)
        ensures
            r@.file_path == file_path@,
            strictly_increasing(r@.parts),
            forall|x: Seq<char>| r@.parts.contains(x) <==> listed_parts(content@).contains(x),
    {
        let mut manager = SubscriptionManager { file_path: file_path.to_string(), parts: Vec::new() };
        manager.import(content);
        proof {
            use_type_invariant(&manager);
        }
        manager
    }

    /// The position at which a normalized part number stands or would stand.
    fn position(&self, part: &Vec<char>) -> (r: (usize, bool))
        ensures
            r.0 <= self@.parts.len(),
            r.1 == self@.parts.contains(part@),
            r.1 ==> r.0 < self@.parts.len() && self@.parts[r.0 as int] == part@,
            forall|j: int| 0 <= j < r.0 ==> precedes(self@.parts[j], part@),
            forall|j: int| r.0 <= j < self@.parts.len() && !r.1 ==> precedes(part@, self@.parts[j]),
    {
        proof {
            use_type_invariant(self);
        }
        let ghost parts = texts(self.parts@);
        let mut i: usize = 0;
        while i < self.parts.len()
            invariant
                i <= self.parts.len(),
                parts == texts(self.parts@),
                strictly_increasing(parts),
                forall|j: int| 0 <= j < i ==> precedes(parts[j], part@),
            decreases self.parts.len() - i,
        {
            let candidate = chars_of(self.parts[i].as_str());
            assert(candidate@ == parts[i as int]);
            if !comes_before(&candidate, part) {
                let found = same(&candidate, part);
                proof {
                    lemma_precedes_irreflexive(part@);
                    if found {
                        assert(parts.contains(part@));
                    } else {
                        lemma_precedes_total(candidate@, part@);
                        assert forall|j: int| i <= j < parts.len() implies precedes(
                            part@,
                            parts[j],
                        ) by {
                            if j > i {
                                lemma_precedes_transitive(part@, parts[i as int], parts[j]);
                            }
                        }
                        assert forall|j: int| 0 <= j < parts.len() implies parts[j] != part@ by {
                        }
                    }
                }
                return (i, found);
            }
            i += 1;
        }
        proof {
            lemma_precedes_irreflexive(part@);
            assert forall|j: int| 0 <= j < parts.len() implies parts[j] != part@ by {
            }
        }
        (i, false)
    }

    /// Inserts a normalized part number; tells whether it was new.
    fn insert(&mut self, part: String) -> (r: bool)
        ensures
            r == !old(self)@.parts.contains(part@),
            final(self)@.file_path == old(self)@.file_path,
            strictly_increasing(final(self)@.parts),
            forall|x: Seq<char>|
                final(self)@.parts.contains(x) <==> old(self)@.parts.contains(x) || x == part@,
            final(self)@.parts.len() == old(self)@.parts.len() + if r {
                1int
            } else {
                0int
            },
    {
        proof {
            use_type_invariant(&*self);
        }
        let key = chars_of(part.as_str());
        let (at, found) = self.position(&key);
        if found {
            return false;
        }
        let ghost before = texts(self.parts@);
        let next = with_part_at(&self.parts, at, part);
        proof {
            let after = texts(next@);
            before.insert_ensures(at as int, part@);
            assert forall|i: int, j: int| 0 <= i < j < after.len() implies precedes(
                after[i],
                after[j],
            ) by {
                if i < at && j > at {
                    assert(after[j] == before[j - 1]);
                } else if i < at && j < at {
                } else if i == at {
                    assert(after[j] == before[j - 1]);
                } else if j == at {
                } else {
                    assert(after[i] == before[i - 1]);
                    assert(after[j] == before[j - 1]);
                }
            }
        }
        self.parts = next;
        proof {
            let after = texts(self.parts@);
            assert forall|x: Seq<char>| after.contains(x) <==> before.contains(x) || x
                == part@ by {
                if after.contains(x) {
                    let k = choose|k: int| 0 <= k < after.len() && after[k] == x;
                    if k < at {
                        assert(before[k] == x);
                    } else if k > at {
                        assert(before[k - 1] == x);
                    }
                }
                if before.contains(x) {
                    let k = choose|k: int| 0 <= k < before.len() && before[k] == x;
                    if k < at {
                        assert(after[k] == x);
                    } else {
                        assert(after[k + 1] == x);
                    }
                }
                if x == part@ {
                    assert(after[at as int] == x);
                }
            }
        }
        true
    }

    /// Adds a part; tells whether it was new, in which case the file is to
    /// be written again.
    pub fn add_part(&mut self, part_number: &str) -> (r: bool)
        ensures
            r == !old(self)@.parts.contains(normalized(part_number@)),
            final(self)@.file_path == old(self)@.file_path,
            strictly_increasing(final(self)@.parts),
            forall|x: Seq<char>|
                final(self)@.parts.contains(x) <==> old(self)@.parts.contains(x) || x == normalized(
                    part_number@,
                ),
    {
        let part = to_uppercase(string_of(&trim(&chars_of(part_number))).as_str());
        self.insert(part)
    }

    /// Removes a part; tells whether it was there, in which case the file
    /// is to be written again.
    pub fn remove_part(&mut self, part_number: &str) -> (r: bool)
        ensures
            r == old(self)@.parts.contains(normalized(part_number@)),
            final(self)@.file_path == old(self)@.file_path,
            strictly_increasing(final(self)@.parts),
            forall|x: Seq<char>|
                final(self)@.parts.contains(x) <==> old(self)@.parts.contains(x) && x != normalized(
                    part_number@,
                ),
    {
        proof {
            use_type_invariant(&*self);
        }
        let part = to_uppercase(string_of(&trim(&chars_of(part_number))).as_str());
        let key = chars_of(part.as_str());
        let (at, found) = self.position(&key);
        if !found {
            return false;
        }
        let ghost before = texts(self.parts@);
        let next = without_part_at(&self.parts, at);
        proof {
            let after = texts(next@);
            before.remove_ensures(at as int);
            assert forall|i: int, j: int| 0 <= i < j < after.len() implies precedes(
                after[i],
                after[j],
            ) by {
                if i < at && j < at {
                } else if i < at {
                    assert(after[j] == before[j + 1]);
                } else {
                    assert(after[i] == before[i + 1]);
                    assert(after[j] == before[j + 1]);
                }
            }
        }
        self.parts = next;
        proof {
            let after = texts(self.parts@);
            lemma_precedes_irreflexive(key@);
            assert forall|x: Seq<char>| after.contains(x) <==> before.contains(x) && x
                != key@ by {
                if after.contains(x) {
                    let k = choose|k: int| 0 <= k < after.len() && after[k] == x;
                    if k < at {
                        assert(before[k] == x);
                    } else {
                        assert(before[k + 1] == x);
                    }
                }
                if before.contains(x) && x != key@ {
                    let k = choose|k: int| 0 <= k < before.len() && before[k] == x;
                    if k < at {
                        assert(after[k] == x);
                    } else {
                        assert(after[k - 1] == x);
                    }
                }
            }
        }
        true
    }

    /// Whether a part is in the list.
    pub fn has_part(&self, part_number: &str) -> (r: bool)
        ensures
            r == self@.parts.contains(normalized(part_number@)),
    {
        let part = to_uppercase(string_of(&trim(&chars_of(part_number))).as_str());
        let key = chars_of(part.as_str());
        self.position(&key).1
    }

    /// The parts of the list, in the order of strings.
    pub fn get_all_parts(&self) -> (r: Vec<String>)
        ensures
            texts(r@) == self@.parts,
            strictly_increasing(texts(r@)),
    {
        proof {
            use_type_invariant(self);
        }
        let mut out: Vec<String> = Vec::new();
        let mut i: usize = 0;
        while i < self.parts.len()
            invariant
                i <= self.parts.len(),
                out.len() == i,
                forall|j: int| 0 <= j < i ==> out@[j]@ == self.parts@[j]@,
            decreases self.parts.len() - i,
        {
            out.push(self.parts[i].clone());
            i += 1;
        }
        assert(texts(out@) =~= texts(self.parts@));
        out
    }

    /// The number of parts in the list.
    pub fn count(&self) -> (r: usize)
        ensures
            r == self@.parts.len(),
    {
        self.parts.len()
    }

    /// Takes up the part numbers that the text of a file lists; tells how
    /// many of them were new.
    pub fn import(&mut self, content: &str) -> (r: usize)
        ensures
            final(self)@.file_path == old(self)@.file_path,
            strictly_increasing(final(self)@.parts),
            forall|x: Seq<char>|
                final(self)@.parts.contains(x) <==> old(self)@.parts.contains(x) || listed_parts(
                    content@,
                ).contains(x),
            r == final(self)@.parts.len() - old(self)@.parts.len(),
    {
        proof {
            use_type_invariant(&*self);
        }
        let lines = split(&chars_of(content), '\n');
        let mut imported: usize = 0;
        let mut i: usize = 0;
        while i < lines.len()
            invariant
                i <= lines.len(),
                texts(lines@) == segments_of(content@, '\n'),
                self@.file_path == old(self)@.file_path,
                strictly_increasing(self@.parts),
                forall|x: Seq<char>|
                    self@.parts.contains(x) <==> old(self)@.parts.contains(x) || listed_among(
                        texts(lines@),
                        i as int,
                    ).contains(x),
                imported == self@.parts.len() - old(self)@.parts.len(),
                self@.parts.len() <= old(self)@.parts.len() + i,
            decreases lines.len() - i,
        {
            let line = trim(&chars_of(lines[i].as_str()));
            assert(line@ == trimmed(texts(lines@)[i as int]));
            let ghost so_far = listed_among(texts(lines@), i as int);
            if line.len() > 0 && line[0] != '#' {
                let part = to_uppercase(string_of(&line).as_str());
                let ghost added = part@;
                if self.insert(part) {
                    imported += 1;
                }
                proof {
                    let now = listed_among(texts(lines@), i + 1);
                    assert(now == so_far.push(added));
                    assert forall|x: Seq<char>| now.contains(x) <==> so_far.contains(x) || x
                        == added by {
                        if so_far.contains(x) {
                            let k = choose|k: int| 0 <= k < so_far.len() && so_far[k] == x;
                            assert(now[k] == x);
                        }
                        if x == added {
                            assert(now[so_far.len() as int] == x);
                        }
                    }
                }
            }
            i += 1;
        }
        imported
    }

    /// Empties the list.
    pub fn clear(&mut self)
        ensures
            final(self)@.file_path == old(self)@.file_path,
            final(self)@.parts.len() == 0,
    {
        self.parts = Vec::new();
    }

    /// The path of the file of the list.
    pub fn get_file_path(&self) -> (r: &String)
        ensures
            r@ == self@.file_path,
    {
        &self.file_path
    }

    /// The text to be written to the file of the list.
    pub fn file_content(&self) -> (r: String)
        ensures
            r@ == file_text(self@.parts),
    {
        let mut lines: Vec<char> = Vec::new();
        let mut i: usize = 0;
        assert(lines@ =~= part_lines(texts(self.parts@), 0));
        while i < self.parts.len()
            invariant
                i <= self.parts.len(),
                lines@ == part_lines(texts(self.parts@), i as int),
            decreases self.parts.len() - i,
        {
            append_str(&mut lines, self.parts[i].as_str());
            append_str(&mut lines, "\n");
            i += 1;
        }
        let mut out = chars_of(
            "# McMaster-Carr Subscribed Parts\n# Auto-managed by mmcli - do not edit manually\n\n",
        );
        append(&mut out, &lines);
        string_of(&out)
    }
}

} // verus!
