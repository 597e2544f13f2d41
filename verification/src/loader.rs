//! Loading scenario files, one or a directory of them.

use crate::model::{ErrorView, ScenarioFile, ScenarioView, TestkitError};
use crate::scenario::{parse_scenario, scenario_text};
use crate::text::{
    all_white, is_blank, not_after, same, text_le, text_le_total, text_le_transitive, trim,
    trimming_takes_white_space,
};
use crate::views::{group_views, views};
use vstd::prelude::*;

verus! {

broadcast use group_views;

/// What loading a scenario stands for.
pub open spec fn loading(r: Result<ScenarioFile, TestkitError>) -> Result<ScenarioView, ErrorView> {
    match r {
        Ok(s) => Ok(s@),
        Err(e) => Err(e@),
    }
}

/// The scenario in the file at `path`, whose text is `raw`. Its name must not be blank.
pub open spec fn file_scenario(path: Seq<char>, raw: Seq<char>) -> Result<ScenarioView, ErrorView> {
    match scenario_text(raw) {
        Err(e) => Err(ErrorView::Yaml(e)),
        Ok(s) => if is_blank(s.name) {
            Err(ErrorView::InvalidScenario(path, "scenario name is empty"@))
        } else {
            Ok(s)
        },
    }
}

/// Loads a scenario from the text of its file.
pub fn load_scenario(path: &str, raw: &str) -> (r: Result<ScenarioFile, TestkitError>)
    ensures
        loading(r) == file_scenario(path@, raw@),
{
    match parse_scenario(raw) {
        Err(e) => Err(TestkitError::Yaml(e)),
        Ok(s) => {
            if trim(s.name.as_str()).as_str().is_empty() {
                Err(
                    TestkitError::InvalidScenario(
                        path.to_owned(),
                        "scenario name is empty".to_owned(),
                    ),
                )
            } else {
                Ok(s)
            }
        },
    }
}

/// A file of a directory: where it is, what its name ends with, and its text or why that could not
/// be read.
#[derive(Debug, PartialEq, Eq)]
pub struct DirEntry {
    pub path: String,
    pub extension: String,
    pub content: Result<String, String>,
}

pub struct EntryView {
    pub path: Seq<char>,
    pub extension: Seq<char>,
    pub content: Result<Seq<char>, Seq<char>>,
}

impl View for DirEntry {
    type V = EntryView;

    open spec fn view(&self) -> EntryView {
        EntryView {
            path: self.path@,
            extension: self.extension@,
            content: match self.content {
                Ok(s) => Ok(s@),
                Err(e) => Err(e@),
            },
        }
    }
}

/// Whether a file with this extension is a scenario file.
pub open spec fn scenario_extension(extension: Seq<char>) -> bool {
    extension == "yaml"@ || extension == "yml"@
}

/// Tells scenario files from others.
pub fn is_scenario_extension(extension: &str) -> (r: bool)
    ensures
        r == scenario_extension(extension@),
{
    same(extension, "yaml") || same(extension, "yml")
}

/// The scenario in a file of a directory.
pub open spec fn entry_scenario(e: EntryView) -> Result<ScenarioView, ErrorView> {
    match e.content {
        Err(reason) => Err(ErrorView::Io(reason)),
        Ok(raw) => file_scenario(e.path, raw),
    }
}

/// The scenarios of the scenario files among the entries, in their order, or the first error.
pub open spec fn found(entries: Seq<EntryView>) -> Result<Seq<ScenarioView>, ErrorView>
    decreases entries.len(),
{
    if entries.len() == 0 {
        Ok(Seq::empty())
    } else {
        match found(entries.drop_last()) {
            Err(e) => Err(e),
            Ok(list) => if !scenario_extension(entries.last().extension) {
                Ok(list)
            } else {
                match entry_scenario(entries.last()) {
                    Err(e) => Err(e),
                    Ok(s) => Ok(list.push(s)),
                }
            },
        }
    }
}

proof fn found_error_stays(entries: Seq<EntryView>, upto: int)
    requires
        0 <= upto <= entries.len(),
        found(entries.take(upto)) is Err,
    ensures
        found(entries) == found(entries.take(upto)),
    decreases entries.len(),
{
    if upto == entries.len() {
        assert(entries.take(upto) =~= entries);
    } else {
        assert(entries.drop_last().take(upto) =~= entries.take(upto));
        found_error_stays(entries.drop_last(), upto);
    }
}

// ---------------------------------------------------------------------------
// Order
// ---------------------------------------------------------------------------

/// Whether scenarios stand in the order of their names.
pub open spec fn ordered(list: Seq<ScenarioView>) -> bool {
    forall|i: int, j: int|
        0 <= i <= j < list.len() ==> text_le((#[trigger] list[i]).name, (#[trigger] list[j]).name)
}

/// The scenarios with a given name.
pub open spec fn named(list: Seq<ScenarioView>, name: Seq<char>) -> Seq<ScenarioView> {
    list.filter(|s: ScenarioView| s.name == name)
}

/// Whether `sorted` holds the scenarios of `list` in the order of their names, those with the same
/// name in the order in which they came.
pub open spec fn sorted_from(list: Seq<ScenarioView>, sorted: Seq<ScenarioView>) -> bool {
    &&& ordered(sorted)
    &&& forall|name: Seq<char>| named(sorted, name) == #[trigger] named(list, name)
}

/// A scenario put behind those that come no later and before those that do.
proof fn insert_keeps_order(sorted: Seq<ScenarioView>, x: ScenarioView, p: int)
    requires
        ordered(sorted),
        0 <= p <= sorted.len(),
        forall|i: int| 0 <= i < p ==> text_le((#[trigger] sorted[i]).name, x.name),
        forall|i: int| p <= i < sorted.len() ==> !text_le((#[trigger] sorted[i]).name, x.name),
    ensures
        ordered(sorted.insert(p, x)),
        forall|name: Seq<char>|
            #[trigger] named(sorted.insert(p, x), name) == if x.name == name {
                named(sorted, name).push(x)
            } else {
                named(sorted, name)
            },
{
    let out = sorted.insert(p, x);
    assert forall|i: int, j: int| 0 <= i <= j < out.len() implies text_le(
        (#[trigger] out[i]).name,
        (#[trigger] out[j]).name,
    ) by {
        let a = if i < p {
            i
        } else {
            i - 1
        };
        let b = if j < p {
            j
        } else {
            j - 1
        };
        if i == p && j == p {
            text_le_total(x.name, x.name);
        } else if i == p {
            assert(out[j] == sorted[b]);
            text_le_total(x.name, sorted[b].name);
        } else if j == p {
            assert(out[i] == sorted[a]);
        } else {
            assert(out[i] == sorted[a] && out[j] == sorted[b]);
        }
    }
    assert forall|name: Seq<char>|
        #[trigger] named(out, name) == if x.name == name {
            named(sorted, name).push(x)
        } else {
            named(sorted, name)
        } by {
        let pred = |s: ScenarioView| s.name == name;
        let head = sorted.take(p);
        let tail = sorted.skip(p);
        assert(sorted =~= head + tail);
        assert(out =~= (head + seq![x]) + tail);
        Seq::filter_distributes_over_add(head, tail, pred);
        Seq::filter_distributes_over_add(head + seq![x], tail, pred);
        Seq::filter_distributes_over_add(head, seq![x], pred);
        assert(seq![x].filter(pred) =~= if x.name == name {
            seq![x]
        } else {
            Seq::empty()
        }) by {
            reveal(Seq::filter);
            assert(seq![x].drop_last() =~= Seq::<ScenarioView>::empty());
            assert(Seq::<ScenarioView>::empty().filter(pred) =~= Seq::empty());
        }
        if x.name == name {
            assert forall|i: int| 0 <= i < tail.len() implies !pred(#[trigger] tail[i]) by {
                assert(tail[i] == sorted[p + i]);
                text_le_total(x.name, x.name);
            }
            assert(tail.all(|s: ScenarioView| !pred(s)));
            tail.lemma_all_neg_filter_empty(pred);
            assert(tail.filter(pred) =~= Seq::empty());
            assert(out.filter(pred) =~= sorted.filter(pred).push(x));
        } else {
            assert(out.filter(pred) =~= sorted.filter(pred));
        }
    }
}

proof fn named_push(list: Seq<ScenarioView>, x: ScenarioView, name: Seq<char>)
    ensures
        named(list.push(x), name) == if x.name == name {
            named(list, name).push(x)
        } else {
            named(list, name)
        },
{
    reveal(Seq::filter);
    assert(list.push(x).drop_last() =~= list);
}

/// Puts a scenario into a list in its place.
fn place(sorted: &mut Vec<ScenarioFile>, s: ScenarioFile)
    requires
        ordered(views(old(sorted)@)),
    ensures
        ordered(views(final(sorted)@)),
        final(sorted)@.len() == old(sorted)@.len() + 1,
        forall|name: Seq<char>|
            #[trigger] named(views(final(sorted)@), name) == if s@.name == name {
                named(views(old(sorted)@), name).push(s@)
            } else {
                named(views(old(sorted)@), name)
            },
{
    let ghost list = views(sorted@);
    let mut p: usize = sorted.len();
    while p > 0 && !not_after(sorted[p - 1].name.as_str(), s.name.as_str())
        invariant
            p <= sorted@.len(),
            list == views(sorted@),
            forall|i: int| p <= i < list.len() ==> !text_le((#[trigger] list[i]).name, s@.name),
        decreases p,
    {
        assert(list[p - 1] == sorted@[p - 1]@);
        p -= 1;
    }
    proof {
        if p > 0 {
            assert(list[p - 1] == sorted@[p - 1]@);
            assert forall|i: int| 0 <= i < p implies text_le((#[trigger] list[i]).name, s@.name) by {
                text_le_transitive(list[i].name, list[p - 1].name, s@.name);
            }
        }
        insert_keeps_order(list, s@, p as int);
        assert(views(sorted@.insert(p as int, s)) =~= list.insert(p as int, s@));
    }
    sorted.insert(p, s);
}

/// What loading several scenarios stands for.
pub open spec fn loads(
    r: Result<Vec<ScenarioFile>, TestkitError>,
    expected: Result<Seq<ScenarioView>, ErrorView>,
) -> bool {
    match (r, expected) {
        (Ok(list), Ok(all)) => list@.len() == all.len() && sorted_from(all, views(list@)),
        (Err(e), Err(reason)) => e@ == reason,
        _ => false,
    }
}

/// Loads the scenario files among the entries of a directory, in the order of their names.
pub fn load_scenario_dir(entries: &Vec<DirEntry>) -> (r: Result<Vec<ScenarioFile>, TestkitError>)
    ensures
        loads(r, found(views(entries@))),
{
    let ghost all = views(entries@);
    let ghost mut seen: Seq<ScenarioView> = Seq::empty();
    let mut list: Vec<ScenarioFile> = Vec::new();
    let mut i: usize = 0;
    assert(all.take(0) =~= Seq::<EntryView>::empty());
    while i < entries.len()
        invariant
            i <= entries@.len(),
            all == views(entries@),
            found(all.take(i as int)) == Ok::<Seq<ScenarioView>, ErrorView>(seen),
            sorted_from(seen, views(list@)),
            list@.len() == seen.len(),
        decreases entries@.len() - i,
    {
        let entry = &entries[i];
        assert(all[i as int] == entry@);
        assert(all.take(i + 1).drop_last() =~= all.take(i as int));
        if is_scenario_extension(entry.extension.as_str()) {
            let loaded = match &entry.content {
                Err(reason) => Err(TestkitError::Io(reason.clone())),
                Ok(raw) => load_scenario(entry.path.as_str(), raw.as_str()),
            };
            match loaded {
                Err(e) => {
                    proof {
                        found_error_stays(all, i + 1);
                    }
                    return Err(e);
                },
                Ok(s) => {
                    let ghost before = seen;
                    let ghost x = s@;
                    proof {
                        seen = seen.push(x);
                    }
                    place(&mut list, s);
                    assert forall|name: Seq<char>| named(views(list@), name) == #[trigger] named(
                        seen,
                        name,
                    ) by {
                        named_push(before, x, name);
                    }
                },
            }
        }
        i += 1;
    }
    assert(all.take(i as int) =~= all);
    Ok(list)
}

/// Sorting loses no scenario and adds none.
pub proof fn sorting_keeps_scenarios(
    list: Seq<ScenarioView>,
    sorted: Seq<ScenarioView>,
    s: ScenarioView,
)
    requires
        sorted_from(list, sorted),
    ensures
        list.contains(s) == sorted.contains(s),
{
    let pred = |x: ScenarioView| x.name == s.name;
    assert(named(sorted, s.name) == named(list, s.name));
    if list.contains(s) {
        let i = choose|i: int| 0 <= i < list.len() && list[i] == s;
        list.lemma_filter_contains(pred, i);
        sorted.lemma_filter_contains_rev(pred, s);
    }
    if sorted.contains(s) {
        let i = choose|i: int| 0 <= i < sorted.len() && sorted[i] == s;
        sorted.lemma_filter_contains(pred, i);
        list.lemma_filter_contains_rev(pred, s);
    }
}

// ---------------------------------------------------------------------------
// The set of scenarios to run
// ---------------------------------------------------------------------------

/// Loads the scenarios of a directory, of which there must be some. `entries` is the listing, or
/// why the directory could not be listed.
pub fn resolve(dir: &str, entries: &Result<Vec<DirEntry>, String>) -> (r: Result<
    Vec<ScenarioFile>,
    String,
>)
    ensures
        match *entries {
            Err(_) => r is Err && r->Err_0@ == "loading scenarios from "@ + dir@,
            Ok(list) => match found(views(list@)) {
                Err(_) => r is Err && r->Err_0@ == "loading scenarios from "@ + dir@,
                Ok(all) => if all.len() == 0 {
                    r is Err && r->Err_0@ == "no scenarios found in "@ + dir@
                } else {
                    r is Ok && r->Ok_0@.len() == all.len() && sorted_from(all, views(r->Ok_0@))
                },
            },
        },
{
    let mut failed = "loading scenarios from ".to_owned();
    failed.append(dir);
    match entries {
        Err(_) => Err(failed),
        Ok(list) => match load_scenario_dir(list) {
            Err(_) => Err(failed),
            Ok(scenarios) => {
                if scenarios.len() == 0 {
                    let mut m = "no scenarios found in ".to_owned();
                    m.append(dir);
                    Err(m)
                } else {
                    Ok(scenarios)
                }
            },
        },
    }
}

// ---------------------------------------------------------------------------
// Laws
// ---------------------------------------------------------------------------

/// A file loads as what it declares, unless the name is nothing but white space: that is refused,
/// with the path of the file. A file that declares no scenario is refused with the reason.
pub proof fn files_load_as_declared(
    path: Seq<char>,
    raw: Seq<char>,
    s: ScenarioView,
    reason: Seq<char>,
)
    ensures
        scenario_text(raw) == Ok::<ScenarioView, Seq<char>>(s) && !all_white(s.name)
            ==> file_scenario(path, raw) == Ok::<ScenarioView, ErrorView>(s),
        scenario_text(raw) == Ok::<ScenarioView, Seq<char>>(s) && all_white(s.name) ==> (
        file_scenario(path, raw) matches Err(ErrorView::InvalidScenario(p, why)) && p == path && why
            == "scenario name is empty"@),
        scenario_text(raw) == Err::<ScenarioView, Seq<char>>(reason) ==> file_scenario(path, raw)
            == Err::<ScenarioView, ErrorView>(ErrorView::Yaml(reason)),
{
    trimming_takes_white_space(s.name);
}

/// A directory loads where each of its files that end in `yaml` or `yml` does. Then every one of
/// these files has its scenario, every scenario is that of one of these files, and there are as many
/// of the one as of the other.
pub proof fn directories_load_every_scenario_file(entries: Seq<EntryView>, i: int)
    ensures
        match found(entries) {
            Ok(list) => {
                &&& 0 <= i < entries.len() && (entries[i].extension == "yaml"@
                    || entries[i].extension == "yml"@) ==> (entry_scenario(entries[i]) matches Ok(s)
                    && list.contains(s))
                &&& 0 <= i < list.len() ==> exists|k: int|
                    0 <= k < entries.len() && scenario_extension(
                        (#[trigger] entries[k]).extension,
                    ) && entry_scenario(entries[k]) == Ok::<ScenarioView, ErrorView>(list[i])
                &&& list.len() == entries.filter(
                    |e: EntryView| e.extension == "yaml"@ || e.extension == "yml"@,
                ).len()
            },
            Err(reason) => exists|k: int|
                {
                    &&& 0 <= k < entries.len()
                    &&& (#[trigger] entries[k]).extension == "yaml"@ || entries[k].extension
                        == "yml"@
                    &&& entry_scenario(entries[k]) == Err::<ScenarioView, ErrorView>(reason)
                    &&& found(entries.take(k)) is Ok
                },
        },
    decreases entries.len(),
{
    reveal(Seq::filter);
    if entries.len() > 0 {
        let head = entries.drop_last();
        let last = entries.last();
        directories_load_every_scenario_file(head, i);
        match found(head) {
            Ok(list) => {
                assert(entries.take(head.len() as int) =~= head);
                if scenario_extension(last.extension) {
                    match entry_scenario(last) {
                        Ok(s) => {
                            let all = list.push(s);
                            assert(all[list.len() as int] == s);
                            if 0 <= i < head.len() && list.contains(entry_scenario(head[i])->Ok_0) {
                                let x = entry_scenario(head[i])->Ok_0;
                                let k = choose|k: int| 0 <= k < list.len() && list[k] == x;
                                assert(all[k] == x);
                            }
                            if i == list.len() {
                                assert(entries[head.len() as int] == last);
                            } else if 0 <= i < list.len() {
                                let k = choose|k: int|
                                    0 <= k < head.len() && scenario_extension(
                                        (#[trigger] head[k]).extension,
                                    ) && entry_scenario(head[k]) == Ok::<ScenarioView, ErrorView>(
                                        list[i],
                                    );
                                assert(entries[k] == head[k]);
                            }
                        },
                        Err(e) => {
                            assert(entries[head.len() as int] == last);
                        },
                    }
                } else if 0 <= i < list.len() {
                    let k = choose|k: int|
                        0 <= k < head.len() && scenario_extension(
                            (#[trigger] head[k]).extension,
                        ) && entry_scenario(head[k]) == Ok::<ScenarioView, ErrorView>(list[i]);
                    assert(entries[k] == head[k]);
                }
            },
            Err(reason) => {
                let k = choose|k: int|
                    {
                        &&& 0 <= k < head.len()
                        &&& (#[trigger] head[k]).extension == "yaml"@ || head[k].extension == "yml"@
                        &&& entry_scenario(head[k]) == Err::<ScenarioView, ErrorView>(reason)
                        &&& found(head.take(k)) is Ok
                    };
                assert(entries[k] == head[k]);
                assert(entries.take(k) =~= head.take(k));
            },
        }
    }
}

/// A file that cannot be read, where it is a scenario file, is reported as such.
pub proof fn unreadable_files_are_reported(e: EntryView, reason: Seq<char>, raw: Seq<char>)
    ensures
        e.content == Err::<Seq<char>, Seq<char>>(reason) ==> entry_scenario(e) == Err::<
            ScenarioView,
            ErrorView,
        >(ErrorView::Io(reason)),
        e.content == Ok::<Seq<char>, Seq<char>>(raw) ==> entry_scenario(e) == file_scenario(
            e.path,
            raw,
        ),
{
}

} // verus!
