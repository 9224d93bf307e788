//! Submodule configuration logic: folding `(section, key, value)` entries
//! of a repository's module configuration into per-module records, keyed
//! by section name in insertion order with unique names and URLs, and
//! deriving a remote name from a module URL.

use vstd::prelude::*;
use vstd::string::{StrSliceExecFns, StringExecFns};

verus! {

/// The mathematical shape of one submodule's configuration.
pub ghost struct ModuleModel {
    pub path: Seq<char>,
    pub branch: Seq<char>,
    pub url: Seq<Seq<char>>,
}

/// One submodule's configuration: its working-tree path, the branch it
/// tracks, and its URLs in first-seen order without duplicates.
#[derive(Debug)]
pub struct Module {
    pub path: String,
    pub branch: String,
    pub url: Vec<String>,
}

/// The record every module starts from.
pub open spec fn empty_module() -> ModuleModel {
    ModuleModel { path: Seq::empty(), branch: Seq::empty(), url: Seq::empty() }
}

impl Module {
    pub open spec fn model(self) -> ModuleModel {
        ModuleModel { path: self.path@, branch: self.branch@, url: self.url.deep_view() }
    }

    /// The URLs are pairwise distinct.
    pub open spec fn wf(self) -> bool {
        forall|i: int, j: int|
            0 <= i < j < self.model().url.len() ==> self.model().url[i] != self.model().url[j]
    }
}

impl Default for Module {
    /// A module with no configuration yet.
    fn default() -> (r: Module)
        ensures
            r.model() == empty_module(),
            r.wf(),
    {
        let r = Module { path: String::new(), branch: String::new(), url: Vec::new() };
        proof {
            assert(r.url.deep_view() =~= Seq::<Seq<char>>::empty());
        }
        r
    }
}

/// The configuration keys a module record understands.
pub open spec fn known_key(key: Seq<char>) -> bool {
    key == "branch"@ || key == "path"@ || key == "url"@
}

/// How one `(key, value)` entry changes a module record: `branch` and
/// `path` are overwritten, a `url` is appended unless already present,
/// and an unknown key changes nothing.
pub open spec fn apply_entry(m: ModuleModel, key: Seq<char>, value: Seq<char>) -> ModuleModel {
    if key == "branch"@ {
        ModuleModel { branch: value, ..m }
    } else if key == "path"@ {
        ModuleModel { path: value, ..m }
    } else if key == "url"@ {
        if m.url.contains(value) {
            m
        } else {
            ModuleModel { url: m.url.push(value), ..m }
        }
    } else {
        m
    }
}

/// Compare two strings by their characters.
fn str_eq(a: &str, b: &str) -> (r: bool)
    ensures
        r == (a@ == b@),
{
    a.to_owned() == b.to_owned()
}

/// Whether one of the strings has exactly these characters.
fn vec_contains_string(v: &Vec<String>, value: &str) -> (r: bool)
    ensures
        r == v.deep_view().contains(value@),
{
    let mut i: usize = 0;
    while i < v.len()
        invariant
            i <= v@.len(),
            forall|j: int| 0 <= j < i ==> v.deep_view()[j] != value@,
        decreases v@.len() - i,
    {
        if v[i] == value.to_owned() {
            assert(v.deep_view()[i as int] == value@);
            return true;
        }
        i = i + 1;
    }
    proof {
        if v.deep_view().contains(value@) {
            let j = choose|j: int|
                0 <= j < v.deep_view().len() && v.deep_view()[j] == value@;
            assert(false);
        }
    }
    false
}

/// Apply one configuration entry to a module record. Returns whether the
/// key was recognized; an unknown key leaves the record unchanged so the
/// caller can report it.
pub fn set_val(submod: &mut Module, key: &str, value: &str) -> (recognized: bool)
    ensures
        final(submod).model() == apply_entry(old(submod).model(), key@, value@),
        recognized == known_key(key@),
        old(submod).wf() ==> final(submod).wf(),
{
    if str_eq(key, "branch") {
        submod.branch = value.to_owned();
        true
    } else if str_eq(key, "path") {
        submod.path = value.to_owned();
        true
    } else if str_eq(key, "url") {
        if !vec_contains_string(&submod.url, value) {
            let ghost pre = submod.url.deep_view();
            submod.url.push(value.to_owned());
            proof {
                assert(submod.url.deep_view() =~= pre.push(value@));
                if old(submod).wf() {
                    assert forall|i: int, j: int|
                        0 <= i < j < submod.model().url.len() implies submod.model().url[i]
                        != submod.model().url[j] by {
                        if j == pre.len() as int {
                            if pre[i] == value@ {
                                assert(pre.contains(value@));
                            }
                        } else {
                            assert(old(submod).model().url[i] != old(submod).model().url[j]);
                            assert(old(submod).model().url == pre);
                        }
                    }
                }
            }
        }
        true
    } else {
        false
    }
}

/// One named module record of the table.
#[derive(Debug)]
pub struct ModuleEntry {
    pub name: String,
    pub module: Module,
}

/// The module records in first-seen order, with unique names.
#[derive(Debug)]
pub struct ModuleTable {
    pub entries: Vec<ModuleEntry>,
}

/// Where a name first occurs in a table model, scanning from `i`; the
/// length when it does not occur.
pub open spec fn table_name_index(
    t: Seq<(Seq<char>, ModuleModel)>,
    name: Seq<char>,
    i: int,
) -> int
    decreases t.len() - i,
    when 0 <= i <= t.len()
{
    if i >= t.len() {
        t.len() as int
    } else if t[i].0 == name {
        i
    } else {
        table_name_index(t, name, i + 1)
    }
}

pub proof fn lemma_table_name_index_bounds(t: Seq<(Seq<char>, ModuleModel)>, name: Seq<char>, i: int)
    requires
        0 <= i <= t.len(),
    ensures
        i <= table_name_index(t, name, i) <= t.len(),
        table_name_index(t, name, i) < t.len() ==> t[table_name_index(t, name, i)].0 == name,
    decreases t.len() - i,
{
    if i < t.len() && t[i].0 != name {
        lemma_table_name_index_bounds(t, name, i + 1);
    }
}

/// How one `(name, key, value)` configuration entry changes the table:
/// the entry is folded into the named record where one exists, else into
/// a fresh record appended at the end.
pub open spec fn table_apply(
    t: Seq<(Seq<char>, ModuleModel)>,
    name: Seq<char>,
    key: Seq<char>,
    value: Seq<char>,
) -> Seq<(Seq<char>, ModuleModel)> {
    let i = table_name_index(t, name, 0);
    if i < t.len() {
        t.update(i, (name, apply_entry(t[i].1, key, value)))
    } else {
        t.push((name, apply_entry(empty_module(), key, value)))
    }
}

impl ModuleTable {
    pub open spec fn model(self) -> Seq<(Seq<char>, ModuleModel)> {
        Seq::new(
            self.entries@.len(),
            |i: int| (self.entries@[i].name@, self.entries@[i].module.model()),
        )
    }

    /// Names are pairwise distinct and every record is well formed.
    pub open spec fn wf(self) -> bool {
        &&& forall|i: int, j: int|
            0 <= i < j < self.model().len() ==> self.model()[i].0 != self.model()[j].0
        &&& forall|i: int| 0 <= i < self.entries@.len() ==> (#[trigger] self.entries@[i]).module.wf()
    }

    /// An empty table.
    pub fn new() -> (r: ModuleTable)
        ensures
            r.model() == Seq::<(Seq<char>, ModuleModel)>::empty(),
            r.wf(),
    {
        let r = ModuleTable { entries: Vec::new() };
        proof {
            assert(r.model() =~= Seq::<(Seq<char>, ModuleModel)>::empty());
        }
        r
    }

    /// How many module records the table holds.
    pub fn len(&self) -> (r: usize)
        ensures
            r == self.model().len(),
    {
        self.entries.len()
    }

    /// Fold one configuration entry into the table. Returns whether the
    /// key was recognized.
    pub fn upsert(&mut self, name: &str, key: &str, value: &str) -> (recognized: bool)
        requires
            old(self).wf(),
        ensures
            final(self).model() == table_apply(old(self).model(), name@, key@, value@),
            recognized == known_key(key@),
            final(self).wf(),
    {
        let ghost pre = self.model();
        let n = self.entries.len();
        let mut i: usize = 0;
        while i < n
            invariant
                i <= n,
                n == self.entries@.len(),
                self == old(self),
                old(self).wf(),
                table_name_index(pre, name@, 0) == table_name_index(pre, name@, i as int),
                pre == old(self).model(),
            decreases n - i,
        {
            proof {
                lemma_table_name_index_bounds(pre, name@, i as int);
            }
            if str_eq(self.entries[i].name.as_str(), name) {
                assert(pre[i as int].0 == name@);
                assert(table_name_index(pre, name@, 0) == i);
                let mut entry = self.entries.remove(i);
                let recognized = set_val(&mut entry.module, key, value);
                self.entries.insert(i, entry);
                proof {
                    assert forall|k: int| 0 <= k < pre.len() implies self.model()[k] == table_apply(
                        pre,
                        name@,
                        key@,
                        value@,
                    )[k] by {
                        if k < i as int || k > i as int {
                            assert(self.entries@[k] == old(self).entries@[k]);
                        }
                    }
                    assert(self.model() =~= table_apply(pre, name@, key@, value@));
                    assert forall|a: int, b: int|
                        0 <= a < b < self.model().len() implies self.model()[a].0
                        != self.model()[b].0 by {
                        assert(self.model()[a].0 == pre[a].0);
                        assert(self.model()[b].0 == pre[b].0);
                        assert(old(self).model()[a].0 != old(self).model()[b].0);
                    }
                    assert forall|k: int|
                        0 <= k < self.entries@.len() implies (
                        #[trigger] self.entries@[k]).module.wf() by {
                        if k == i as int {
                            assert(old(self).entries@[k].module.wf());
                        } else {
                            assert(self.entries@[k] == old(self).entries@[k]);
                            assert(old(self).entries@[k].module.wf());
                        }
                    }
                }
                return recognized;
            }
            i = i + 1;
        }
        proof {
            lemma_table_name_index_bounds(pre, name@, 0);
            assert(table_name_index(pre, name@, 0) == pre.len());
        }
        let mut module = Module::default();
        let recognized = set_val(&mut module, key, value);
        self.entries.push(ModuleEntry { name: name.to_owned(), module });
        proof {
            assert(self.model() =~= table_apply(pre, name@, key@, value@));
            assert forall|a: int, b: int|
                0 <= a < b < self.model().len() implies self.model()[a].0
                != self.model()[b].0 by {
                if b == pre.len() as int {
                    assert(pre[a].0 != name@) by {
                        if pre[a].0 == name@ {
                            lemma_table_name_index_prefix(pre, name@, a);
                        }
                    }
                    assert(self.model()[a].0 == pre[a].0);
                } else {
                    assert(self.model()[a].0 == pre[a].0);
                    assert(self.model()[b].0 == pre[b].0);
                    assert(old(self).model()[a].0 != old(self).model()[b].0);
                }
            }
            assert forall|k: int|
                0 <= k < self.entries@.len() implies (#[trigger] self.entries@[k]).module.wf() by {
                if k < pre.len() {
                    assert(self.entries@[k] == old(self).entries@[k]);
                    assert(old(self).entries@[k].module.wf());
                }
            }
        }
        recognized
    }
}

/// A name occurring at `j` bounds the scan: the first occurrence is no
/// later than `j`.
pub proof fn lemma_table_name_index_prefix(
    t: Seq<(Seq<char>, ModuleModel)>,
    name: Seq<char>,
    j: int,
)
    requires
        0 <= j < t.len(),
        t[j].0 == name,
    ensures
        table_name_index(t, name, 0) <= j,
    decreases t.len(),
{
    lemma_table_name_index_at_most(t, name, 0, j);
}

pub proof fn lemma_table_name_index_at_most(
    t: Seq<(Seq<char>, ModuleModel)>,
    name: Seq<char>,
    i: int,
    j: int,
)
    requires
        0 <= i <= j < t.len(),
        t[j].0 == name,
    ensures
        table_name_index(t, name, i) <= j,
    decreases t.len() - i,
{
    if i < j && t[i].0 != name {
        lemma_table_name_index_at_most(t, name, i + 1, j);
    }
}

/// A value between double quotes.
pub open spec fn quoted(v: Seq<char>) -> Seq<char> {
    "\""@ + v + "\""@
}

/// One configuration line per URL, in stored order.
pub open spec fn url_lines(urls: Seq<Seq<char>>) -> Seq<char>
    decreases urls.len(),
{
    if urls.len() == 0 {
        Seq::empty()
    } else {
        url_lines(urls.drop_last()) + "\turl = "@ + quoted(urls.last()) + "\n"@
    }
}

/// One module record rendered back in configuration syntax: its section
/// header, then its branch and path when set, then its URLs, then a blank
/// line.
pub open spec fn rendered_module(name: Seq<char>, m: ModuleModel) -> Seq<char> {
    "[submodule "@ + quoted(name) + "]\n"@ + (if m.branch.len() > 0 {
        "\tbranch = "@ + quoted(m.branch) + "\n"@
    } else {
        Seq::<char>::empty()
    }) + (if m.path.len() > 0 {
        "\tpath = "@ + quoted(m.path) + "\n"@
    } else {
        Seq::<char>::empty()
    }) + url_lines(m.url) + "\n"@
}

/// Append `v` between double quotes.
fn append_quoted(acc: &mut String, v: &str)
    ensures
        final(acc)@ == old(acc)@ + quoted(v@),
{
    acc.append("\"");
    acc.append(v);
    acc.append("\"");
}

/// Render one module record back in configuration syntax.
pub fn render_module(entry: &ModuleEntry) -> (r: String)
    ensures
        r@ == rendered_module(entry.name@, entry.module.model()),
{
    let mut r = "[submodule ".to_owned();
    append_quoted(&mut r, entry.name.as_str());
    r.append("]\n");
    if !entry.module.branch.as_str().is_empty() {
        r.append("\tbranch = ");
        append_quoted(&mut r, entry.module.branch.as_str());
        r.append("\n");
    }
    if !entry.module.path.as_str().is_empty() {
        r.append("\tpath = ");
        append_quoted(&mut r, entry.module.path.as_str());
        r.append("\n");
    }
    let ghost head = r@;
    let urls = &entry.module.url;
    let mut i: usize = 0;
    while i < urls.len()
        invariant
            i <= urls@.len(),
            urls == entry.module.url,
            r@ == head + url_lines(urls.deep_view().take(i as int)),
        decreases urls@.len() - i,
    {
        r.append("\turl = ");
        append_quoted(&mut r, urls[i].as_str());
        r.append("\n");
        i = i + 1;
        proof {
            assert(urls.deep_view().take(i as int).drop_last() =~= urls.deep_view().take(i - 1));
            assert(urls.deep_view().take(i as int).last() == urls.deep_view()[i - 1]);
        }
    }
    r.append("\n");
    proof {
        assert(urls.deep_view().take(urls@.len() as int) =~= urls.deep_view());
    }
    r
}

/// Where the first `:` of a string stands, scanning from `i`; the length
/// when there is none.
pub open spec fn colon_index_from(s: Seq<char>, i: int) -> int
    decreases s.len() - i,
    when 0 <= i <= s.len()
{
    if i >= s.len() {
        s.len() as int
    } else if s[i] == ':' {
        i
    } else {
        colon_index_from(s, i + 1)
    }
}

/// Where the segment starting at `i` ends: at the next `:` or `/`, or at
/// the end of the string.
pub open spec fn name_end_from(s: Seq<char>, i: int) -> int
    decreases s.len() - i,
    when 0 <= i <= s.len()
{
    if i >= s.len() {
        s.len() as int
    } else if s[i] == ':' || s[i] == '/' {
        i
    } else {
        name_end_from(s, i + 1)
    }
}

pub proof fn lemma_colon_index_bounds(s: Seq<char>, i: int)
    requires
        0 <= i <= s.len(),
    ensures
        i <= colon_index_from(s, i) <= s.len(),
        colon_index_from(s, i) < s.len() ==> s[colon_index_from(s, i)] == ':',
    decreases s.len() - i,
{
    if i < s.len() && s[i] != ':' {
        lemma_colon_index_bounds(s, i + 1);
    }
}

pub proof fn lemma_name_end_bounds(s: Seq<char>, i: int)
    requires
        0 <= i <= s.len(),
    ensures
        i <= name_end_from(s, i) <= s.len(),
    decreases s.len() - i,
{
    if i < s.len() && !(s[i] == ':' || s[i] == '/') {
        lemma_name_end_bounds(s, i + 1);
    }
}

/// The remote name a module URL yields: the characters between the first
/// `:` and the next `:` or `/` (or the end). For an SSH-style URL such as
/// `git@host:owner/repo` this is the owner.
pub open spec fn remote_name_of(s: Seq<char>) -> Seq<char> {
    let start = colon_index_from(s, 0) + 1;
    s.subrange(start, name_end_from(s, start))
}

/// Derive the remote name from a module URL. The URL must contain a `:`;
/// on one that does not, there is no name to derive.
pub fn get_remote_name_from_url(url: &str) -> (r: &str)
    requires
        url.is_ascii(),
        colon_index_from(url@, 0) < url@.len(),
    ensures
        r@ == remote_name_of(url@),
{
    let len = url.unicode_len();
    let mut i: usize = 0;
    proof {
        lemma_colon_index_bounds(url@, 0);
    }
    loop
        invariant
            url.is_ascii(),
            len == url@.len(),
            0 <= i <= url@.len(),
            colon_index_from(url@, 0) < url@.len(),
            colon_index_from(url@, i as int) == colon_index_from(url@, 0),
            i <= colon_index_from(url@, 0),
        ensures
            i == colon_index_from(url@, 0),
        decreases url@.len() - i,
    {
        if url.get_char(i) == ':' {
            break;
        }
        proof {
            lemma_colon_index_bounds(url@, i + 1);
        }
        i = i + 1;
    }
    let start = i + 1;
    let mut j = start;
    proof {
        lemma_name_end_bounds(url@, start as int);
    }
    loop
        invariant
            url.is_ascii(),
            len == url@.len(),
            start <= j <= url@.len(),
            start == colon_index_from(url@, 0) + 1,
            name_end_from(url@, j as int) == name_end_from(url@, start as int),
            j <= name_end_from(url@, start as int),
        ensures
            j == name_end_from(url@, start as int),
        decreases url@.len() - j,
    {
        if j == len {
            break;
        }
        let c = url.get_char(j);
        if c == ':' || c == '/' {
            break;
        }
        proof {
            lemma_name_end_bounds(url@, j + 1);
        }
        j = j + 1;
    }
    url.substring_ascii(start, j)
}

} // verus!
