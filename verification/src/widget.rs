use std::collections::HashMap;
use vstd::prelude::*;
use vstd::string::StrSliceExecFns;
use vstd::string::StringExecFns;

verus! {

/// Whether two string slices hold the same characters.
pub fn str_eq(a: &str, b: &str) -> (r: bool)
    ensures
        r == (a@ == b@),
{
    let n = a.unicode_len();
    if n != b.unicode_len() {
        return false;
    }
    let mut i: usize = 0;
    while i < n
        invariant
            n == a@.len(),
            n == b@.len(),
            0 <= i <= n,
            forall|j: int| 0 <= j < i ==> a@[j] == b@[j],
        decreases n - i,
    {
        if a.get_char(i) != b.get_char(i) {
            return false;
        }
        i += 1;
    }
    proof {
        assert(a@ =~= b@);
    }
    true
}

/// Lexicographic order on character sequences, by code point: the ascending
/// order of a sorted name list.
pub open spec fn chars_le(a: Seq<char>, b: Seq<char>) -> bool
    decreases a.len(),
{
    if a.len() == 0 {
        true
    } else if b.len() == 0 {
        false
    } else if (a[0] as u32) == (b[0] as u32) {
        chars_le(a.drop_first(), b.drop_first())
    } else {
        (a[0] as u32) < (b[0] as u32)
    }
}

/// Ascending lexicographic order, pairwise.
pub open spec fn sorted_ascending(s: Seq<Seq<char>>) -> bool {
    forall|i: int, j: int| 0 <= i < j < s.len() ==> chars_le(s[i], s[j])
}

/// A shared prefix of equal code points does not decide the order: it is
/// decided past it.
proof fn lemma_chars_le_common_prefix(a: Seq<char>, b: Seq<char>, i: int)
    requires
        0 <= i <= a.len(),
        i <= b.len(),
        forall|j: int| 0 <= j < i ==> (a[j] as u32) == (b[j] as u32),
    ensures
        chars_le(a, b) == chars_le(a.skip(i), b.skip(i)),
    decreases i,
{
    if i > 0 {
        assert((a[0] as u32) == (b[0] as u32));
        let a1 = a.drop_first();
        let b1 = b.drop_first();
        assert forall|j: int| 0 <= j < i - 1 implies (a1[j] as u32) == (b1[j] as u32) by {
            assert(a1[j] == a[j + 1]);
            assert(b1[j] == b[j + 1]);
            assert((a[j + 1] as u32) == (b[j + 1] as u32));
        }
        lemma_chars_le_common_prefix(a1, b1, i - 1);
        assert(a1.skip(i - 1) =~= a.skip(i));
        assert(b1.skip(i - 1) =~= b.skip(i));
    } else {
        assert(a.skip(0) =~= a);
        assert(b.skip(0) =~= b);
    }
}

/// Any two sequences are ordered one way or the other.
pub proof fn lemma_chars_le_total(a: Seq<char>, b: Seq<char>)
    ensures
        chars_le(a, b) || chars_le(b, a),
    decreases a.len(),
{
    if a.len() == 0 {
        assert(chars_le(a, b));
    } else if b.len() == 0 {
        assert(chars_le(b, a));
    } else if (a[0] as u32) == (b[0] as u32) {
        lemma_chars_le_total(a.drop_first(), b.drop_first());
        assert(chars_le(a, b) == chars_le(a.drop_first(), b.drop_first()));
        assert(chars_le(b, a) == chars_le(b.drop_first(), a.drop_first()));
    } else {
        if (a[0] as u32) < (b[0] as u32) {
            assert(chars_le(a, b));
        } else {
            assert(chars_le(b, a));
        }
    }
}

/// Lexicographic order is transitive.
pub proof fn lemma_chars_le_trans(a: Seq<char>, b: Seq<char>, c: Seq<char>)
    requires
        chars_le(a, b),
        chars_le(b, c),
    ensures
        chars_le(a, c),
    decreases a.len(),
{
    if a.len() > 0 && b.len() > 0 && c.len() > 0 && (a[0] as u32) == (b[0] as u32) && (
    b[0] as u32) == (c[0] as u32) {
        lemma_chars_le_trans(a.drop_first(), b.drop_first(), c.drop_first());
    }
}

/// Whether `a` orders at or before `b` lexicographically.
pub fn str_le(a: &str, b: &str) -> (r: bool)
    ensures
        r == chars_le(a@, b@),
{
    let na = a.unicode_len();
    let nb = b.unicode_len();
    let mut i: usize = 0;
    while i < na && i < nb
        invariant
            na == a@.len(),
            nb == b@.len(),
            0 <= i <= na,
            i <= nb,
            forall|j: int| 0 <= j < i ==> (a@[j] as u32) == (b@[j] as u32),
        decreases na - i,
    {
        let ca32 = a.get_char(i) as u32;
        let cb32 = b.get_char(i) as u32;
        if ca32 != cb32 {
            proof {
                lemma_chars_le_common_prefix(a@, b@, i as int);
                assert(a@.skip(i as int)[0] == a@[i as int]);
                assert(b@.skip(i as int)[0] == b@[i as int]);
            }
            return ca32 < cb32;
        }
        i += 1;
    }
    proof {
        lemma_chars_le_common_prefix(a@, b@, i as int);
    }
    i == na
}

/// Inserts a name into an ascending list, after any equal names.
fn insert_sorted(names: &mut Vec<String>, value: String)
    requires
        sorted_ascending(string_views(old(names)@)),
    ensures
        sorted_ascending(string_views(final(names)@)),
        string_views(final(names)@).to_multiset() == string_views(old(names)@).to_multiset()
            .insert(value@),
{
    broadcast use vstd::seq_lib::group_to_multiset_ensures;

    let n = names.len();
    let mut idx: usize = 0;
    while idx < n && str_le(names[idx].as_str(), value.as_str())
        invariant
            n == names@.len(),
            0 <= idx <= n,
            forall|j: int| 0 <= j < idx ==> chars_le(names@[j]@, value@),
        decreases n - idx,
    {
        idx += 1;
    }
    let ghost pre = string_views(names@);
    names.insert(idx, value);
    proof {
        broadcast use vstd::seq_lib::group_to_multiset_ensures;

        assert(string_views(names@) =~= pre.insert(idx as int, value@));
        let sv = pre.insert(idx as int, value@);
        pre.insert_ensures(idx as int, value@);
        assert forall|x: int, y: int| 0 <= x < y < sv.len() implies chars_le(sv[x], sv[y]) by {
            if x == idx as int {
                lemma_chars_le_total(pre[idx as int], value@);
                assert(chars_le(value@, pre[idx as int]));
                if y - 1 > idx as int {
                    lemma_chars_le_trans(value@, pre[idx as int], pre[y - 1]);
                }
            } else if x < idx as int && y == idx as int {
                assert(chars_le(pre[x], value@));
            }
        }
    }
}

/// Sorts a name list ascending; exactly the same names remain.
fn sort_names(names: &mut Vec<String>)
    ensures
        sorted_ascending(string_views(final(names)@)),
        string_views(final(names)@).to_multiset() == string_views(old(names)@).to_multiset(),
{
    broadcast use vstd::seq_lib::group_to_multiset_ensures;

    let mut sorted_names: Vec<String> = Vec::new();
    let n = names.len();
    let mut i: usize = 0;
    proof {
        assert(string_views(sorted_names@) =~= string_views(names@).take(0));
    }
    while i < n
        invariant
            n == names@.len(),
            0 <= i <= n,
            *names == *old(names),
            sorted_ascending(string_views(sorted_names@)),
            string_views(sorted_names@).to_multiset() == string_views(names@).take(
                i as int,
            ).to_multiset(),
        decreases n - i,
    {
        let cloned = names[i].clone();
        let ghost pre_sorted = string_views(sorted_names@);
        insert_sorted(&mut sorted_names, cloned);
        proof {
            broadcast use vstd::seq_lib::group_to_multiset_ensures;

            let views = string_views(names@);
            assert(cloned@ == views[i as int]);
            assert(string_views(sorted_names@).to_multiset() == pre_sorted.to_multiset().insert(
                views[i as int],
            ));
            assert(views.take(i + 1) =~= views.take(i as int).push(views[i as int]));
            assert(views.take(i as int).push(views[i as int]).to_multiset() == views.take(
                i as int,
            ).to_multiset().insert(views[i as int]));
            assert(views.take(i + 1).to_multiset() == views.take(i as int).to_multiset().insert(
                views[i as int],
            ));
        }
        i += 1;
    }
    proof {
        assert(string_views(names@).take(n as int) =~= string_views(names@));
    }
    *names = sorted_names;
}

/// The window configuration a widget's markup declares, produced once by the
/// loading layer and immutable thereafter. Width and height are the declared
/// logical size in pixels; absent `x`/`y` means the centering fallback
/// applies.
#[derive(Clone, Copy, Debug, PartialEq, Eq)]
pub struct WindowConfig {
    pub width: i32,
    pub height: i32,
    pub x: Option<i32>,
    pub y: Option<i32>,
    pub decorations: bool,
    pub transparent: bool,
    pub resizable: bool,
}

impl Default for WindowConfig {
    /// The configuration a widget gets when its markup declares nothing:
    /// an 800 by 600 window, centered, decorated, opaque, resizable.
    fn default() -> (c: WindowConfig)
        ensures
            c == (WindowConfig {
                width: 800,
                height: 600,
                x: None,
                y: None,
                decorations: true,
                transparent: false,
                resizable: true,
            }),
    {
        WindowConfig {
            width: 800,
            height: 600,
            x: None,
            y: None,
            decorations: true,
            transparent: false,
            resizable: true,
        }
    }
}

/// One node of a widget's content tree: a tag with its attributes, children
/// and text. The embedding core never reads it; the loading layer builds it
/// and the rendering layer walks it.
#[derive(Debug)]
pub struct DomNode {
    pub tag_name: String,
    pub attributes: HashMap<String, String>,
    pub children: Vec<DomNode>,
    pub text_content: Option<String>,
}

/// One widget as the loading layer hands it over: its identifier, its window
/// configuration, and its content tree. The body is an opaque pass-through
/// for the rendering layer; the embedding core reads only the configuration.
#[derive(Clone, Debug)]
pub struct WidgetDefinition<Body> {
    pub id: String,
    pub config: WindowConfig,
    pub body: Body,
}

/// The event type the content-rendering layer exchanges with its widgets.
/// The embedding core itself never produces one.
#[derive(Clone, Copy, Debug, PartialEq, Eq)]
pub enum Message {
    Empty,
}

/// One managed widget: its name, whether it is running, and the path of the
/// markup file it was loaded from.
#[derive(Clone, Debug)]
pub struct WidgetState {
    pub name: String,
    pub is_running: bool,
    pub path: String,
}

/// Why a start, stop or toggle command was refused.
#[derive(Clone, Copy, Debug, PartialEq, Eq)]
pub enum WidgetCommandError {
    /// No widget of that name is registered.
    NotFound,
    /// The widget is already running.
    AlreadyRunning,
    /// The widget is not running.
    NotRunning,
}

/// A markup file name carries the widget suffix: it ends in `.ytml`.
pub open spec fn has_ytml_suffix(s: Seq<char>) -> bool {
    s.len() >= 5 && s.subrange(s.len() - 5, s.len() as int) == ".ytml"@
}

/// The widget name a markup file name yields: the file name with the suffix
/// cut off.
pub open spec fn ytml_stem(s: Seq<char>) -> Seq<char> {
    s.subrange(0, s.len() - 5)
}

/// The widget names a directory listing yields, in listing order: the stem of
/// every file name that carries the widget suffix.
pub open spec fn ytml_names(files: Seq<Seq<char>>) -> Seq<Seq<char>>
    decreases files.len(),
{
    if files.len() == 0 {
        Seq::empty()
    } else {
        let rest = ytml_names(files.drop_last());
        if has_ytml_suffix(files.last()) {
            rest.push(ytml_stem(files.last()))
        } else {
            rest
        }
    }
}

/// The views of a sequence of strings.
pub open spec fn string_views(strings: Seq<String>) -> Seq<Seq<char>> {
    strings.map_values(|s: String| s@)
}

/// The names of a sequence of widget entries.
pub open spec fn widget_names(widgets: Seq<WidgetState>) -> Seq<Seq<char>> {
    widgets.map_values(|w: WidgetState| w.name@)
}

/// Cuts the widget suffix off a markup file name; nothing for a file name
/// without it.
pub fn ytml_stem_of(file_name: &String) -> (r: Option<String>)
    ensures
        r is Some <==> has_ytml_suffix(file_name@),
        r matches Some(stem) ==> stem@ == ytml_stem(file_name@),
{
    proof {
        reveal_strlit(".ytml");
    }
    let n = file_name.as_str().unicode_len();
    if n < 5 {
        return None;
    }
    let m = n - 5;
    let c0 = file_name.as_str().get_char(m);
    let c1 = file_name.as_str().get_char(m + 1);
    let c2 = file_name.as_str().get_char(m + 2);
    let c3 = file_name.as_str().get_char(m + 3);
    let c4 = file_name.as_str().get_char(m + 4);
    if c0 == '.' && c1 == 'y' && c2 == 't' && c3 == 'm' && c4 == 'l' {
        proof {
            assert(file_name@.subrange(m as int, n as int) =~= ".ytml"@);
        }
        let stem = file_name.as_str().substring_char(0, m).to_owned();
        Some(stem)
    } else {
        proof {
            if has_ytml_suffix(file_name@) {
                assert(file_name@.subrange(m as int, n as int)[0] == file_name@[m as int]);
                assert(file_name@.subrange(m as int, n as int)[1] == file_name@[m as int + 1]);
                assert(file_name@.subrange(m as int, n as int)[2] == file_name@[m as int + 2]);
                assert(file_name@.subrange(m as int, n as int)[3] == file_name@[m as int + 3]);
                assert(file_name@.subrange(m as int, n as int)[4] == file_name@[m as int + 4]);
            }
        }
        None
    }
}

/// The registry of loaded widgets and their running state. Names are unique:
/// registering a name again replaces its entry.
#[derive(Debug)]
pub struct WidgetManager {
    pub widgets: Vec<WidgetState>,
}

impl WidgetManager {
    /// Names are pairwise distinct.
    pub open spec fn wf(self) -> bool {
        forall|i: int, j: int|
            0 <= i < j < self.widgets@.len() ==> self.widgets@[i].name@ != self.widgets@[j].name@
    }

    /// Some entry carries this name.
    pub open spec fn contains_name(self, name: Seq<char>) -> bool {
        exists|i: int| 0 <= i < self.widgets@.len() && self.widgets@[i].name@ == name
    }

    /// Some entry carries this name and is running.
    pub open spec fn name_running(self, name: Seq<char>) -> bool {
        exists|i: int|
            0 <= i < self.widgets@.len() && self.widgets@[i].name@ == name
                && self.widgets@[i].is_running
    }

    pub fn new() -> (m: WidgetManager)
        ensures
            m.widgets@ == Seq::<WidgetState>::empty(),
            m.wf(),
    {
        WidgetManager { widgets: Vec::new() }
    }

    /// Registers a widget: replaces the entry of the same name if one exists,
    /// appends otherwise. Every entry with another name is kept as it was,
    /// and nothing but the given state is introduced.
    pub fn register(&mut self, state: WidgetState)
        requires
            old(self).wf(),
        ensures
            final(self).wf(),
            final(self).widgets@.len() == old(self).widgets@.len() + (if old(self).contains_name(
                state.name@,
            ) {
                0int
            } else {
                1int
            }),
            exists|i: int|
                0 <= i < final(self).widgets@.len() && final(self).widgets@[i] == state,
            forall|j: int|
                0 <= j < old(self).widgets@.len() && old(self).widgets@[j].name@ != state.name@
                    ==> exists|i: int|
                    0 <= i < final(self).widgets@.len() && final(self).widgets@[i] == old(
                        self,
                    ).widgets@[j],
            forall|i: int|
                0 <= i < final(self).widgets@.len() ==> final(self).widgets@[i] == state || (
                exists|j: int|
                    0 <= j < old(self).widgets@.len() && final(self).widgets@[i] == old(
                        self,
                    ).widgets@[j]),
    {
        let mut found: Option<usize> = None;
        let n = self.widgets.len();
        let mut i: usize = 0;
        while i < n
            invariant
                n == self.widgets@.len(),
                0 <= i <= n,
                match found {
                    Some(fi) => fi < i && self.widgets@[fi as int].name@ == state.name@,
                    None => forall|j: int|
                        0 <= j < i ==> self.widgets@[j].name@ != state.name@,
                },
            decreases n - i,
        {
            if self.widgets[i].name == state.name {
                found = Some(i);
            }
            i += 1;
        }
        match found {
            Some(fi) => {
                self.widgets[fi] = state;
                proof {
                    assert(self.widgets@[fi as int] == state);
                    assert(old(self).widgets@[fi as int].name@ == state.name@);
                    assert(old(self).contains_name(state.name@));
                    assert forall|i: int|
                        0 <= i < self.widgets@.len() implies self.widgets@[i] == state || (
                    exists|j: int|
                        0 <= j < old(self).widgets@.len() && self.widgets@[i] == old(
                            self,
                        ).widgets@[j]) by {
                        if i != fi as int {
                            assert(self.widgets@[i] == old(self).widgets@[i]);
                        }
                    }
                    assert forall|a: int, b: int|
                        0 <= a < b < self.widgets@.len() implies self.widgets@[a].name@
                        != self.widgets@[b].name@ by {
                        assert(old(self).widgets@[a].name@ != old(self).widgets@[b].name@);
                    }
                    assert forall|j: int|
                        0 <= j < old(self).widgets@.len() && old(self).widgets@[j].name@
                            != state.name@ implies exists|k: int|
                        0 <= k < self.widgets@.len() && self.widgets@[k] == old(
                            self,
                        ).widgets@[j] by {
                        assert(self.widgets@[j] == old(self).widgets@[j]);
                    }
                }
            },
            None => {
                self.widgets.push(state);
                proof {
                    assert(self.widgets@[self.widgets@.len() - 1] == state);
                    assert(!old(self).contains_name(state.name@));
                    assert forall|i: int|
                        0 <= i < self.widgets@.len() implies self.widgets@[i] == state || (
                    exists|j: int|
                        0 <= j < old(self).widgets@.len() && self.widgets@[i] == old(
                            self,
                        ).widgets@[j]) by {
                        if i < old(self).widgets@.len() {
                            assert(self.widgets@[i] == old(self).widgets@[i]);
                        }
                    }
                    assert forall|j: int|
                        0 <= j < old(self).widgets@.len() && old(self).widgets@[j].name@
                            != state.name@ implies exists|k: int|
                        0 <= k < self.widgets@.len() && self.widgets@[k] == old(
                            self,
                        ).widgets@[j] by {
                        assert(self.widgets@[j] == old(self).widgets@[j]);
                    }
                }
            },
        }
    }

    /// Loads the widgets a directory listing names: every file with the
    /// widget suffix is registered, not running, under its stem, with the
    /// file's path; the stems are returned sorted ascending — exactly the
    /// stems of the suffixed files, nothing more and nothing less.
    pub fn load_widgets(&mut self, widget_folder: &str, file_names: &Vec<String>) -> (names: Vec<
        String,
    >)
        requires
            old(self).wf(),
        ensures
            final(self).wf(),
            sorted_ascending(string_views(names@)),
            string_views(names@).to_multiset() == ytml_names(
                string_views(file_names@),
            ).to_multiset(),
            forall|k: int|
                0 <= k < file_names@.len() && has_ytml_suffix(file_names@[k]@) ==> exists|i: int|
                    0 <= i < final(self).widgets@.len() && final(self).widgets@[i].name@
                        == ytml_stem(file_names@[k]@) && final(self).widgets@[i].is_running
                        == false && final(self).widgets@[i].path@ == widget_folder@ + "/"@
                        + file_names@[k]@,
    {
        let mut names: Vec<String> = Vec::new();
        let n = file_names.len();
        let mut k: usize = 0;
        proof {
            assert(string_views(names@) =~= ytml_names(string_views(file_names@).take(0)));
        }
        while k < n
            invariant
                self.wf(),
                n == file_names@.len(),
                0 <= k <= n,
                string_views(names@) == ytml_names(string_views(file_names@).take(k as int)),
                forall|k2: int|
                    0 <= k2 < k && has_ytml_suffix(file_names@[k2]@) ==> exists|i: int|
                        0 <= i < self.widgets@.len() && self.widgets@[i].name@ == ytml_stem(
                            file_names@[k2]@,
                        ) && self.widgets@[i].is_running == false && self.widgets@[i].path@
                            == widget_folder@ + "/"@ + file_names@[k2]@,
            decreases n - k,
        {
            let file_name = &file_names[k];
            let stem = ytml_stem_of(file_name);
            match stem {
                Some(stem) => {
                    let mut path = widget_folder.to_owned();
                    path.append("/");
                    path.append(file_name.as_str());
                    proof {
                        assert(path@ =~= widget_folder@ + "/"@ + file_name@);
                    }
                    let state = WidgetState {
                        name: stem.clone(),
                        is_running: false,
                        path,
                    };
                    let ghost pre = *self;
                    self.register(state);
                    proof {
                        assert forall|k2: int|
                            0 <= k2 < k + 1 && has_ytml_suffix(file_names@[k2]@) implies exists|
                            i: int,
                        |
                            0 <= i < self.widgets@.len() && self.widgets@[i].name@ == ytml_stem(
                                file_names@[k2]@,
                            ) && self.widgets@[i].is_running == false && self.widgets@[i].path@
                                == widget_folder@ + "/"@ + file_names@[k2]@ by {
                            if k2 < k {
                                let i0 = choose|i0: int|
                                    0 <= i0 < pre.widgets@.len() && pre.widgets@[i0].name@
                                        == ytml_stem(file_names@[k2]@)
                                        && pre.widgets@[i0].is_running == false
                                        && pre.widgets@[i0].path@ == widget_folder@ + "/"@
                                        + file_names@[k2]@;
                                if pre.widgets@[i0].name@ != ytml_stem(file_names@[k as int]@) {
                                    assert(exists|i: int|
                                        0 <= i < self.widgets@.len() && self.widgets@[i]
                                            == pre.widgets@[i0]);
                                } else {
                                    assert(ytml_stem(file_names@[k2]@) == ytml_stem(
                                        file_names@[k as int]@,
                                    ));
                                    assert(file_names@[k2]@ =~= ytml_stem(file_names@[k2]@)
                                        + ".ytml"@);
                                    assert(file_names@[k as int]@ =~= ytml_stem(
                                        file_names@[k as int]@,
                                    ) + ".ytml"@);
                                    assert(file_names@[k2]@ == file_names@[k as int]@);
                                }
                            }
                        }
                    }
                    names.push(stem);
                },
                None => {
                },
            }
            proof {
                let files_view = string_views(file_names@);
                assert(files_view.take(k + 1).drop_last() =~= files_view.take(k as int));
                assert(files_view.take(k + 1).last() == file_names@[k as int]@);
                assert(string_views(names@) =~= ytml_names(files_view.take(k + 1)));
            }
            k += 1;
        }
        proof {
            assert(string_views(file_names@).take(n as int) =~= string_views(file_names@));
        }
        sort_names(&mut names);
        names
    }

    /// Marks the named widget running. Refused when the name is unknown or
    /// the widget already runs; every name, path and other running flag is
    /// left as it was.
    pub fn start_widget(&mut self, widget_name: &str) -> (r: Result<(), WidgetCommandError>)
        requires
            old(self).wf(),
        ensures
            final(self).wf(),
            final(self).widgets@.len() == old(self).widgets@.len(),
            forall|i: int|
                0 <= i < old(self).widgets@.len() ==> {
                    &&& final(self).widgets@[i].name@ == old(self).widgets@[i].name@
                    &&& final(self).widgets@[i].path@ == old(self).widgets@[i].path@
                    &&& final(self).widgets@[i].is_running == (if old(self).widgets@[i].name@
                        == widget_name@ {
                        true
                    } else {
                        old(self).widgets@[i].is_running
                    })
                },
            r is Ok <==> (old(self).contains_name(widget_name@) && !old(self).name_running(
                widget_name@,
            )),
            r == Err::<(), WidgetCommandError>(WidgetCommandError::NotFound) <==> !old(
                self,
            ).contains_name(widget_name@),
            r == Err::<(), WidgetCommandError>(WidgetCommandError::AlreadyRunning) <==> old(
                self,
            ).name_running(widget_name@),
    {
        let n = self.widgets.len();
        let mut i: usize = 0;
        while i < n
            invariant
                old(self).wf(),
                *self == *old(self),
                n == self.widgets@.len(),
                0 <= i <= n,
                forall|j: int| 0 <= j < i ==> self.widgets@[j].name@ != widget_name@,
            decreases n - i,
        {
            if str_eq(self.widgets[i].name.as_str(), widget_name) {
                if self.widgets[i].is_running {
                    return Err(WidgetCommandError::AlreadyRunning);
                }
                self.widgets[i].is_running = true;
                return Ok(());
            }
            i += 1;
        }
        Err(WidgetCommandError::NotFound)
    }

    /// Marks the named widget stopped. Refused when the name is unknown or
    /// the widget is not running; every name, path and other running flag is
    /// left as it was.
    pub fn stop_widget(&mut self, widget_name: &str) -> (r: Result<(), WidgetCommandError>)
        requires
            old(self).wf(),
        ensures
            final(self).wf(),
            final(self).widgets@.len() == old(self).widgets@.len(),
            forall|i: int|
                0 <= i < old(self).widgets@.len() ==> {
                    &&& final(self).widgets@[i].name@ == old(self).widgets@[i].name@
                    &&& final(self).widgets@[i].path@ == old(self).widgets@[i].path@
                    &&& final(self).widgets@[i].is_running == (if old(self).widgets@[i].name@
                        == widget_name@ {
                        false
                    } else {
                        old(self).widgets@[i].is_running
                    })
                },
            r is Ok <==> old(self).name_running(widget_name@),
            r == Err::<(), WidgetCommandError>(WidgetCommandError::NotFound) <==> !old(
                self,
            ).contains_name(widget_name@),
            r == Err::<(), WidgetCommandError>(WidgetCommandError::NotRunning) <==> (old(
                self,
            ).contains_name(widget_name@) && !old(self).name_running(widget_name@)),
    {
        let n = self.widgets.len();
        let mut i: usize = 0;
        while i < n
            invariant
                old(self).wf(),
                *self == *old(self),
                n == self.widgets@.len(),
                0 <= i <= n,
                forall|j: int| 0 <= j < i ==> self.widgets@[j].name@ != widget_name@,
            decreases n - i,
        {
            if str_eq(self.widgets[i].name.as_str(), widget_name) {
                if !self.widgets[i].is_running {
                    return Err(WidgetCommandError::NotRunning);
                }
                self.widgets[i].is_running = false;
                return Ok(());
            }
            i += 1;
        }
        Err(WidgetCommandError::NotFound)
    }

    /// Flips the named widget's running flag and reports the new value.
    /// Refused when the name is unknown; everything else is left as it was.
    pub fn toggle_widget(&mut self, widget_name: &str) -> (r: Result<bool, WidgetCommandError>)
        requires
            old(self).wf(),
        ensures
            final(self).wf(),
            final(self).widgets@.len() == old(self).widgets@.len(),
            forall|i: int|
                0 <= i < old(self).widgets@.len() ==> {
                    &&& final(self).widgets@[i].name@ == old(self).widgets@[i].name@
                    &&& final(self).widgets@[i].path@ == old(self).widgets@[i].path@
                    &&& final(self).widgets@[i].is_running == (if old(self).widgets@[i].name@
                        == widget_name@ {
                        !old(self).widgets@[i].is_running
                    } else {
                        old(self).widgets@[i].is_running
                    })
                },
            r is Ok <==> old(self).contains_name(widget_name@),
            r is Err <==> !old(self).contains_name(widget_name@),
            r matches Err(e) ==> e == WidgetCommandError::NotFound,
            r matches Ok(running) ==> running == !old(self).name_running(widget_name@),
    {
        let n = self.widgets.len();
        let mut i: usize = 0;
        while i < n
            invariant
                old(self).wf(),
                *self == *old(self),
                n == self.widgets@.len(),
                0 <= i <= n,
                forall|j: int| 0 <= j < i ==> self.widgets@[j].name@ != widget_name@,
            decreases n - i,
        {
            if str_eq(self.widgets[i].name.as_str(), widget_name) {
                if self.widgets[i].is_running {
                    self.widgets[i].is_running = false;
                    return Ok(false);
                }
                self.widgets[i].is_running = true;
                return Ok(true);
            }
            i += 1;
        }
        Err(WidgetCommandError::NotFound)
    }

    /// Marks every widget stopped; names and paths are left as they were.
    pub fn stop_all(&mut self)
        requires
            old(self).wf(),
        ensures
            final(self).wf(),
            final(self).widgets@.len() == old(self).widgets@.len(),
            forall|i: int|
                0 <= i < old(self).widgets@.len() ==> {
                    &&& final(self).widgets@[i].name@ == old(self).widgets@[i].name@
                    &&& final(self).widgets@[i].path@ == old(self).widgets@[i].path@
                    &&& final(self).widgets@[i].is_running == false
                },
    {
        let n = self.widgets.len();
        let mut i: usize = 0;
        while i < n
            invariant
                n == self.widgets@.len(),
                0 <= i <= n,
                forall|j: int|
                    0 <= j < n ==> {
                        &&& self.widgets@[j].name@ == old(self).widgets@[j].name@
                        &&& self.widgets@[j].path@ == old(self).widgets@[j].path@
                    },
                forall|j: int| 0 <= j < i ==> self.widgets@[j].is_running == false,
                forall|j: int|
                    i <= j < n ==> self.widgets@[j].is_running == old(
                        self,
                    ).widgets@[j].is_running,
                old(self).wf() ==> self.wf(),
            decreases n - i,
        {
            self.widgets[i].is_running = false;
            i += 1;
        }
    }

    /// Marks every widget running; names and paths are left as they were.
    pub fn start_all(&mut self)
        requires
            old(self).wf(),
        ensures
            final(self).wf(),
            final(self).widgets@.len() == old(self).widgets@.len(),
            forall|i: int|
                0 <= i < old(self).widgets@.len() ==> {
                    &&& final(self).widgets@[i].name@ == old(self).widgets@[i].name@
                    &&& final(self).widgets@[i].path@ == old(self).widgets@[i].path@
                    &&& final(self).widgets@[i].is_running == true
                },
    {
        let n = self.widgets.len();
        let mut i: usize = 0;
        while i < n
            invariant
                n == self.widgets@.len(),
                0 <= i <= n,
                forall|j: int|
                    0 <= j < n ==> {
                        &&& self.widgets@[j].name@ == old(self).widgets@[j].name@
                        &&& self.widgets@[j].path@ == old(self).widgets@[j].path@
                    },
                forall|j: int| 0 <= j < i ==> self.widgets@[j].is_running == true,
                forall|j: int|
                    i <= j < n ==> self.widgets@[j].is_running == old(
                        self,
                    ).widgets@[j].is_running,
                old(self).wf() ==> self.wf(),
            decreases n - i,
        {
            self.widgets[i].is_running = true;
            i += 1;
        }
    }

    /// Whether the named widget is running; an unknown name is not.
    pub fn is_running(&self, widget_name: &str) -> (b: bool)
        requires
            self.wf(),
        ensures
            b == self.name_running(widget_name@),
    {
        let n = self.widgets.len();
        let mut i: usize = 0;
        while i < n
            invariant
                self.wf(),
                n == self.widgets@.len(),
                0 <= i <= n,
                forall|j: int| 0 <= j < i ==> self.widgets@[j].name@ != widget_name@,
            decreases n - i,
        {
            if str_eq(self.widgets[i].name.as_str(), widget_name) {
                return self.widgets[i].is_running;
            }
            i += 1;
        }
        false
    }

    /// Every registered name, in registry order.
    pub fn get_all_widgets(&self) -> (names: Vec<String>)
        ensures
            string_views(names@) == widget_names(self.widgets@),
    {
        let mut names: Vec<String> = Vec::new();
        let n = self.widgets.len();
        let mut i: usize = 0;
        proof {
            assert(string_views(names@) =~= widget_names(self.widgets@).take(0));
        }
        while i < n
            invariant
                n == self.widgets@.len(),
                0 <= i <= n,
                string_views(names@) == widget_names(self.widgets@).take(i as int),
            decreases n - i,
        {
            let cloned = self.widgets[i].name.clone();
            let ghost pre = names@;
            names.push(cloned);
            proof {
                assert(names@ == pre.push(self.widgets@[i as int].name));
                assert(string_views(names@) =~= string_views(pre).push(
                    self.widgets@[i as int].name@,
                ));
                assert(string_views(pre).push(self.widgets@[i as int].name@) =~= widget_names(
                    self.widgets@,
                ).take(i + 1));
            }
            i += 1;
        }
        proof {
            assert(widget_names(self.widgets@).take(n as int) =~= widget_names(self.widgets@));
        }
        names
    }
}

} // verus!
