//! The rename session: the pattern state and the candidates, kept so that
//! every proposed name is the current pattern applied to its file's name.
use vstd::prelude::*;
use crate::item::{RenameItem, RenameItemView};
use crate::pattern::{Pattern, regex_accepts, regex_diagnostic, regex_replace_all};

verus! {

/// The text that follows the last newline of `u` (all of `u` if it has none).
pub open spec fn after_last_newline(u: Seq<char>) -> Seq<char>
    decreases u.len(),
{
    if u.len() == 0 {
        u
    } else if u.last() == '\n' {
        Seq::<char>::empty()
    } else {
        after_last_newline(u.drop_last()).push(u.last())
    }
}

/// The last line of `t`: a final line break does not start a new line, and a
/// carriage return before the line's end is not part of it.
pub open spec fn last_line_of(t: Seq<char>) -> Seq<char> {
    let u = if t.len() > 0 && t.last() == '\n' { t.drop_last() } else { t };
    let l = after_last_newline(u);
    if l.len() > 0 && l.last() == '\r' { l.drop_last() } else { l }
}

proof fn lemma_after_last_newline_split(u: Seq<char>, s: int)
    requires
        0 <= s <= u.len(),
        forall|k: int| s <= k < u.len() ==> u[k] != '\n',
    ensures
        after_last_newline(u) == after_last_newline(u.take(s)) + u.subrange(s, u.len() as int),
    decreases u.len() - s,
{
    if s < u.len() {
        lemma_after_last_newline_split(u, s + 1);
        let p = u.take(s + 1);
        assert(p.drop_last() == u.take(s));
        assert(p.last() == u[s]);
        assert(u.subrange(s, u.len() as int) == seq![u[s]] + u.subrange(s + 1, u.len() as int));
        assert(after_last_newline(u.take(s)).push(u[s]) + u.subrange(s + 1, u.len() as int)
            == after_last_newline(u.take(s)) + u.subrange(s, u.len() as int));
    } else {
        assert(u.take(s) == u);
    }
}

/// The last line of `text`, as shown where a multi-line message must fit on
/// one line.
pub fn last_line(text: &str) -> (r: String)
    ensures
        r@ == last_line_of(text@),
{
    let n = text.unicode_len();
    let end: usize = if n > 0 && text.get_char(n - 1) == '\n' { n - 1 } else { n };
    let ghost u = if text@.len() > 0 && text@.last() == '\n' { text@.drop_last() } else { text@ };
    assert(u == text@.take(end as int));
    let mut start: usize = end;
    while start > 0 && text.get_char(start - 1) != '\n'
        invariant
            start <= end <= text@.len(),
            u == text@.take(end as int),
            forall|k: int| start <= k < end ==> text@[k] != '\n',
        decreases start,
    {
        start = start - 1;
    }
    proof {
        lemma_after_last_newline_split(u, start as int);
        if start > 0 {
            let p = u.take(start as int);
            assert(p.last() == '\n');
        }
        assert(after_last_newline(u.take(start as int)) == Seq::<char>::empty());
        assert(u.subrange(start as int, end as int) == text@.subrange(start as int, end as int));
    }
    let stop: usize = if end > start && text.get_char(end - 1) == '\r' { end - 1 } else { end };
    String::from_str(text.substring_char(start, stop))
}

/// The mathematical value of a `RenamePatterns`.
pub ghost struct PatternsView {
    /// The search text as typed; it may not compile.
    pub search_text: Seq<char>,
    /// The text of the last search pattern that compiled.
    pub compiled: Seq<char>,
    /// The replacement template.
    pub template: Seq<char>,
}

/// The pattern state of a session. The compiled pattern is the last search
/// text that compiled (at first the empty pattern); it is kept while the
/// typed text does not compile.
pub struct RenamePatterns {
    find_pat_raw: String,
    find_pat: Pattern,
    replace_pat: String,
}

impl View for RenamePatterns {
    type V = PatternsView;

    closed spec fn view(&self) -> PatternsView {
        PatternsView {
            search_text: self.find_pat_raw@,
            compiled: self.find_pat@,
            template: self.replace_pat@,
        }
    }
}

/// The name proposed for `original` under the pattern state `p`.
pub open spec fn proposed_name(p: PatternsView, original: Seq<char>) -> Seq<char> {
    regex_replace_all(p.compiled, original, p.template)
}

/// `items` with every proposed name recomputed under `p`.
pub open spec fn recomputed(items: Seq<RenameItemView>, p: PatternsView) -> Seq<RenameItemView> {
    items.map_values(
        |it: RenameItemView|
            RenameItemView { original: it.original, renamed: proposed_name(p, it.original), location: it.location },
    )
}

/// Every proposed name of `items` is the pattern state `p` applied to the
/// file's name.
pub open spec fn consistent(items: Seq<RenameItemView>, p: PatternsView) -> bool {
    forall|i: int| 0 <= i < items.len() ==> #[trigger] items[i].renamed == proposed_name(p, items[i].original)
}

/// Recomputing the proposed names twice under the same pattern state gives
/// what recomputing once gives, and the result is consistent with that state.
pub proof fn lemma_recompute_idempotent(items: Seq<RenameItemView>, p: PatternsView)
    ensures
        recomputed(recomputed(items, p), p) == recomputed(items, p),
        consistent(recomputed(items, p), p),
{
    assert(recomputed(recomputed(items, p), p) =~= recomputed(items, p));
}

/// A session whose pattern state has not changed since the proposed names
/// were computed gains nothing by recomputing them.
pub proof fn lemma_consistent_is_fixed_point(items: Seq<RenameItemView>, p: PatternsView)
    requires
        consistent(items, p),
    ensures
        recomputed(items, p) == items,
{
    assert forall|i: int| 0 <= i < items.len() implies #[trigger] recomputed(items, p)[i] == items[i] by {
        assert(items[i].renamed == proposed_name(p, items[i].original));
    }
    assert(recomputed(items, p) =~= items);
}

/// The mathematical value of a `Session`.
pub ghost struct SessionView {
    pub patterns: PatternsView,
    pub items: Seq<RenameItemView>,
}

/// A rename session: the pattern state and the candidates, in the order they
/// were given.
pub struct Session {
    patterns: RenamePatterns,
    items: Vec<RenameItem>,
}

impl View for Session {
    type V = SessionView;

    closed spec fn view(&self) -> SessionView {
        SessionView { patterns: self.patterns@, items: self.items@.map_values(|it: RenameItem| it@) }
    }
}

impl Session {
    /// Every proposed name is the current pattern state applied to the file's
    /// name.
    pub open spec fn well_formed(&self) -> bool {
        consistent(self@.items, self@.patterns)
    }

    /// A session over `items`, with empty search and replacement texts: each
    /// proposed name is the file's own name.
    pub fn new(items: Vec<RenameItem>) -> (r: Session)
        ensures
            r.well_formed(),
            r@.patterns.search_text.len() == 0,
            r@.patterns.compiled.len() == 0,
            r@.patterns.template.len() == 0,
            r@.items == recomputed(items@.map_values(|it: RenameItem| it@), r@.patterns),
            forall|i: int| 0 <= i < r@.items.len() ==> #[trigger] r@.items[i].renamed == r@.items[i].original,
    {
        let empty = String::new();
        let find_pat = match Pattern::new(empty.as_str()) {
            Ok(pat) => pat,
            Err(_) => vstd::pervasive::unreached(),
        };
        let patterns = RenamePatterns { find_pat_raw: String::new(), find_pat, replace_pat: String::new() };
        let mut session = Session { patterns, items };
        session.update_renames();
        session
    }

    /// The candidates, in the order they were given.
    pub fn items(&self) -> (r: &Vec<RenameItem>)
        ensures
            r@.map_values(|it: RenameItem| it@) == self@.items,
    {
        &self.items
    }

    /// The search text as typed.
    pub fn search_text(&self) -> (r: &String)
        ensures
            r@ == self@.patterns.search_text,
    {
        &self.patterns.find_pat_raw
    }

    /// The text of the pattern in use.
    pub fn compiled_pattern(&self) -> (r: &str)
        ensures
            r@ == self@.patterns.compiled,
    {
        self.patterns.find_pat.as_str()
    }

    /// The replacement template.
    pub fn replace_template(&self) -> (r: &String)
        ensures
            r@ == self@.patterns.template,
    {
        &self.patterns.replace_pat
    }

    /// Takes an edit of the search text. Where the new text compiles, it
    /// becomes the pattern in use, every proposed name is recomputed and no
    /// error is returned. Where it does not, the pattern in use and every
    /// proposed name stay as they were, and the last line of the compiler's
    /// diagnostic is returned for display.
    pub fn on_edit_find_pattern(&mut self, new_val: &str) -> (r: Option<String>)
        requires
            old(self).well_formed(),
        ensures
            final(self).well_formed(),
            final(self)@.patterns.search_text == new_val@,
            final(self)@.patterns.template == old(self)@.patterns.template,
            regex_accepts(new_val@) ==> {
                &&& r is None
                &&& final(self)@.patterns.compiled == new_val@
                &&& final(self)@.items == recomputed(old(self)@.items, final(self)@.patterns)
            },
            !regex_accepts(new_val@) ==> {
                &&& r matches Some(m) && m@ == last_line_of(regex_diagnostic(new_val@))
                &&& final(self)@.patterns.compiled == old(self)@.patterns.compiled
                &&& final(self)@.items == old(self)@.items
            },
    {
        self.patterns.find_pat_raw = String::from_str(new_val);
        match Pattern::new(new_val) {
            Ok(pat) => {
                self.patterns.find_pat = pat;
                self.update_renames();
                None
            },
            Err(err) => Some(last_line(err.as_str())),
        }
    }

    /// Takes a submission of the search text: as an edit, except that a
    /// rejection returns the compiler's whole diagnostic, for a dialog.
    pub fn on_submit_find_pattern(&mut self, new_val: &str) -> (r: Result<(), String>)
        requires
            old(self).well_formed(),
        ensures
            final(self).well_formed(),
            final(self)@.patterns.search_text == new_val@,
            final(self)@.patterns.template == old(self)@.patterns.template,
            regex_accepts(new_val@) ==> {
                &&& r is Ok
                &&& final(self)@.patterns.compiled == new_val@
                &&& final(self)@.items == recomputed(old(self)@.items, final(self)@.patterns)
            },
            !regex_accepts(new_val@) ==> {
                &&& r matches Err(m) && m@ == regex_diagnostic(new_val@)
                &&& final(self)@.patterns.compiled == old(self)@.patterns.compiled
                &&& final(self)@.items == old(self)@.items
            },
    {
        self.patterns.find_pat_raw = String::from_str(new_val);
        match Pattern::new(new_val) {
            Ok(pat) => {
                self.patterns.find_pat = pat;
                self.update_renames();
                Ok(())
            },
            Err(err) => Err(err),
        }
    }

    /// Takes an edit of the replacement template, which is always valid:
    /// every proposed name is recomputed.
    pub fn on_edit_replace_pattern(&mut self, new_val: &str)
        requires
            old(self).well_formed(),
        ensures
            final(self).well_formed(),
            final(self)@.patterns.search_text == old(self)@.patterns.search_text,
            final(self)@.patterns.compiled == old(self)@.patterns.compiled,
            final(self)@.patterns.template == new_val@,
            final(self)@.items == recomputed(old(self)@.items, final(self)@.patterns),
    {
        self.patterns.replace_pat = String::from_str(new_val);
        self.update_renames();
    }

    /// Recomputes the proposed name of every candidate under the current
    /// pattern state.
    pub fn update_renames(&mut self)
        ensures
            final(self)@.patterns == old(self)@.patterns,
            final(self)@.items == recomputed(old(self)@.items, old(self)@.patterns),
            final(self).well_formed(),
            old(self)@.patterns.compiled.len() == 0 && old(self)@.patterns.template.len() == 0 ==> forall|k: int|
                0 <= k < final(self)@.items.len() ==> #[trigger] final(self)@.items[k].renamed
                    == final(self)@.items[k].original,
    {
        let ghost before = self@.items;
        let ghost p = self@.patterns;
        let ghost blank = p.compiled.len() == 0 && p.template.len() == 0;
        let mut i: usize = 0;
        while i < self.items.len()
            invariant
                0 <= i <= self.items@.len(),
                self.items@.len() == before.len(),
                self@.patterns == p,
                p == old(self)@.patterns,
                before == old(self)@.items,
                blank == (p.compiled.len() == 0 && p.template.len() == 0),
                forall|k: int| 0 <= k < i ==> #[trigger] self.items@[k]@ == recomputed(before, p)[k],
                forall|k: int| i <= k < self.items@.len() ==> #[trigger] self.items@[k]@ == before[k],
                blank ==> forall|k: int| 0 <= k < i ==> #[trigger] self.items@[k]@.renamed == self.items@[k]@.original,
            decreases self.items@.len() - i,
        {
            self.items[i].set_pattern(&self.patterns.find_pat, self.patterns.replace_pat.as_str());
            i = i + 1;
        }
        assert(self@.items =~= recomputed(before, p));
    }
}

} // verus!
