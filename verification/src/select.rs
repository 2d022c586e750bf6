//! The selection state machine: the option catalog, the filtered index
//! list, and the cursor, together with construction, filter recomputation,
//! circular navigation, key dispatch, selection resolution and render-state
//! assembly.

use vstd::prelude::*;

use crate::error::InquireError;
use crate::filtering::{DefaultFilter, Filter};
use crate::formatter::{DefaultFormatter, OptionFormatter};
use crate::key::Key;
use crate::option_answer::OptionAnswer;
use crate::pagination::{paginate, spec_page_len, spec_page_start};

verus! {

/// Whether the option at `idx` with label `label` stays visible under
/// `filter_value`: an empty filter text keeps every option, regardless of
/// the predicate; otherwise the predicate decides.
pub open spec fn option_included<F: Filter>(
    f: &F,
    filter_value: Seq<char>,
    label: Seq<char>,
    idx: int,
) -> bool {
    filter_value.len() == 0 || f.spec_matches(filter_value, label, idx)
}

/// The filtered index list restricted to the first `k` options: the indices
/// `< k` whose options stay visible, in catalog order.
pub open spec fn filtered_prefix<F: Filter>(
    f: &F,
    filter_value: Seq<char>,
    options: Seq<String>,
    k: int,
) -> Seq<usize>
    decreases k,
{
    if k <= 0 {
        Seq::empty()
    } else {
        let rest = filtered_prefix(f, filter_value, options, k - 1);
        if option_included(f, filter_value, options[k - 1]@, k - 1) {
            rest.push((k - 1) as usize)
        } else {
            rest
        }
    }
}

/// The filtered index list for the whole catalog.
pub open spec fn spec_filtered<F: Filter>(
    f: &F,
    filter_value: Seq<char>,
    options: Seq<String>,
) -> Seq<usize> {
    filtered_prefix(f, filter_value, options, options.len() as int)
}

/// The filtered index list is a subsequence of `0..k`: no longer than `k`,
/// every entry a valid catalog index below `k`, and strictly increasing, so
/// the catalog's relative order is preserved.
pub proof fn lemma_filtered_prefix_props<F: Filter>(
    f: &F,
    filter_value: Seq<char>,
    options: Seq<String>,
    k: int,
)
    requires
        0 <= k <= usize::MAX,
    ensures
        filtered_prefix(f, filter_value, options, k).len() <= k,
        forall|j: int|
            0 <= j < filtered_prefix(f, filter_value, options, k).len()
                ==> (#[trigger] filtered_prefix(f, filter_value, options, k)[j]) < k,
        forall|j1: int, j2: int|
            0 <= j1 < j2 < filtered_prefix(f, filter_value, options, k).len()
                ==> filtered_prefix(f, filter_value, options, k)[j1]
                < filtered_prefix(f, filter_value, options, k)[j2],
    decreases k,
{
    if k > 0 {
        lemma_filtered_prefix_props(f, filter_value, options, k - 1);
        let rest = filtered_prefix(f, filter_value, options, k - 1);
        let cur = filtered_prefix(f, filter_value, options, k);
        if option_included(f, filter_value, options[k - 1]@, k - 1) {
            assert(cur == rest.push((k - 1) as usize));
            assert forall|j1: int, j2: int|
                0 <= j1 < j2 < cur.len() implies cur[j1] < cur[j2] by {
                if j2 == cur.len() - 1 {
                    assert(cur[j1] == rest[j1]);
                    assert(cur[j2] == (k - 1) as usize);
                }
            }
        }
    }
}

/// With an empty filter text the filtered index list is exactly `0..k`, in
/// order, whatever the predicate does.
pub proof fn lemma_empty_filter_identity<F: Filter>(
    f: &F,
    filter_value: Seq<char>,
    options: Seq<String>,
    k: int,
)
    requires
        0 <= k,
        filter_value.len() == 0,
    ensures
        filtered_prefix(f, filter_value, options, k) =~= Seq::new(
            k as nat,
            |i: int| i as usize,
        ),
    decreases k,
{
    if k > 0 {
        lemma_empty_filter_identity(f, filter_value, options, k - 1);
    }
}

/// Circular decrement of the cursor over a filtered list of length `len`:
/// one step toward the top, wrapping from the top row to the bottom one;
/// with an empty list the cursor still steps down until it rests at 0.
pub open spec fn spec_move_up(cursor: int, len: int) -> int {
    if cursor > 0 {
        cursor - 1
    } else if len > 0 {
        len - 1
    } else {
        0
    }
}

/// Circular increment of the cursor over a filtered list of length `len`:
/// one step toward the bottom, wrapping past the bottom row to the top one;
/// with an empty list the cursor keeps whatever value it holds.
pub open spec fn spec_move_down(cursor: int, len: int) -> int {
    if len == 0 {
        cursor
    } else if cursor + 1 >= len {
        0
    } else {
        cursor + 1
    }
}

/// Keys that submit the highlighted option: the dedicated submit key, or
/// the literal space character with no modifier.
pub open spec fn is_submit_key(key: Key) -> bool {
    key is Submit || (key matches Key::Char(c, m) && c == ' ' && m.spec_plain())
}

/// Keys that move the cursor up: the up arrow with no modifier, or `k` with
/// no modifier when vim navigation is enabled.
pub open spec fn is_up_key(key: Key, vim_mode: bool) -> bool {
    (key matches Key::Up(m) && m.spec_plain()) || (vim_mode && (key matches Key::Char(c, m)
        && c == 'k' && m.spec_plain()))
}

/// Keys that move the cursor down: the down arrow with no modifier, or `j`
/// with no modifier when vim navigation is enabled.
pub open spec fn is_down_key(key: Key, vim_mode: bool) -> bool {
    (key matches Key::Down(m) && m.spec_plain()) || (vim_mode && (key matches Key::Char(c, m)
        && c == 'j' && m.spec_plain()))
}

/// What one dispatched key event asks the interaction loop to do next.
pub enum KeyOutcome {
    /// The cancel key: end the interaction with `OperationCanceled`.
    Cancelled,
    /// A submit key with a visible option under the cursor: end the
    /// interaction with this answer.
    Submitted(OptionAnswer),
    /// The key was consumed (navigation, or an ignored submit): render and
    /// read the next key.
    ContinueEditing,
    /// The key means nothing to the state machine: hand it to the filter
    /// text buffer, and report a changed buffer back via `on_filter_change`.
    ForwardToInput(Key),
}

/// Navigation keeps the cursor inside `[0, len)`; with a single visible row
/// both moves stand still; at the top `move_up` wraps to the bottom and at
/// the bottom `move_down` wraps to the top.
pub proof fn lemma_navigation_in_range(cursor: int, len: int)
    requires
        len >= 1,
        0 <= cursor < len,
    ensures
        0 <= spec_move_up(cursor, len) < len,
        0 <= spec_move_down(cursor, len) < len,
        len == 1 ==> spec_move_up(cursor, len) == cursor,
        len == 1 ==> spec_move_down(cursor, len) == cursor,
        cursor == 0 ==> spec_move_up(cursor, len) == len - 1,
        cursor == len - 1 ==> spec_move_down(cursor, len) == 0,
{
}

/// The selection state machine. Owns the option catalog, the current filter
/// text with its filtered index list, and the cursor. Mutated in place by
/// key dispatch for the duration of one interaction.
pub struct SelectPrompt<F, M> {
    pub message: String,
    pub options: Vec<String>,
    pub help_message: Option<String>,
    pub vim_mode: bool,
    pub cursor_index: usize,
    pub page_size: usize,
    pub filter_value: String,
    pub filtered_options: Vec<usize>,
    pub filter: F,
    pub formatter: M,
}

impl<F: Filter, M: OptionFormatter> SelectPrompt<F, M> {
    /// The state invariant: a non-empty catalog, the filtered index list
    /// exactly the recomputation of the current filter text, and the cursor
    /// on a visible row whenever one exists (and always a valid catalog
    /// position).
    pub open spec fn wf(&self) -> bool {
        &&& self.options@.len() >= 1
        &&& self.cursor_index < self.options@.len()
        &&& self.filtered_options@ == spec_filtered(
            &self.filter,
            self.filter_value@,
            self.options@,
        )
        &&& self.filtered_options@.len() > 0 ==> self.cursor_index
            < self.filtered_options@.len()
    }

    /// Everything but the cursor is the same in `pre` and `post`.
    pub open spec fn same_but_cursor(pre: Self, post: Self) -> bool {
        post == (SelectPrompt { cursor_index: post.cursor_index, ..pre })
    }

    /// Validates a configuration and builds the initial state: fails exactly
    /// when the catalog is empty or the starting cursor is out of range;
    /// otherwise the filter text starts empty, the filtered index list is
    /// the full range `0..n`, and the cursor sits at the starting cursor.
    pub fn new(so: Select<F, M>) -> (r: Result<Self, InquireError>)
        ensures
            so.options@.len() == 0 ==> (r matches Err(e) && (e matches
                InquireError::InvalidConfiguration(m)
                && m@ == "Available options can not be empty"@)),
            so.options@.len() > 0 && so.starting_cursor >= so.options@.len() ==> (r matches Err(e)
                && (e matches InquireError::InvalidConfiguration(m)
                && m@ == "Starting cursor index is out-of-bounds of the options length"@)),
            so.options@.len() > 0 && so.starting_cursor < so.options@.len() ==> (r matches Ok(p)
                && p.message == so.message
                && p.options == so.options
                && p.help_message == so.help_message
                && p.vim_mode == so.vim_mode
                && p.page_size == so.page_size
                && p.cursor_index == so.starting_cursor
                && p.filter_value@ == Seq::<char>::empty()
                && p.filtered_options@ == Seq::new(so.options@.len(), |i: int| i as usize)
                && p.filter == so.filter
                && p.formatter == so.formatter
                && p.wf()),
    {
        if so.options.len() == 0 {
            return Err(
                InquireError::InvalidConfiguration("Available options can not be empty".to_owned()),
            );
        }
        if so.starting_cursor >= so.options.len() {
            return Err(
                InquireError::InvalidConfiguration(
                    "Starting cursor index is out-of-bounds of the options length".to_owned(),
                ),
            );
        }
        let n = so.options.len();
        let mut filtered: Vec<usize> = Vec::new();
        let mut i: usize = 0;
        while i < n
            invariant
                0 <= i <= n,
                filtered@.len() == i,
                forall|j: int| 0 <= j < i ==> (#[trigger] filtered@[j]) == j,
            decreases n - i,
        {
            filtered.push(i);
            i = i + 1;
        }
        assert(filtered@ =~= Seq::new(n as nat, |j: int| j as usize));
        let p = SelectPrompt {
            message: so.message,
            options: so.options,
            help_message: so.help_message,
            vim_mode: so.vim_mode,
            cursor_index: so.starting_cursor,
            page_size: so.page_size,
            filter_value: String::new(),
            filtered_options: filtered,
            filter: so.filter,
            formatter: so.formatter,
        };
        proof {
            lemma_empty_filter_identity(&p.filter, p.filter_value@, p.options@, p.options@.len() as int);
        }
        Ok(p)
    }

    /// One circular step toward the top of the visible rows.
    pub fn move_cursor_up(&mut self)
        ensures
            final(self).cursor_index as int == spec_move_up(
                old(self).cursor_index as int,
                old(self).filtered_options@.len() as int,
            ),
            Self::same_but_cursor(*old(self), *final(self)),
            old(self).wf() ==> final(self).wf(),
    {
        if self.cursor_index > 0 {
            self.cursor_index = self.cursor_index - 1;
        } else if self.filtered_options.len() > 0 {
            self.cursor_index = self.filtered_options.len() - 1;
        } else {
            self.cursor_index = 0;
        }
        proof {
            if old(self).wf() {
                assert(self.options.len() == self.options@.len());
                lemma_filtered_prefix_props(
                    &self.filter,
                    self.filter_value@,
                    self.options@,
                    self.options@.len() as int,
                );
            }
        }
    }

    /// One circular step toward the bottom of the visible rows.
    pub fn move_cursor_down(&mut self)
        ensures
            final(self).cursor_index as int == spec_move_down(
                old(self).cursor_index as int,
                old(self).filtered_options@.len() as int,
            ),
            Self::same_but_cursor(*old(self), *final(self)),
            old(self).wf() ==> final(self).wf(),
    {
        // An empty filtered list keeps the cursor's memory: the value is
        // inert until rows become visible again.
        let len = self.filtered_options.len();
        if len > 0 {
            if self.cursor_index >= len - 1 {
                self.cursor_index = 0;
            } else {
                self.cursor_index = self.cursor_index + 1;
            }
        }
        proof {
            if old(self).wf() {
                assert(self.options.len() == self.options@.len());
                lemma_filtered_prefix_props(
                    &self.filter,
                    self.filter_value@,
                    self.options@,
                    self.options@.len() as int,
                );
            }
        }
    }

    /// Recomputes the filtered index list for the current filter text:
    /// catalog indices in order, an index kept when the filter text is
    /// empty or the predicate matches its label.
    pub fn filter_options(&self) -> (r: Vec<usize>)
        ensures
            r@ == spec_filtered(&self.filter, self.filter_value@, self.options@),
    {
        let n = self.options.len();
        let mut filtered: Vec<usize> = Vec::new();
        let mut i: usize = 0;
        while i < n
            invariant
                0 <= i <= n,
                n == self.options@.len(),
                filtered@ == filtered_prefix(
                    &self.filter,
                    self.filter_value@,
                    self.options@,
                    i as int,
                ),
            decreases n - i,
        {
            let included = if self.filter_value.as_str().is_empty() {
                true
            } else {
                self.filter.matches(self.filter_value.as_str(), self.options[i].as_str(), i)
            };
            if included {
                filtered.push(i);
            }
            i = i + 1;
        }
        filtered
    }

    /// Applies a changed filter text: recomputes the filtered index list;
    /// if the new list is non-empty and the cursor fell off its end, clamps
    /// the cursor to the last visible row; an empty new list leaves the
    /// cursor untouched.
    pub fn on_filter_change(&mut self, new_value: String)
        ensures
            ({
                let nf = spec_filtered(&old(self).filter, new_value@, old(self).options@);
                &&& final(self).filter_value == new_value
                &&& final(self).filtered_options@ == nf
                &&& final(self).cursor_index == (if nf.len() > 0 && old(self).cursor_index
                    >= nf.len() {
                    (nf.len() - 1) as usize
                } else {
                    old(self).cursor_index
                })
            }),
            final(self).message == old(self).message,
            final(self).options == old(self).options,
            final(self).help_message == old(self).help_message,
            final(self).vim_mode == old(self).vim_mode,
            final(self).page_size == old(self).page_size,
            final(self).filter == old(self).filter,
            final(self).formatter == old(self).formatter,
            old(self).wf() ==> final(self).wf(),
    {
        self.filter_value = new_value;
        let options = self.filter_options();
        if options.len() > 0 && options.len() <= self.cursor_index {
            self.cursor_index = options.len() - 1;
        }
        self.filtered_options = options;
        proof {
            if old(self).wf() {
                assert(self.options.len() == self.options@.len());
                lemma_filtered_prefix_props(
                    &self.filter,
                    self.filter_value@,
                    self.options@,
                    self.options@.len() as int,
                );
            }
        }
    }

    /// Whether resolution currently yields an answer: the cursor sits on a
    /// row of the filtered index list, and that row names a valid catalog
    /// index.
    pub open spec fn spec_can_resolve(&self) -> bool {
        self.cursor_index < self.filtered_options@.len()
            && self.filtered_options@[self.cursor_index as int] < self.options@.len()
    }

    /// Under the state invariant the second half of `spec_can_resolve` is
    /// free, so resolution yields nothing exactly when the filtered index
    /// list is empty.
    pub proof fn lemma_resolution_none_iff_empty(&self)
        requires
            self.wf(),
        ensures
            self.spec_can_resolve() <==> self.filtered_options@.len() > 0,
    {
        if self.filtered_options@.len() > 0 {
            assert(self.options.len() == self.options@.len());
            lemma_filtered_prefix_props(
                &self.filter,
                self.filter_value@,
                self.options@,
                self.options@.len() as int,
            );
        }
    }

    /// Resolves the highlighted option: the answer at the cursor's row of
    /// the filtered index list, mapped back to its catalog label; nothing
    /// when the filtered index list is empty or the cursor is out of its
    /// bounds. A pure read with no side effects.
    pub fn get_final_answer(&self) -> (r: Option<OptionAnswer>)
        ensures
            r is Some <==> self.spec_can_resolve(),
            r matches Some(ans) ==> ans.index == self.filtered_options@[self.cursor_index as int]
                && ans.value@ == self.options@[ans.index as int]@,
    {
        if self.cursor_index < self.filtered_options.len() {
            let oi = self.filtered_options[self.cursor_index];
            if oi < self.options.len() {
                Some(OptionAnswer::new(oi, self.options[oi].as_str()))
            } else {
                None
            }
        } else {
            None
        }
    }

    /// Dispatches one key event, in priority order: cancel ends the
    /// interaction at once; a submit key resolves the highlighted option or
    /// is ignored when nothing is visible; navigation keys (the arrows, and
    /// `j`/`k` when vim navigation is enabled) move the cursor; every other
    /// key is handed back for the filter text buffer.
    pub fn handle_key(&mut self, key: Key) -> (r: KeyOutcome)
        ensures
            key is Cancel ==> r is Cancelled && *final(self) == *old(self),
            !(key is Cancel) && is_submit_key(key) ==> {
                &&& *final(self) == *old(self)
                &&& old(self).spec_can_resolve() ==> (r matches KeyOutcome::Submitted(ans)
                    && ans.index == old(self).filtered_options@[old(self).cursor_index as int]
                    && ans.value@ == old(self).options@[ans.index as int]@)
                &&& !old(self).spec_can_resolve() ==> r is ContinueEditing
            },
            !(key is Cancel) && !is_submit_key(key) && is_up_key(key, old(self).vim_mode) ==> {
                &&& r is ContinueEditing
                &&& final(self).cursor_index as int == spec_move_up(
                    old(self).cursor_index as int,
                    old(self).filtered_options@.len() as int,
                )
                &&& Self::same_but_cursor(*old(self), *final(self))
            },
            !(key is Cancel) && !is_submit_key(key) && !is_up_key(key, old(self).vim_mode)
                && is_down_key(key, old(self).vim_mode) ==> {
                &&& r is ContinueEditing
                &&& final(self).cursor_index as int == spec_move_down(
                    old(self).cursor_index as int,
                    old(self).filtered_options@.len() as int,
                )
                &&& Self::same_but_cursor(*old(self), *final(self))
            },
            !(key is Cancel) && !is_submit_key(key) && !is_up_key(key, old(self).vim_mode)
                && !is_down_key(key, old(self).vim_mode) ==> {
                &&& r matches KeyOutcome::ForwardToInput(k) && k == key
                &&& *final(self) == *old(self)
            },
            old(self).wf() ==> final(self).wf(),
    {
        match key {
            Key::Cancel => KeyOutcome::Cancelled,
            Key::Submit => self.submit_outcome(),
            Key::Char(c, m) => {
                if c == ' ' && m.is_plain() {
                    self.submit_outcome()
                } else if self.vim_mode && c == 'k' && m.is_plain() {
                    self.move_cursor_up();
                    KeyOutcome::ContinueEditing
                } else if self.vim_mode && c == 'j' && m.is_plain() {
                    self.move_cursor_down();
                    KeyOutcome::ContinueEditing
                } else {
                    KeyOutcome::ForwardToInput(key)
                }
            },
            Key::Up(m) => {
                if m.is_plain() {
                    self.move_cursor_up();
                    KeyOutcome::ContinueEditing
                } else {
                    KeyOutcome::ForwardToInput(key)
                }
            },
            Key::Down(m) => {
                if m.is_plain() {
                    self.move_cursor_down();
                    KeyOutcome::ContinueEditing
                } else {
                    KeyOutcome::ForwardToInput(key)
                }
            },
        }
    }

    /// Attempts resolution for a submit key: the resolved answer ends the
    /// interaction; when nothing resolves, the key is ignored.
    fn submit_outcome(&self) -> (r: KeyOutcome)
        ensures
            self.spec_can_resolve() ==> (r matches KeyOutcome::Submitted(ans)
                && ans.index == self.filtered_options@[self.cursor_index as int]
                && ans.value@ == self.options@[ans.index as int]@),
            !self.spec_can_resolve() ==> r is ContinueEditing,
    {
        match self.get_final_answer() {
            Some(answer) => KeyOutcome::Submitted(answer),
            None => KeyOutcome::ContinueEditing,
        }
    }

    /// Formats a final answer with the configured formatter.
    pub fn format_answer(&self, answer: &OptionAnswer) -> (r: String)
        ensures
            r@ == self.formatter.spec_format(answer.index as int, answer.value@),
    {
        self.formatter.format(answer)
    }

    /// Assembles everything one frame shows: the filtered rows mapped to
    /// their labels, cut to one pagination window around the cursor, the
    /// window row under the cursor marked selected, plus the prompt
    /// message, the current filter text and the optional help line. A pure
    /// function of the current state.
    pub fn render_state(&self) -> (r: RenderState)
        requires
            self.wf(),
            self.page_size >= 1,
        ensures
            r.message@ == self.message@,
            r.filter_value@ == self.filter_value@,
            r.help_message == self.help_message,
            ({
                let flen = self.filtered_options@.len() as int;
                let start = spec_page_start(self.page_size as int, flen, self.cursor_index as int);
                let plen = spec_page_len(self.page_size as int, flen);
                &&& r.rows@.len() == plen
                &&& forall|k: int|
                    0 <= k < plen ==> (#[trigger] r.rows@[k]).value@
                        == self.options@[self.filtered_options@[start + k] as int]@
                &&& forall|k: int|
                    0 <= k < plen ==> (#[trigger] r.rows@[k]).selected == (start + k
                        == self.cursor_index as int)
                &&& self.filtered_options@.len() > 0 ==> start <= self.cursor_index < start + plen
            }),
    {
        proof {
            assert(self.options.len() == self.options@.len());
            lemma_filtered_prefix_props(
                &self.filter,
                self.filter_value@,
                self.options@,
                self.options@.len() as int,
            );
        }
        let flen = self.filtered_options.len();
        let mut choices: Vec<OptionAnswer> = Vec::new();
        let mut j: usize = 0;
        while j < flen
            invariant
                0 <= j <= flen,
                flen == self.filtered_options@.len(),
                choices@.len() == j,
                forall|t: int|
                    0 <= t < flen ==> (#[trigger] self.filtered_options@[t])
                        < self.options@.len(),
                forall|t: int|
                    0 <= t < j ==> (#[trigger] choices@[t]).index == self.filtered_options@[t],
                forall|t: int|
                    0 <= t < j ==> (#[trigger] choices@[t]).value@
                        == self.options@[self.filtered_options@[t] as int]@,
            decreases flen - j,
        {
            let oi = self.filtered_options[j];
            choices.push(OptionAnswer::new(oi, self.options[oi].as_str()));
            j = j + 1;
        }
        let page = paginate(self.page_size, &choices, self.cursor_index);
        let ghost start = spec_page_start(
            self.page_size as int,
            self.filtered_options@.len() as int,
            self.cursor_index as int,
        );
        let plen = page.content.len();
        let mut rows: Vec<Row> = Vec::new();
        let mut idx: usize = 0;
        while idx < plen
            invariant
                0 <= idx <= plen,
                plen == page.content@.len(),
                rows@.len() == idx,
                forall|t: int|
                    0 <= t < idx ==> (#[trigger] rows@[t]).value@ == page.content@[t].value@,
                forall|t: int|
                    0 <= t < idx ==> (#[trigger] rows@[t]).selected == (t
                        == page.selection as int),
            decreases plen - idx,
        {
            let row = Row {
                selected: page.selection == idx,
                value: page.content[idx].value.clone(),
            };
            rows.push(row);
            idx = idx + 1;
        }
        proof {
            assert(forall|k: int|
                0 <= k < plen ==> (#[trigger] page.content@[k])
                    == choices@.subrange(start, start + plen as int)[k]);
        }
        RenderState {
            message: self.message.clone(),
            filter_value: self.filter_value.clone(),
            rows,
            help_message: match &self.help_message {
                Some(h) => Some(h.clone()),
                None => None,
            },
        }
    }
}

/// One row of the visible page: its label, and whether it is the
/// highlighted one.
pub struct Row {
    pub selected: bool,
    pub value: String,
}

/// Everything the renderer needs for one frame: the prompt message, the
/// filter text to echo beside it, the visible rows, and the optional help
/// line, shown verbatim when present.
pub struct RenderState {
    pub message: String,
    pub filter_value: String,
    pub rows: Vec<Row>,
    pub help_message: Option<String>,
}

/// The prompt configuration: message and option catalog (required), an
/// optional help line, page size, vim navigation, the starting cursor, and
/// the filter predicate and answer formatter. Read-only once the state
/// machine is built from it.
pub struct Select<F, M> {
    pub message: String,
    pub options: Vec<String>,
    pub help_message: Option<String>,
    pub page_size: usize,
    pub vim_mode: bool,
    pub starting_cursor: usize,
    pub filter: F,
    pub formatter: M,
}

/// The default help line shown below the options.
pub open spec fn spec_default_help_message() -> Seq<char> {
    "\u{2191}\u{2193} to move, space or enter to select, type to filter"@
}

impl Select<DefaultFilter, DefaultFormatter> {
    /// A configuration with the given message and options and every other
    /// setting at its default: the standard help line, page size 7, vim
    /// navigation off, the cursor on the first option, the case-insensitive
    /// substring filter and the identity formatter.
    pub fn new(message: String, options: Vec<String>) -> (r: Self)
        ensures
            r.message == message,
            r.options == options,
            r.help_message matches Some(h) && h@ == spec_default_help_message(),
            r.page_size == 7,
            r.vim_mode == false,
            r.starting_cursor == 0,
    {
        Select {
            message,
            options,
            help_message: Some(
                "\u{2191}\u{2193} to move, space or enter to select, type to filter".to_owned(),
            ),
            page_size: 7,
            vim_mode: false,
            starting_cursor: 0,
            filter: DefaultFilter,
            formatter: DefaultFormatter,
        }
    }
}

impl<F: Filter, M: OptionFormatter> Select<F, M> {
    /// Sets the help message.
    pub fn with_help_message(self, message: String) -> (r: Self)
        ensures
            r == (Select { help_message: Some(message), ..self }),
    {
        Select { help_message: Some(message), ..self }
    }

    /// Removes the help message.
    pub fn without_help_message(self) -> (r: Self)
        ensures
            r == (Select { help_message: None::<String>, ..self }),
    {
        Select { help_message: None, ..self }
    }

    /// Sets the page size.
    pub fn with_page_size(self, page_size: usize) -> (r: Self)
        ensures
            r == (Select { page_size, ..self }),
    {
        Select { page_size, ..self }
    }

    /// Enables or disables vim navigation.
    pub fn with_vim_mode(self, vim_mode: bool) -> (r: Self)
        ensures
            r == (Select { vim_mode, ..self }),
    {
        Select { vim_mode, ..self }
    }

    /// Replaces the filter predicate.
    pub fn with_filter<F2: Filter>(self, filter: F2) -> (r: Select<F2, M>)
        ensures
            r.message == self.message,
            r.options == self.options,
            r.help_message == self.help_message,
            r.page_size == self.page_size,
            r.vim_mode == self.vim_mode,
            r.starting_cursor == self.starting_cursor,
            r.filter == filter,
            r.formatter == self.formatter,
    {
        Select {
            message: self.message,
            options: self.options,
            help_message: self.help_message,
            page_size: self.page_size,
            vim_mode: self.vim_mode,
            starting_cursor: self.starting_cursor,
            filter,
            formatter: self.formatter,
        }
    }

    /// Replaces the answer formatter.
    pub fn with_formatter<M2: OptionFormatter>(self, formatter: M2) -> (r: Select<F, M2>)
        ensures
            r.message == self.message,
            r.options == self.options,
            r.help_message == self.help_message,
            r.page_size == self.page_size,
            r.vim_mode == self.vim_mode,
            r.starting_cursor == self.starting_cursor,
            r.filter == self.filter,
            r.formatter == formatter,
    {
        Select {
            message: self.message,
            options: self.options,
            help_message: self.help_message,
            page_size: self.page_size,
            vim_mode: self.vim_mode,
            starting_cursor: self.starting_cursor,
            filter: self.filter,
            formatter,
        }
    }

    /// Sets the starting cursor.
    pub fn with_starting_cursor(self, starting_cursor: usize) -> (r: Self)
        ensures
            r == (Select { starting_cursor, ..self }),
    {
        Select { starting_cursor, ..self }
    }
}

} // verus!
