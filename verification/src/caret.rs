//! Where the text caret is: which probes to try for a foreground window, in
//! which order, and what each probe's raw answer means.
//!
//! The probes themselves (UI Automation, the accessible caret object, the GUI
//! thread information) are calls into the window system; the caller runs the
//! planned probes one at a time and `probe_step` says after each one whether
//! the caret is found, which probe comes next, or that there is none.

use vstd::prelude::*;

verus! {

broadcast use vstd::string::group_string_axioms;

/// One way of asking the window system for the caret.
#[derive(Clone, Copy, Debug, PartialEq, Eq, Structural)]
pub enum CaretProbe {
    /// UI Automation: focused element, text pattern, caret range.
    UiAutomation,
    /// The accessible caret object of the window and its location.
    AccessibleCaret,
    /// The caret that the window's GUI thread reports.
    GuiThread,
}

/// `needle` occurs in `hay` as a contiguous run (the empty needle always does).
pub open spec fn seq_contains(hay: Seq<char>, needle: Seq<char>) -> bool {
    exists|i: int|
        0 <= i && i + needle.len() <= hay.len() && #[trigger] hay.subrange(i, i + needle.len())
            == needle
}

/// Window classes whose caret is read through UI Automation: the UWP frame and
/// the modern Notepad.
pub open spec fn spec_uses_ui_automation(class: Seq<char>) -> bool {
    class == "ApplicationFrameWindow"@ || class == "Notepad"@
}

/// Window classes whose caret is read through the accessible caret object: the
/// Chromium family of browsers.
pub open spec fn spec_uses_accessible_caret(class: Seq<char>) -> bool {
    ||| seq_contains(class, "Chrome_WidgetWin"@)
    ||| seq_contains(class, "Maxthon"@)
    ||| seq_contains(class, "Slimjet"@)
    ||| seq_contains(class, "Vivaldi"@)
}

/// The probes for a window of class `class`, in the order they are tried: UI
/// Automation for its classes, then the accessible caret for its classes, and
/// the GUI thread's caret always last.
pub open spec fn spec_probe_plan(class: Seq<char>) -> Seq<CaretProbe> {
    (if spec_uses_ui_automation(class) {
        seq![CaretProbe::UiAutomation]
    } else {
        Seq::empty()
    }) + (if spec_uses_accessible_caret(class) {
        seq![CaretProbe::AccessibleCaret]
    } else {
        Seq::empty()
    }) + seq![CaretProbe::GuiThread]
}

/// Every plan ends with the GUI thread's caret, which it holds once; UI
/// Automation, when planned, comes first; a plan holds one to three probes.
pub proof fn lemma_probe_plan_shape(class: Seq<char>)
    ensures
        1 <= spec_probe_plan(class).len() <= 3,
        spec_probe_plan(class).last() == CaretProbe::GuiThread,
        forall|i: int|
            0 <= i < spec_probe_plan(class).len() - 1 ==> spec_probe_plan(class)[i]
                != CaretProbe::GuiThread,
        spec_uses_ui_automation(class) <==> spec_probe_plan(class)[0] == CaretProbe::UiAutomation,
        spec_uses_accessible_caret(class) <==> spec_probe_plan(class).contains(
            CaretProbe::AccessibleCaret,
        ),
{
    let p = spec_probe_plan(class);
    if spec_uses_accessible_caret(class) {
        let i = if spec_uses_ui_automation(class) { 1int } else { 0int };
        assert(p[i] == CaretProbe::AccessibleCaret);
    }
}

/// What to do after the probe at position `i` of a plan answered.
#[derive(Clone, Copy, Debug, PartialEq, Eq, Structural)]
pub enum ProbeStep {
    /// The probe found the caret here; the later probes are skipped.
    Found(i32, i32),
    /// Run the probe at this position next.
    Next(usize),
    /// Every probe of the plan came back empty.
    NotFound,
}

/// The step after the probe at position `i` of a plan of `plan_len` probes
/// answered `found`.
pub open spec fn spec_probe_step(plan_len: usize, i: usize, found: Option<(i32, i32)>) -> ProbeStep {
    match found {
        Some((x, y)) => ProbeStep::Found(x, y),
        None => if i + 1 < plan_len {
            ProbeStep::Next((i + 1) as usize)
        } else {
            ProbeStep::NotFound
        },
    }
}

/// The outcome of running a plan from position `i` on, where `answers[k]` is
/// what the probe at position `k` would answer: the first answer that found a
/// caret, or none.
pub open spec fn spec_probe_search(answers: Seq<Option<(i32, i32)>>, i: int) -> Option<(i32, i32)>
    decreases answers.len() - i,
{
    if i < 0 || i >= answers.len() {
        None
    } else if answers[i] is Some {
        answers[i]
    } else {
        spec_probe_search(answers, i + 1)
    }
}

/// The fall-through of the caret search: after the probe at `i` answered, a
/// found caret decides, otherwise the next probe is run, and after the last
/// probe there is none.
pub fn probe_step(plan_len: usize, i: usize, found: Option<(i32, i32)>) -> (s: ProbeStep)
    requires
        i < plan_len,
    ensures
        s == spec_probe_step(plan_len, i, found),
        found matches Some((x, y)) ==> s == ProbeStep::Found(x, y),
        found is None && i + 1 < plan_len ==> s == ProbeStep::Next((i + 1) as usize),
        found is None && i + 1 == plan_len ==> s == ProbeStep::NotFound,
{
    match found {
        Some((x, y)) => ProbeStep::Found(x, y),
        None => if i + 1 < plan_len {
            ProbeStep::Next(i + 1)
        } else {
            ProbeStep::NotFound
        },
    }
}

/// Stepping through a plan with `probe_step` yields the search's outcome:
/// each step either settles it or hands it to the next position.
pub proof fn lemma_probe_step_follows_search(answers: Seq<Option<(i32, i32)>>, i: usize)
    requires
        i < answers.len(),
        answers.len() <= usize::MAX,
    ensures
        spec_probe_step(answers.len() as usize, i, answers[i as int]) matches ProbeStep::Found(x, y)
            ==> spec_probe_search(answers, i as int) == Some((x, y)),
        spec_probe_step(answers.len() as usize, i, answers[i as int]) matches ProbeStep::Next(j)
            ==> spec_probe_search(answers, i as int) == spec_probe_search(answers, j as int),
        spec_probe_step(answers.len() as usize, i, answers[i as int]) is NotFound
            ==> spec_probe_search(answers, i as int) is None,
{
    if answers[i as int] is None && i + 1 >= answers.len() {
        assert(spec_probe_search(answers, i + 1) is None);
    }
}

/// The first probe that finds a caret decides: when the probes before
/// position `k` found nothing and the probe at `k` found `p`, the search
/// yields `p`, whatever the later probes would answer; when no probe finds
/// anything, the search yields nothing.
pub proof fn lemma_first_found_decides(answers: Seq<Option<(i32, i32)>>, k: int)
    requires
        0 <= k < answers.len(),
        forall|j: int| 0 <= j < k ==> answers[j] is None,
    ensures
        answers[k] is Some ==> spec_probe_search(answers, 0) == answers[k],
        (forall|j: int| k <= j < answers.len() ==> answers[j] is None) ==> spec_probe_search(
            answers,
            0,
        ) is None,
{
    lemma_search_skips_empty(answers, 0, k);
    if forall|j: int| k <= j < answers.len() ==> answers[j] is None {
        lemma_search_skips_empty(answers, k, answers.len() as int);
        assert(spec_probe_search(answers, answers.len() as int) is None);
    }
}

proof fn lemma_search_skips_empty(answers: Seq<Option<(i32, i32)>>, from: int, to: int)
    requires
        0 <= from <= to <= answers.len(),
        forall|j: int| from <= j < to ==> answers[j] is None,
    ensures
        spec_probe_search(answers, from) == spec_probe_search(answers, to),
    decreases to - from,
{
    if from < to {
        lemma_search_skips_empty(answers, from + 1, to);
    }
}

/// A needle occurs in a string exactly when it stands there, character for
/// character, from some position on.
pub proof fn lemma_contains_means_occurs(hay: Seq<char>, needle: Seq<char>, i: int)
    ensures
        0 <= i && i + needle.len() <= hay.len() && hay.subrange(i, i + needle.len()) == needle
            ==> seq_contains(hay, needle),
        seq_contains(hay, needle) ==> exists|k: int|
            0 <= k && k + needle.len() <= hay.len() && #[trigger] hay.subrange(k, k + needle.len())
                == needle,
{
}

/// The accessible caret is asked exactly for the classes in which
/// "Chrome_WidgetWin", "Maxthon", "Slimjet" or "Vivaldi" stands somewhere,
/// character for character (so "Chrome_WidgetWin_0" and "Chrome_WidgetWin_1"
/// both are).
pub proof fn lemma_accessible_caret_classes(class: Seq<char>)
    ensures
        spec_probe_plan(class).contains(CaretProbe::AccessibleCaret) <==> (
        (exists|i: int|
            0 <= i && i + "Chrome_WidgetWin"@.len() <= class.len() && #[trigger] class.subrange(
                i,
                i + "Chrome_WidgetWin"@.len(),
            ) == "Chrome_WidgetWin"@) || (exists|i: int|
            0 <= i && i + "Maxthon"@.len() <= class.len() && #[trigger] class.subrange(
                i,
                i + "Maxthon"@.len(),
            ) == "Maxthon"@) || (exists|i: int|
            0 <= i && i + "Slimjet"@.len() <= class.len() && #[trigger] class.subrange(
                i,
                i + "Slimjet"@.len(),
            ) == "Slimjet"@) || (exists|i: int|
            0 <= i && i + "Vivaldi"@.len() <= class.len() && #[trigger] class.subrange(
                i,
                i + "Vivaldi"@.len(),
            ) == "Vivaldi"@)),
{
    lemma_probe_plan_shape(class);
}

/// UI Automation is asked, first, exactly for the classes
/// "ApplicationFrameWindow" and "Notepad".
pub proof fn lemma_ui_automation_classes(class: Seq<char>)
    ensures
        (spec_probe_plan(class)[0] == CaretProbe::UiAutomation) <==> (class
            == "ApplicationFrameWindow"@ || class == "Notepad"@),
        spec_probe_plan(class).contains(CaretProbe::UiAutomation) <==> (class
            == "ApplicationFrameWindow"@ || class == "Notepad"@),
{
    lemma_probe_plan_shape(class);
    let p = spec_probe_plan(class);
    if p.contains(CaretProbe::UiAutomation) {
        let k = choose|k: int| 0 <= k < p.len() && p[k] == CaretProbe::UiAutomation;
        assert(p[k] == CaretProbe::UiAutomation);
    }
}

/// The state bit that marks an accessible caret invisible is 0x8000.
pub proof fn lemma_invisible_state_bit()
    ensures
        STATE_SYSTEM_INVISIBLE == 0x8000,
{
}

/// The characters of a string.
fn chars_of(s: &str) -> (v: Vec<char>)
    ensures
        v@ == s@,
{
    let mut v: Vec<char> = Vec::new();
    for c in it: s.chars()
        invariant
            it.seq() == s@,
            v@ == s@.take(it.index() as int),
    {
        proof {
            assert(s@.take(it.index() + 1) =~= s@.take(it.index() as int).push(c));
        }
        v.push(c);
    }
    proof {
        assert(s@.take(s@.len() as int) =~= s@);
    }
    v
}

/// Whether `needle` stands in `hay` from position `i` on.
fn matches_at(hay: &Vec<char>, needle: &Vec<char>, i: usize) -> (r: bool)
    requires
        i + needle@.len() <= hay@.len(),
    ensures
        r == (hay@.subrange(i as int, i + needle@.len()) == needle@),
{
    let m = needle.len();
    let n = hay.len();
    let mut j: usize = 0;
    while j < m
        invariant
            m == needle@.len(),
            n == hay@.len(),
            i + m <= hay@.len(),
            j <= m,
            forall|k: int| 0 <= k < j ==> hay@[i + k] == needle@[k],
        decreases m - j,
    {
        if hay[i + j] != needle[j] {
            proof {
                let sub = hay@.subrange(i as int, i + m);
                assert(sub[j as int] != needle@[j as int]);
            }
            return false;
        }
        j = j + 1;
    }
    proof {
        assert(hay@.subrange(i as int, i + m) =~= needle@);
    }
    true
}

fn seq_contains_exec(hay: &Vec<char>, needle: &Vec<char>) -> (r: bool)
    ensures
        r == seq_contains(hay@, needle@),
{
    let n = hay.len();
    let m = needle.len();
    if m > n {
        return false;
    }
    let last = n - m;
    let mut i: usize = 0;
    loop
        invariant
            n == hay@.len(),
            m == needle@.len(),
            m <= n,
            last == n - m,
            i <= last,
            forall|k: int| 0 <= k < i ==> #[trigger] hay@.subrange(k, k + m) != needle@,
        decreases last - i,
    {
        if matches_at(hay, needle, i) {
            return true;
        }
        if i == last {
            return false;
        }
        i = i + 1;
    }
}

/// `str::contains` with a string pattern: `needle` occurs in `hay`.
pub fn str_contains(hay: &str, needle: &str) -> (r: bool)
    ensures
        r == seq_contains(hay@, needle@),
{
    let h = chars_of(hay);
    let n = chars_of(needle);
    seq_contains_exec(&h, &n)
}

/// The two strings hold the same characters.
pub fn str_equals(a: &str, b: &str) -> (r: bool)
    ensures
        r == (a@ == b@),
{
    let x = chars_of(a);
    let y = chars_of(b);
    if x.len() != y.len() {
        return false;
    }
    if x.len() == 0 {
        proof {
            assert(a@ =~= b@);
        }
        return true;
    }
    proof {
        assert(x@.subrange(0, y@.len() as int) =~= x@);
    }
    matches_at(&x, &y, 0)
}

/// Whether the caret of a window of this class is read through UI Automation.
pub fn uses_ui_automation(class: &str) -> (r: bool)
    ensures
        r == spec_uses_ui_automation(class@),
{
    str_equals(class, "ApplicationFrameWindow") || str_equals(class, "Notepad")
}

/// Whether the caret of a window of this class is read through the accessible
/// caret object.
pub fn uses_accessible_caret(class: &str) -> (r: bool)
    ensures
        r == spec_uses_accessible_caret(class@),
{
    str_contains(class, "Chrome_WidgetWin") || str_contains(class, "Maxthon") || str_contains(
        class,
        "Slimjet",
    ) || str_contains(class, "Vivaldi")
}

/// The probes to run, in order, for the foreground window of class `class`.
/// The first probe that finds a caret decides; the GUI thread comes last.
pub fn caret_probe_plan(class: &str) -> (plan: Vec<CaretProbe>)
    ensures
        plan@ == spec_probe_plan(class@),
{
    let mut plan: Vec<CaretProbe> = Vec::new();
    if uses_ui_automation(class) {
        plan.push(CaretProbe::UiAutomation);
    }
    if uses_accessible_caret(class) {
        plan.push(CaretProbe::AccessibleCaret);
    }
    plan.push(CaretProbe::GuiThread);
    proof {
        assert(plan@ =~= spec_probe_plan(class@));
    }
    plan
}

/// The caret position that UI Automation reported: `active` tells whether the
/// text control still has the keyboard focus (a blurred control shows no
/// flag), and (`x`, `y`) is the origin of the caret range's bounding
/// rectangle, which counts only when both coordinates are nonzero.
pub fn uia_caret_point(active: bool, x: i32, y: i32) -> (p: Option<(i32, i32)>)
    ensures
        p == (if active && x != 0 && y != 0 {
            Some((x, y))
        } else {
            None
        }),
{
    if active && x != 0 && y != 0 {
        Some((x, y))
    } else {
        None
    }
}

/// The state flag of an invisible accessible object.
pub const STATE_SYSTEM_INVISIBLE: i32 = 0x8000;

/// The caret position that the accessible caret object reported: its location
/// (`left`, `top`) and, when it could be read as an integer, its state. An
/// invisible caret means that no text field has the focus; otherwise the
/// location counts when either coordinate is nonzero.
pub fn accessible_caret_point(left: i32, top: i32, state: Option<i32>) -> (p: Option<(i32, i32)>)
    ensures
        p == (if state matches Some(s) && s & STATE_SYSTEM_INVISIBLE != 0 {
            None
        } else if left != 0 || top != 0 {
            Some((left, top))
        } else {
            None
        }),
{
    if let Some(s) = state {
        if s & STATE_SYSTEM_INVISIBLE != 0 {
            return None;
        }
    }
    if left != 0 || top != 0 {
        Some((left, top))
    } else {
        None
    }
}

/// The caret position that the GUI thread reported, already in screen
/// coordinates: the origin of the screen means that there is none.
pub fn gui_thread_caret_point(x: i32, y: i32) -> (p: Option<(i32, i32)>)
    ensures
        p == (if x == 0 && y == 0 {
            None
        } else {
            Some((x, y))
        }),
{
    if x == 0 && y == 0 {
        None
    } else {
        Some((x, y))
    }
}

} // verus!
