//! The troubleshoot menu: a tree of help pages, addressed by dotted paths such
//! as `home.options.crash.next.options.port_in_use`.

use vstd::prelude::*;

use crate::builders::component::{
    ActionRow, Component, Container, SelectMenu, SelectMenuOption, TextDisplay,
};
use crate::bot::config::Palette;
use crate::framework::reply::{components_v2_bit, ephemeral_bit, Reply};
use crate::text::{
    from_chars, occurs_at, occurs_at_exec, str_eq, str_starts_with, starts_with_seq, to_chars,
    trim_start_matches, trim_start_repeated,
};

verus! {

/// The separator between a menu path and the key of one of its options.
pub open spec fn options_sep() -> Seq<char> {
    ".options."@
}

/// Where the greedy left-to-right split of `s` on `sep` (as std `str::split`
/// makes it) finds its first separator at or after `from`.
pub open spec fn first_occurrence(s: Seq<char>, sep: Seq<char>, from: int) -> Option<int>
    decreases s.len() + 1 - from,
{
    if from < 0 || from + sep.len() > s.len() {
        None
    } else if occurs_at(s, sep, from) {
        Some(from)
    } else {
        first_occurrence(s, sep, from + 1)
    }
}

/// The start of the last separator that the greedy split of `s` on a non-empty
/// `sep` finds at or after `from`.
pub open spec fn last_split(s: Seq<char>, sep: Seq<char>, from: int) -> Option<int>
    decreases s.len() + 1 - from,
{
    if sep.len() == 0 {
        None
    } else {
        match first_occurrence(s, sep, from) {
            None => None,
            Some(k) => {
                if from < k + sep.len() <= s.len() {
                    match last_split(s, sep, k + sep.len()) {
                        Some(j) => Some(j),
                        None => Some(k),
                    }
                } else {
                    None
                }
            },
        }
    }
}

/// The parent of a menu path: the path with its last option segment removed,
/// none for `home` or for a path that has no option segment.
pub open spec fn parent_of(path: Seq<char>) -> Option<Seq<char>> {
    if path == "home"@ {
        None
    } else {
        match last_split(path, options_sep(), 0) {
            Some(k) => Some(path.take(k)),
            None => None,
        }
    }
}

proof fn lemma_first_occurrence_step(s: Seq<char>, sep: Seq<char>, from: int)
    requires
        0 <= from,
        from + sep.len() <= s.len(),
        !occurs_at(s, sep, from),
    ensures
        first_occurrence(s, sep, from) == first_occurrence(s, sep, from + 1),
{
}

proof fn lemma_first_occurrence_bounds(s: Seq<char>, sep: Seq<char>, from: int)
    ensures
        first_occurrence(s, sep, from) matches Some(k) ==> from <= k && occurs_at(s, sep, k),
    decreases s.len() + 1 - from,
{
    if from >= 0 && from + sep.len() <= s.len() && !occurs_at(s, sep, from) {
        lemma_first_occurrence_bounds(s, sep, from + 1);
    }
}

/// Gets the parent path of an option.
pub fn parent_path(path: &str) -> (res: Option<String>)
    ensures
        match res {
            Some(p) => parent_of(path@) == Some(p@),
            None => parent_of(path@) is None,
        },
{
    if str_eq(path, "home") {
        return None;
    }
    let s = to_chars(path);
    let sep = to_chars(".options.");
    proof {
        reveal_strlit(".options.");
    }
    let mut last: Option<usize> = None;
    let mut i: usize = 0;
    while i < s.len()
        invariant
            sep@ == options_sep(),
            sep@.len() == 9,
            i <= s@.len(),
            last matches Some(k) ==> k < i,
            last_split(s@, sep@, 0) == match last_split(s@, sep@, i as int) {
                Some(j) => Some(j),
                None => match last {
                    Some(k) => Some(k as int),
                    None => None,
                },
            },
        decreases s@.len() - i,
    {
        if occurs_at_exec(&s, &sep, i) {
            proof {
                assert(first_occurrence(s@, sep@, i as int) == Some(i as int));
            }
            last = Some(i);
            i = i + 9;
        } else {
            proof {
                if i + sep@.len() <= s@.len() {
                    lemma_first_occurrence_step(s@, sep@, i as int);
                }
                lemma_first_occurrence_bounds(s@, sep@, i + 1);
                lemma_first_occurrence_bounds(s@, sep@, i as int);
                assert(last_split(s@, sep@, i as int) == last_split(s@, sep@, i + 1));
            }
            i = i + 1;
        }
    }
    proof {
        assert(first_occurrence(s@, sep@, i as int) is None);
    }
    match last {
        Some(k) => {
            let mut out: Vec<char> = Vec::new();
            let mut c: usize = 0;
            while c < k
                invariant
                    c <= k,
                    k <= s@.len(),
                    out@ == s@.take(c as int),
                decreases k - c,
            {
                out.push(s[c]);
                c = c + 1;
                assert(out@ =~= s@.take(c as int));
            }
            Some(from_chars(out.as_slice()))
        },
        None => None,
    }
}

/// A greedy split position always holds a separator.
proof fn lemma_last_split_occurs(s: Seq<char>, sep: Seq<char>, from: int)
    ensures
        last_split(s, sep, from) matches Some(k) ==> occurs_at(s, sep, k) && from <= k,
    decreases s.len() + 1 - from,
{
    lemma_first_occurrence_bounds(s, sep, from);
    if sep.len() > 0 {
        if let Some(k) = first_occurrence(s, sep, from) {
            if from < k + sep.len() <= s.len() {
                lemma_last_split_occurs(s, sep, k + sep.len());
            }
        }
    }
}

/// The parent of a menu path is the part of the path before one of its
/// `.options.` separators: a proper prefix that the separator follows.
pub proof fn lemma_parent_is_prefix(path: Seq<char>)
    ensures
        parent_of(path) matches Some(q) ==> {
            &&& q.len() + options_sep().len() <= path.len()
            &&& path.take(q.len() as int) == q
            &&& occurs_at(path, options_sep(), q.len() as int)
        },
{
    lemma_last_split_occurs(path, options_sep(), 0);
}

proof fn lemma_first_occurrence_min(s: Seq<char>, sep: Seq<char>, from: int)
    ensures
        first_occurrence(s, sep, from) matches Some(k) ==> forall|j: int| from <= j < k ==> !occurs_at(s, sep, j),
    decreases s.len() + 1 - from,
{
    if from >= 0 && from + sep.len() <= s.len() && !occurs_at(s, sep, from) {
        lemma_first_occurrence_min(s, sep, from + 1);
    }
}

/// The greedy split ends on the separator at `m` when every separator it meets
/// before ends by `m` and none starts after `m`.
proof fn lemma_last_split_at(s: Seq<char>, sep: Seq<char>, from: int, m: int)
    requires
        sep.len() > 0,
        0 <= from <= m,
        occurs_at(s, sep, m),
        forall|j: int| from <= j < m && occurs_at(s, sep, j) ==> j + sep.len() <= m,
        forall|j: int| j > m ==> !occurs_at(s, sep, j),
    ensures
        last_split(s, sep, from) == Some(m),
    decreases m - from,
{
    lemma_first_occurrence_min(s, sep, from);
    lemma_first_occurrence_bounds(s, sep, from);
    assert(first_occurrence(s, sep, from) is Some) by {
        if first_occurrence(s, sep, from) is None {
            lemma_first_occurrence_none_means_absent(s, sep, from, m);
        }
    }
    let k = first_occurrence(s, sep, from)->0;
    assert(k <= m);
    assert(from < k + sep.len() <= s.len());
    if k == m {
        lemma_first_occurrence_bounds(s, sep, m + sep.len());
        assert(first_occurrence(s, sep, m + sep.len()) is None);
        assert(last_split(s, sep, m + sep.len()) is None);
    } else {
        assert(k + sep.len() <= m);
        lemma_last_split_at(s, sep, k + sep.len(), m);
    }
}

/// No first occurrence from `from` means none at `m` either, for `m >= from >= 0`.
proof fn lemma_first_occurrence_none_means_absent(s: Seq<char>, sep: Seq<char>, from: int, m: int)
    requires
        0 <= from <= m,
        first_occurrence(s, sep, from) is None,
    ensures
        !occurs_at(s, sep, m),
    decreases m - from,
{
    if from < m && from + sep.len() <= s.len() {
        lemma_first_occurrence_none_means_absent(s, sep, from + 1, m);
    }
}

/// No separator starts after the one at the end of `q` in `q.options.key`, when
/// the key neither starts with `o` nor has a `.` followed by `o` early enough.
proof fn lemma_no_later_separator(q: Seq<char>, key: Seq<char>)
    requires
        key.len() == 0 || key[0] != 'o',
        forall|d: int| 0 <= d < key.len() && #[trigger] key[d] == '.' ==> d + 9 > key.len() || key[d + 1] != 'o',
    ensures
        forall|j: int| j > q.len() ==> !occurs_at(q + options_sep() + key, options_sep(), j),
{
    reveal_strlit(".options.");
    let sep = options_sep();
    let p = q + sep + key;
    let m = q.len() as int;
    assert forall|j: int| j > m implies !occurs_at(p, sep, j) by {
        if occurs_at(p, sep, j) {
            assert(p.subrange(j, j + 9)[0] == sep[0]);
            assert(p.subrange(j, j + 9)[1] == sep[1]);
            if j < m + 8 {
                assert(p[j] == sep[j - m]);
            } else if j == m + 8 {
                assert(p[j + 1] == key[0]);
            } else {
                let d = j - m - 9;
                assert(p[j] == key[d]);
                assert(p[j + 1] == key[d + 1]);
            }
        }
    }
}

/// Every separator that starts inside `q` in `q.options.key` ends inside `q`,
/// when `q` does not end with `.options`.
proof fn lemma_earlier_separators_end_early(q: Seq<char>, key: Seq<char>)
    requires
        !(q.len() >= 8 && q.subrange(q.len() - 8, q.len() as int) == ".options"@),
    ensures
        forall|j: int| 0 <= j < q.len() && occurs_at(q + options_sep() + key, options_sep(), j) ==> j + options_sep().len() <= q.len(),
{
    reveal_strlit(".options.");
    reveal_strlit(".options");
    let sep = options_sep();
    let p = q + sep + key;
    let m = q.len() as int;
    assert forall|j: int| 0 <= j < m && occurs_at(p, sep, j) implies j + sep.len() <= m by {
        if j + 9 > m {
            assert(p.subrange(j, j + 9)[m - j] == sep[m - j]);
            assert(p[m] == sep[0]);
            assert(m - j == 8);
            assert(q.subrange(q.len() - 8, q.len() as int) =~= ".options"@) by {
                assert forall|i: int| 0 <= i < 8 implies q.subrange(q.len() - 8, q.len() as int)[i] == ".options"@[i] by {
                    assert(p.subrange(j, j + 9)[i] == sep[i]);
                    assert(p[j + i] == q[j + i]);
                }
            }
        }
    }
}

/// The parent of `q.options.key` is `q`, when `q` does not end with
/// `.options` and no separator starts inside the separator or the key.
proof fn lemma_parent_of_join(q: Seq<char>, key: Seq<char>)
    requires
        !(q.len() >= 8 && q.subrange(q.len() - 8, q.len() as int) == ".options"@),
        key.len() == 0 || key[0] != 'o',
        forall|d: int| 0 <= d < key.len() && #[trigger] key[d] == '.' ==> d + 9 > key.len() || key[d + 1] != 'o',
    ensures
        parent_of(q + options_sep() + key) == Some(q),
{
    reveal_strlit(".options.");
    reveal_strlit("home");
    let sep = options_sep();
    let p = q + sep + key;
    let m = q.len() as int;
    assert(p.len() != 4);
    assert(p != "home"@);
    assert(p.subrange(m, m + 9) =~= sep);
    lemma_no_later_separator(q, key);
    lemma_earlier_separators_end_early(q, key);
    lemma_last_split_at(p, sep, 0, m);
    assert(p.take(m) =~= q);
}

proof fn lemma_node_at_crash(rest: Seq<char>)
    requires
        rest.len() == 0 || rest[0] == '.',
    ensures
        node_at("home.options.crash.next"@ + rest) == crash_node(rest),
{
    reveal_strlit("home.options.crash.next");
    reveal_strlit("home.options.crash");
    let c = "home.options.crash.next"@;
    let p = c + rest;
    assert(p.subrange(0, 18) =~= "home.options.crash"@);
    assert(p.subrange(0, 23) =~= c);
    assert(p.skip(23) =~= rest);
    assert(!starts_with_seq(rest, c)) by {
        if rest.len() >= 23 {
            assert(rest.subrange(0, 23)[0] == rest[0]);
        }
    }
    reveal_with_fuel(trim_start_repeated, 2);
}

proof fn lemma_node_at_inaccessible(rest: Seq<char>)
    requires
        rest.len() == 0 || rest[0] == '.',
    ensures
        node_at("home.options.inaccessible"@ + rest) == inaccessible_node(rest),
{
    reveal_strlit("home.options.inaccessible");
    reveal_strlit("home.options.crash");
    let c = "home.options.inaccessible"@;
    let p = c + rest;
    assert(!starts_with_seq(p, "home.options.crash"@)) by {
        assert(p.subrange(0, 18)[13] == p[13]);
    }
    assert(p.subrange(0, 25) =~= c);
    assert(p.skip(25) =~= rest);
    assert(!starts_with_seq(rest, c)) by {
        if rest.len() >= 25 {
            assert(rest.subrange(0, 25)[0] == rest[0]);
        }
    }
    reveal_with_fuel(trim_start_repeated, 2);
}

/// `message` is the help text of the same option as `label`: the pairs of the
/// leaf pages' label and help text keys.
pub open spec fn same_option(label: TroubleshootText, message: TroubleshootText) -> bool {
    ||| label == TroubleshootText::ModuleNotFoundLabel && message == TroubleshootText::ModuleNotFoundMessage
    ||| label == TroubleshootText::PortInUseLabel && message == TroubleshootText::PortInUseMessage
    ||| label == TroubleshootText::SyntaxErrorLabel && message == TroubleshootText::SyntaxErrorMessage
    ||| label == TroubleshootText::InsufficientMemoryLabel && message == TroubleshootText::InsufficientMemoryMessage
    ||| label == TroubleshootText::StayStartingStateLabel && message == TroubleshootText::StayStartingStateMessage
    ||| label == TroubleshootText::BadGatewayLabel && message == TroubleshootText::BadGatewayMessage
    ||| label == TroubleshootText::NotFoundLabel && message == TroubleshootText::NotFoundMessage
    ||| label == TroubleshootText::DomainNotPointingLabel && message == TroubleshootText::DomainNotPointingMessage
}

/// Every leaf page, at whatever path, shows the help text of the option its
/// heading names.
pub proof fn lemma_leaf_message_matches_heading(p: Seq<char>)
    ensures
        node_at(p) matches Some(s) ==> (s.heading ==> same_option(s.title, s.message)),
{
}

/// The key of the option that a leaf label names, as it ends the leaf's path.
pub open spec fn option_key(label: TroubleshootText) -> Seq<char> {
    match label {
        TroubleshootText::ModuleNotFoundLabel => "module_not_found"@,
        TroubleshootText::PortInUseLabel => "port_in_use"@,
        TroubleshootText::SyntaxErrorLabel => "syntax_error"@,
        TroubleshootText::InsufficientMemoryLabel => "insufficient_memory"@,
        TroubleshootText::StayStartingStateLabel => "stay_starting_state"@,
        TroubleshootText::BadGatewayLabel => "502"@,
        TroubleshootText::NotFoundLabel => "404"@,
        TroubleshootText::DomainNotPointingLabel => "domain_not_pointing"@,
        _ => Seq::empty(),
    }
}

/// `suffix` ends `s`.
pub open spec fn ends_with_seq(s: Seq<char>, suffix: Seq<char>) -> bool {
    suffix.len() <= s.len() && s.skip(s.len() - suffix.len()) == suffix
}

/// What trimming leading copies of a prefix leaves ends the text.
proof fn lemma_trim_is_suffix(s: Seq<char>, c: Seq<char>)
    ensures
        ends_with_seq(s, trim_start_repeated(s, c)),
    decreases s.len(),
{
    if c.len() > 0 && starts_with_seq(s, c) {
        let rest = s.skip(c.len() as int);
        lemma_trim_is_suffix(rest, c);
        let t = trim_start_repeated(rest, c);
        assert(s.skip(s.len() - t.len()) =~= rest.skip(rest.len() - t.len()));
    } else {
        assert(s.skip(0) =~= s);
    }
}

/// Every leaf page, at whatever path, is headed by the label of the option
/// that its path ends with: the path ends with `.options.` and that option's key.
pub proof fn lemma_leaf_heading_matches_path(p: Seq<char>)
    ensures
        node_at(p) matches Some(s) ==> (s.heading ==> ends_with_seq(p, ".options."@ + option_key(s.title))),
{
    reveal_strlit(".options.");
    reveal_strlit("module_not_found");
    reveal_strlit("port_in_use");
    reveal_strlit("syntax_error");
    reveal_strlit("insufficient_memory");
    reveal_strlit("stay_starting_state");
    reveal_strlit("502");
    reveal_strlit("404");
    reveal_strlit("domain_not_pointing");
    reveal_strlit(".options.module_not_found");
    reveal_strlit(".options.port_in_use");
    reveal_strlit(".options.syntax_error");
    reveal_strlit(".options.insufficient_memory");
    reveal_strlit(".options.stay_starting_state");
    reveal_strlit(".next.options.502");
    reveal_strlit(".next.options.404");
    reveal_strlit(".next.options.domain_not_pointing");
    if let Some(s) = node_at(p) {
        if s.heading {
            let t = if starts_with_seq(p, "home.options.crash"@) {
                trim_start_repeated(p, "home.options.crash.next"@)
            } else {
                trim_start_repeated(p, "home.options.inaccessible"@)
            };
            lemma_trim_is_suffix(p, "home.options.crash.next"@);
            lemma_trim_is_suffix(p, "home.options.inaccessible"@);
            let want = ".options."@ + option_key(s.title);
            if starts_with_seq(p, "home.options.crash"@) {
                assert(want =~= t);
                assert(t.skip(0) =~= t);
            } else {
                assert(t.skip(5) =~= want);
            }
            assert(ends_with_seq(t, want));
            assert(p.skip(p.len() - want.len()) =~= t.skip(t.len() - want.len()));
        }
    }
}

/// `n` is a leaf page headed by the label `label`: a `## ` heading of that
/// text, and no options.
pub open spec fn is_leaf_for(n: Option<NodeSpec>, label: TroubleshootText) -> bool {
    n matches Some(s) && s.heading && s.title == label && s.options.len() == 0
}

/// The paths of the troubleshoot menu's pages, the top page first.
pub open spec fn menu_paths() -> Seq<Seq<char>> {
    seq![
        "home"@,
        "home.options.crash.next"@,
        "home.options.inaccessible.next"@,
        "home.options.crash.next.options.module_not_found"@,
        "home.options.crash.next.options.port_in_use"@,
        "home.options.crash.next.options.syntax_error"@,
        "home.options.crash.next.options.insufficient_memory"@,
        "home.options.crash.next.options.stay_starting_state"@,
        "home.options.inaccessible.next.options.502"@,
        "home.options.inaccessible.next.options.404"@,
        "home.options.inaccessible.next.options.domain_not_pointing"@,
    ]
}

/// A page path that leads nowhere dead: a page is there, each of its options
/// leads to a page path, and its return option leads to a page path (the top
/// page has none).
pub open spec fn page_ok(p: Seq<char>) -> bool {
    &&& node_at(p) is Some
    &&& forall|k: int|
        0 <= k < node_at(p)->0.options.len() ==> menu_paths().contains(#[trigger] node_at(p)->0.options[k].0)
    &&& if p == "home"@ {
        parent_of(p) is None
    } else {
        parent_of(p) matches Some(q) && menu_paths().contains(q)
    }
}

proof fn lemma_leaf_key(key: Seq<char>)
    requires
        key.len() > 0,
        key[0] != 'o',
        forall|d: int| 0 <= d < key.len() ==> #[trigger] key[d] != '.',
    ensures
        forall|d: int| 0 <= d < key.len() && #[trigger] key[d] == '.' ==> d + 9 > key.len() || key[d + 1] != 'o',
{
}

proof fn lemma_crash_leaf_ok(key: Seq<char>, i: int)
    requires
        key.len() > 0,
        key[0] != 'o',
        forall|d: int| 0 <= d < key.len() ==> #[trigger] key[d] != '.',
        0 <= i < menu_paths().len(),
        menu_paths()[i] == "home.options.crash.next"@ + ".options."@ + key,
        crash_node(".options."@ + key) is Some,
        crash_node(".options."@ + key)->0.options.len() == 0,
    ensures
        page_ok(menu_paths()[i]),
        node_at(menu_paths()[i]) == crash_node(".options."@ + key),
        parent_of(menu_paths()[i]) == Some(menu_paths()[1]),
{
    reveal_strlit(".options.");
    reveal_strlit("home.options.crash.next");
    reveal_strlit("home");
    let c = "home.options.crash.next"@;
    let p = c + ".options."@ + key;
    assert(c + ".options."@ + key =~= c + (".options."@ + key));
    lemma_node_at_crash(".options."@ + key);
    lemma_leaf_key(key);
    assert(options_sep() == ".options."@);
    reveal_strlit(".options");
    assert(c.subrange(c.len() - 8, c.len() as int)[0] == 'a');
    assert(c.subrange(c.len() - 8, c.len() as int) != ".options"@);
    lemma_parent_of_join(c, key);
    assert(menu_paths()[1] == c);
    assert(p.len() > 4);
}

proof fn lemma_inaccessible_leaf_ok(key: Seq<char>, i: int)
    requires
        key.len() > 0,
        key[0] != 'o',
        forall|d: int| 0 <= d < key.len() ==> #[trigger] key[d] != '.',
        0 <= i < menu_paths().len(),
        menu_paths()[i] == "home.options.inaccessible.next"@ + ".options."@ + key,
        inaccessible_node(".next.options."@ + key) is Some,
        inaccessible_node(".next.options."@ + key)->0.options.len() == 0,
    ensures
        page_ok(menu_paths()[i]),
        node_at(menu_paths()[i]) == inaccessible_node(".next.options."@ + key),
        parent_of(menu_paths()[i]) == Some(menu_paths()[2]),
{
    reveal_strlit(".options.");
    reveal_strlit(".next.options.");
    reveal_strlit("home.options.inaccessible.next");
    reveal_strlit("home.options.inaccessible");
    reveal_strlit("home");
    let c = "home.options.inaccessible.next"@;
    let p = c + ".options."@ + key;
    assert(p =~= "home.options.inaccessible"@ + (".next.options."@ + key));
    lemma_node_at_inaccessible(".next.options."@ + key);
    lemma_leaf_key(key);
    assert(options_sep() == ".options."@);
    reveal_strlit(".options");
    assert(c.subrange(c.len() - 8, c.len() as int)[0] == 'b');
    assert(c.subrange(c.len() - 8, c.len() as int) != ".options"@);
    lemma_parent_of_join(c, key);
    assert(menu_paths()[2] == c);
    assert(p.len() > 4);
}

/// The troubleshoot menu has no dead ends: every page path names a page, every
/// option of a page leads to a page path, and so does the return option of
/// every page but the top one.
pub proof fn lemma_menu_has_no_dead_ends()
    ensures
        forall|i: int| 0 <= i < menu_paths().len() ==> page_ok(#[trigger] menu_paths()[i]),
{
    lemma_home_ok();
    lemma_crash_root_ok();
    lemma_inaccessible_root_ok();
    lemma_crash_leaves_ok();
    lemma_inaccessible_leaves_ok();
}

/// Trimming a prefix that starts `p` once, but not twice in a row, leaves what
/// follows its one copy.
proof fn lemma_trim_once(p: Seq<char>, c: Seq<char>)
    requires
        c.len() > 0,
        starts_with_seq(p, c),
        !starts_with_seq(p, c + c),
    ensures
        p == c + p.skip(c.len() as int),
        trim_start_repeated(p, c) == p.skip(c.len() as int),
{
    let n = c.len() as int;
    let rest = p.skip(n);
    assert forall|i: int| 0 <= i < n implies p[i] == c[i] by {
        assert(p.subrange(0, n)[i] == p[i]);
    }
    assert(p =~= c + rest);
    if starts_with_seq(rest, c) {
        assert forall|i: int| 0 <= i < 2 * n implies #[trigger] p.subrange(0, 2 * n)[i] == (c + c)[i] by {
            if i >= n {
                assert(rest.subrange(0, n)[i - n] == rest[i - n]);
            }
        }
        assert(p.subrange(0, 2 * n) =~= c + c);
    }
    assert(!starts_with_seq(rest, c));
    reveal_with_fuel(trim_start_repeated, 2);
}

/// A path that names a page, and does not repeat the prefix of the crash or the
/// inaccessible-server submenu, is one of the menu's page paths.
pub proof fn lemma_pages_are_menu_paths(p: Seq<char>)
    requires
        node_at(p) is Some,
        !starts_with_seq(p, "home.options.crash.nexthome.options.crash.next"@),
        !starts_with_seq(p, "home.options.inaccessiblehome.options.inaccessible"@),
    ensures
        menu_paths().contains(p),
{
    reveal_strlit("home");
    reveal_strlit("home.options.crash");
    reveal_strlit("home.options.crash.next");
    reveal_strlit("home.options.inaccessible");
    reveal_strlit("home.options.inaccessible.next");
    reveal_strlit("home.options.crash.nexthome.options.crash.next");
    reveal_strlit("home.options.inaccessiblehome.options.inaccessible");
    reveal_strlit(".options.module_not_found");
    reveal_strlit(".options.port_in_use");
    reveal_strlit(".options.syntax_error");
    reveal_strlit(".options.insufficient_memory");
    reveal_strlit(".options.stay_starting_state");
    reveal_strlit(".next");
    reveal_strlit(".next.options.502");
    reveal_strlit(".next.options.404");
    reveal_strlit(".next.options.domain_not_pointing");
    reveal_strlit("home.options.crash.next.options.module_not_found");
    reveal_strlit("home.options.crash.next.options.port_in_use");
    reveal_strlit("home.options.crash.next.options.syntax_error");
    reveal_strlit("home.options.crash.next.options.insufficient_memory");
    reveal_strlit("home.options.crash.next.options.stay_starting_state");
    reveal_strlit("home.options.inaccessible.next.options.502");
    reveal_strlit("home.options.inaccessible.next.options.404");
    reveal_strlit("home.options.inaccessible.next.options.domain_not_pointing");
    let crash = "home.options.crash.next"@;
    let inacc = "home.options.inaccessible"@;
    if starts_with_seq(p, "home.options.crash"@) {
        assert(p.subrange(0, 18)[0] == p[0]);
        if starts_with_seq(p, crash) {
            assert(crash + crash =~= "home.options.crash.nexthome.options.crash.next"@);
            lemma_trim_once(p, crash);
            let rest = p.skip(23);
            if rest.len() == 0 {
                assert(p =~= menu_paths()[1]);
            } else if rest == ".options.module_not_found"@ {
                assert(p =~= menu_paths()[3]);
            } else if rest == ".options.port_in_use"@ {
                assert(p =~= menu_paths()[4]);
            } else if rest == ".options.syntax_error"@ {
                assert(p =~= menu_paths()[5]);
            } else if rest == ".options.insufficient_memory"@ {
                assert(p =~= menu_paths()[6]);
            } else {
                assert(rest == ".options.stay_starting_state"@);
                assert(p =~= menu_paths()[7]);
            }
        } else {
            assert(trim_start_repeated(p, crash) == p);
            assert(crash_node(p) is None);
        }
    } else if starts_with_seq(p, inacc) {
        assert(inacc + inacc =~= "home.options.inaccessiblehome.options.inaccessible"@);
        lemma_trim_once(p, inacc);
        let rest = p.skip(25);
        if rest == ".next"@ {
            assert(p =~= menu_paths()[2]);
        } else if rest == ".next.options.502"@ {
            assert(p =~= menu_paths()[8]);
        } else if rest == ".next.options.404"@ {
            assert(p =~= menu_paths()[9]);
        } else {
            assert(rest == ".next.options.domain_not_pointing"@);
            assert(p =~= menu_paths()[10]);
        }
    } else {
        assert(p == menu_paths()[0]);
    }
}

/// Every option of a page leads to a page, and the parent of that page is the
/// page that offered the option: its return option leads back. (A path that
/// repeats a submenu's prefix shows the same page as the path without the
/// repetition, whose options lead back to that shorter path.)
pub proof fn lemma_options_lead_back(p: Seq<char>, k: int)
    requires
        node_at(p) is Some,
        !starts_with_seq(p, "home.options.crash.nexthome.options.crash.next"@),
        !starts_with_seq(p, "home.options.inaccessiblehome.options.inaccessible"@),
        0 <= k < node_at(p)->0.options.len(),
    ensures
        node_at(node_at(p)->0.options[k].0) is Some,
        parent_of(node_at(p)->0.options[k].0) == Some(p),
{
    lemma_pages_are_menu_paths(p);
    lemma_home_ok();
    lemma_crash_root_ok();
    lemma_inaccessible_root_ok();
    lemma_crash_leaves_ok();
    lemma_inaccessible_leaves_ok();
    let i = choose|i: int| 0 <= i < menu_paths().len() && menu_paths()[i] == p;
    if i == 0 {
        assert(home_node().options[k].0 == menu_paths()[1 + k]);
        assert(page_ok(menu_paths()[1 + k]));
    } else if i == 1 {
        assert(crash_node(Seq::<char>::empty())->0.options[k].0 == menu_paths()[3 + k]);
        assert(page_ok(menu_paths()[3 + k]));
        assert(parent_of(menu_paths()[3 + k]) == Some(menu_paths()[1]));
    } else if i == 2 {
        assert(inaccessible_node(".next"@)->0.options[k].0 == menu_paths()[8 + k]);
        assert(page_ok(menu_paths()[8 + k]));
        assert(parent_of(menu_paths()[8 + k]) == Some(menu_paths()[2]));
    } else if i < 8 {
        assert(parent_of(menu_paths()[i]) == Some(menu_paths()[1]));
    } else {
        assert(parent_of(menu_paths()[i]) == Some(menu_paths()[2]));
    }
}

/// Every choice of the crash and the inaccessible-server submenus leads to a
/// leaf page headed by the label of that choice.
pub proof fn lemma_submenu_choices_lead_to_leaves(r: Seq<char>, k: int)
    requires
        node_at(r) == node_at(menu_paths()[1]) || node_at(r) == node_at(menu_paths()[2]),
        0 <= k < node_at(r)->0.options.len(),
    ensures
        is_leaf_for(node_at(node_at(r)->0.options[k].0), node_at(r)->0.options[k].1),
{
    lemma_crash_root_ok();
    lemma_inaccessible_root_ok();
    lemma_crash_leaves_ok();
    lemma_inaccessible_leaves_ok();
    if node_at(r) == node_at(menu_paths()[1]) {
        assert(crash_node(Seq::<char>::empty())->0.options[k].0 == menu_paths()[3 + k]);
        assert(is_leaf_for(node_at(menu_paths()[3 + k]), crash_node(Seq::<char>::empty())->0.options[(3 + k) - 3].1));
    } else {
        assert(inaccessible_node(".next"@)->0.options[k].0 == menu_paths()[8 + k]);
        assert(is_leaf_for(node_at(menu_paths()[8 + k]), inaccessible_node(".next"@)->0.options[(8 + k) - 8].1));
    }
}

/// Nothing lies below a leaf of the crash or the inaccessible-server submenu:
/// the leaf's path followed by anything more names no page.
pub proof fn lemma_nothing_below_leaves(r: Seq<char>, k: int, more: Seq<char>)
    requires
        node_at(r) == node_at(menu_paths()[1]) || node_at(r) == node_at(menu_paths()[2]),
        0 <= k < node_at(r)->0.options.len(),
        more.len() > 0,
    ensures
        node_at(node_at(r)->0.options[k].0 + more) is None,
{
    lemma_crash_root_ok();
    lemma_inaccessible_root_ok();
    reveal_strlit("home.options.crash.next");
    reveal_strlit("home.options.inaccessible");
    reveal_strlit("home.options.crash.next.options.module_not_found");
    reveal_strlit("home.options.crash.next.options.port_in_use");
    reveal_strlit("home.options.crash.next.options.syntax_error");
    reveal_strlit("home.options.crash.next.options.insufficient_memory");
    reveal_strlit("home.options.crash.next.options.stay_starting_state");
    reveal_strlit(".options.module_not_found");
    reveal_strlit(".options.port_in_use");
    reveal_strlit(".options.syntax_error");
    reveal_strlit(".options.insufficient_memory");
    reveal_strlit(".options.stay_starting_state");
    reveal_strlit("home.options.inaccessible.next.options.502");
    reveal_strlit("home.options.inaccessible.next.options.404");
    reveal_strlit("home.options.inaccessible.next.options.domain_not_pointing");
    reveal_strlit(".next");
    reveal_strlit(".next.options.502");
    reveal_strlit(".next.options.404");
    reveal_strlit(".next.options.domain_not_pointing");
    if node_at(r) == node_at(menu_paths()[1]) {
        let c = "home.options.crash.next"@;
        let rests = seq![
            ".options.module_not_found"@,
            ".options.port_in_use"@,
            ".options.syntax_error"@,
            ".options.insufficient_memory"@,
            ".options.stay_starting_state"@,
        ];
        let q = crash_node(Seq::<char>::empty())->0.options[k].0;
        assert(q =~= c + rests[k]);
        let x = rests[k] + more;
        assert(q + more =~= c + x);
        assert(x[0] == rests[k][0]);
        lemma_node_at_crash(x);
        assert(x[9] == rests[k][9]);
        assert(x[10] == rests[k][10]);
        assert(crash_node(x) is None);
    } else {
        let c = "home.options.inaccessible"@;
        let rests = seq![".next.options.502"@, ".next.options.404"@, ".next.options.domain_not_pointing"@];
        let q = inaccessible_node(".next"@)->0.options[k].0;
        assert(q =~= c + rests[k]);
        let x = rests[k] + more;
        assert(q + more =~= c + x);
        assert(x[0] == rests[k][0]);
        lemma_node_at_inaccessible(x);
        assert(x[14] == rests[k][14]);
        assert(inaccessible_node(x) is None);
    }
}

/// The prefixes of the crash and the inaccessible-server submenus name no page
/// on their own.
pub proof fn lemma_submenu_prefixes_name_no_page()
    ensures
        node_at("home.options.crash"@) is None,
        node_at("home.options.inaccessible"@) is None,
{
    reveal_strlit("home.options.crash");
    reveal_strlit("home.options.crash.next");
    reveal_strlit("home.options.inaccessible");
    reveal_strlit(".options.module_not_found");
    reveal_strlit(".options.port_in_use");
    reveal_strlit(".options.syntax_error");
    reveal_strlit(".options.insufficient_memory");
    reveal_strlit(".options.stay_starting_state");
    reveal_strlit(".next");
    reveal_strlit(".next.options.502");
    reveal_strlit(".next.options.404");
    reveal_strlit(".next.options.domain_not_pointing");
    let p = "home.options.crash"@;
    assert(p.subrange(0, 18) =~= p);
    assert(trim_start_repeated(p, "home.options.crash.next"@) == p);
    assert(crash_node(p) is None);
    lemma_node_at_inaccessible(Seq::<char>::empty());
    assert("home.options.inaccessible"@ + Seq::<char>::empty() =~= "home.options.inaccessible"@);
}

/// In one set of texts, a choice shown on the crash or the inaccessible-server
/// submenu leads to a page whose title is `## ` and the label the choice showed,
/// and which offers no further options.
pub proof fn lemma_choice_heading(
    texts: TroubleshootTexts,
    r: Seq<char>,
    root: NodeData,
    k: int,
    page: NodeData,
)
    requires
        node_at(r) == node_at(menu_paths()[1]) || node_at(r) == node_at(menu_paths()[2]),
        shows(root, node_at(r)->0, texts),
        0 <= k < root.options@.len(),
        shows(page, node_at(root.options@[k].0@)->0, texts),
    ensures
        node_at(root.options@[k].0@) is Some,
        page.title@ == "## "@ + root.options@[k].1@,
        page.options@.len() == 0,
{
    let spec = node_at(r)->0;
    assert(root.options@[k].0@ == spec.options[k].0);
    lemma_submenu_choices_lead_to_leaves(r, k);
}

proof fn lemma_home_ok()
    ensures
        page_ok(menu_paths()[0]),
        node_at(menu_paths()[0]) == Some(home_node()),
        forall|k: int| 0 <= k < 2 ==> #[trigger] home_node().options[k].0 == menu_paths()[1 + k],
{
    reveal_strlit("home");
    reveal_strlit("home.options.crash");
    reveal_strlit("home.options.inaccessible");
    let p = "home"@;
    assert(!starts_with_seq(p, "home.options.crash"@));
    assert(!starts_with_seq(p, "home.options.inaccessible"@));
    assert(node_at(p) == Some(home_node()));
    assert(menu_paths()[1] == home_node().options[0].0);
    assert(menu_paths()[2] == home_node().options[1].0);
    assert forall|k: int| 0 <= k < 2 implies #[trigger] home_node().options[k].0 == menu_paths()[1 + k] by {
        if k == 0 {
            assert(menu_paths()[1] == home_node().options[0].0);
        }
    }
}

proof fn lemma_crash_root_ok()
    ensures
        page_ok(menu_paths()[1]),
        node_at(menu_paths()[1]) == crash_node(Seq::<char>::empty()),
        parent_of(menu_paths()[1]) == Some(menu_paths()[0]),
        forall|k: int|
            0 <= k < 5 ==> #[trigger] crash_node(Seq::<char>::empty())->0.options[k].0 == menu_paths()[3 + k],
{
    reveal_strlit("home");
    reveal_strlit(".options.");
    reveal_strlit("crash.next");
    reveal_strlit("home.options.crash.next");
    let key = "crash.next"@;
    let p = menu_paths()[1];
    assert(p =~= "home"@ + options_sep() + key);
    assert forall|d: int| 0 <= d < key.len() && #[trigger] key[d] == '.' implies d + 9 > key.len() || key[d + 1] != 'o' by {
        if d < 2 {
            assert(key[0] == 'c' && key[1] == 'r');
        }
    }
    lemma_parent_of_join("home"@, key);
    assert(p =~= "home.options.crash.next"@ + Seq::<char>::empty());
    lemma_node_at_crash(Seq::<char>::empty());
    let spec = crash_node(Seq::<char>::empty())->0;
    assert forall|k: int| 0 <= k < spec.options.len() implies menu_paths().contains(#[trigger] spec.options[k].0) by {
        assert(menu_paths()[3 + k] == spec.options[k].0);
    }
}

proof fn lemma_inaccessible_root_ok()
    ensures
        page_ok(menu_paths()[2]),
        node_at(menu_paths()[2]) == inaccessible_node(".next"@),
        parent_of(menu_paths()[2]) == Some(menu_paths()[0]),
        forall|k: int| 0 <= k < 3 ==> #[trigger] inaccessible_node(".next"@)->0.options[k].0 == menu_paths()[8 + k],
{
    reveal_strlit("home");
    reveal_strlit(".options.");
    reveal_strlit(".next");
    reveal_strlit("inaccessible.next");
    reveal_strlit("home.options.inaccessible");
    reveal_strlit("home.options.inaccessible.next");
    let key = "inaccessible.next"@;
    let p = menu_paths()[2];
    assert(p =~= "home"@ + options_sep() + key);
    assert forall|d: int| 0 <= d < key.len() && #[trigger] key[d] == '.' implies d + 9 > key.len() || key[d + 1] != 'o' by {
        if d < 8 {
            assert(key[0] == 'i' && key[1] == 'n' && key[2] == 'a' && key[3] == 'c' && key[4] == 'c' && key[5] == 'e' && key[6] == 's' && key[7] == 's');
        }
    }
    lemma_parent_of_join("home"@, key);
    assert(p =~= "home.options.inaccessible"@ + ".next"@);
    lemma_node_at_inaccessible(".next"@);
    let spec = inaccessible_node(".next"@)->0;
    assert forall|k: int| 0 <= k < spec.options.len() implies menu_paths().contains(#[trigger] spec.options[k].0) by {
        assert(menu_paths()[8 + k] == spec.options[k].0);
    }
}

proof fn lemma_crash_leaves_ok()
    ensures
        forall|i: int| 3 <= i < 8 ==> page_ok(#[trigger] menu_paths()[i]),
        forall|i: int|
            3 <= i < 8 ==> parent_of(#[trigger] menu_paths()[i]) == Some(menu_paths()[1]) && is_leaf_for(
                node_at(menu_paths()[i]),
                crash_node(Seq::<char>::empty())->0.options[i - 3].1,
            ),
{
    reveal_strlit(".options.");
    reveal_strlit("home.options.crash.next");
    reveal_strlit("module_not_found");
    reveal_strlit("port_in_use");
    reveal_strlit("syntax_error");
    reveal_strlit("insufficient_memory");
    reveal_strlit("stay_starting_state");
    reveal_strlit("home.options.crash.next.options.module_not_found");
    reveal_strlit("home.options.crash.next.options.port_in_use");
    reveal_strlit("home.options.crash.next.options.syntax_error");
    reveal_strlit("home.options.crash.next.options.insufficient_memory");
    reveal_strlit("home.options.crash.next.options.stay_starting_state");
    reveal_strlit(".options.module_not_found");
    reveal_strlit(".options.port_in_use");
    reveal_strlit(".options.syntax_error");
    reveal_strlit(".options.insufficient_memory");
    reveal_strlit(".options.stay_starting_state");
    let c = "home.options.crash.next"@;
    let keys = seq!["module_not_found"@, "port_in_use"@, "syntax_error"@, "insufficient_memory"@, "stay_starting_state"@];
    let rests = seq![
        ".options.module_not_found"@,
        ".options.port_in_use"@,
        ".options.syntax_error"@,
        ".options.insufficient_memory"@,
        ".options.stay_starting_state"@,
    ];
    let labels = seq![
        TroubleshootText::ModuleNotFoundLabel,
        TroubleshootText::PortInUseLabel,
        TroubleshootText::SyntaxErrorLabel,
        TroubleshootText::InsufficientMemoryLabel,
        TroubleshootText::StayStartingStateLabel,
    ];
    let ghost root = crash_node(Seq::<char>::empty())->0;
    assert forall|i: int| 3 <= i < 8 implies page_ok(#[trigger] menu_paths()[i]) && parent_of(menu_paths()[i]) == Some(
        menu_paths()[1],
    ) && is_leaf_for(node_at(menu_paths()[i]), root.options[i - 3].1) by {
        let key = keys[i - 3];
        assert(menu_paths()[i] =~= c + ".options."@ + key);
        assert(forall|d: int| 0 <= d < key.len() ==> #[trigger] key[d] != '.');
        assert(".options."@ + key =~= rests[i - 3]);
        lemma_crash_leaf_ok(key, i);
        assert(root.options[i - 3].1 == labels[i - 3]);
        assert(rests[4][9] != rests[3][9]);
        assert(is_leaf_for(crash_node(rests[i - 3]), labels[i - 3]));
    }
}

proof fn lemma_inaccessible_leaves_ok()
    ensures
        forall|i: int| 8 <= i < 11 ==> page_ok(#[trigger] menu_paths()[i]),
        forall|i: int|
            8 <= i < 11 ==> parent_of(#[trigger] menu_paths()[i]) == Some(menu_paths()[2]) && is_leaf_for(
                node_at(menu_paths()[i]),
                inaccessible_node(".next"@)->0.options[i - 8].1,
            ),
{
    reveal_strlit(".options.");
    reveal_strlit(".next.options.");
    reveal_strlit(".next");
    reveal_strlit("home.options.inaccessible.next");
    reveal_strlit("502");
    reveal_strlit("404");
    reveal_strlit("domain_not_pointing");
    reveal_strlit("home.options.inaccessible.next.options.502");
    reveal_strlit("home.options.inaccessible.next.options.404");
    reveal_strlit("home.options.inaccessible.next.options.domain_not_pointing");
    reveal_strlit(".next.options.502");
    reveal_strlit(".next.options.404");
    reveal_strlit(".next.options.domain_not_pointing");
    let c = "home.options.inaccessible.next"@;
    let keys = seq!["502"@, "404"@, "domain_not_pointing"@];
    let rests = seq![".next.options.502"@, ".next.options.404"@, ".next.options.domain_not_pointing"@];
    let labels = seq![
        TroubleshootText::BadGatewayLabel,
        TroubleshootText::NotFoundLabel,
        TroubleshootText::DomainNotPointingLabel,
    ];
    let ghost root = inaccessible_node(".next"@)->0;
    assert forall|i: int| 8 <= i < 11 implies page_ok(#[trigger] menu_paths()[i]) && parent_of(menu_paths()[i]) == Some(
        menu_paths()[2],
    ) && is_leaf_for(node_at(menu_paths()[i]), root.options[i - 8].1) by {
        let key = keys[i - 8];
        assert(menu_paths()[i] =~= c + ".options."@ + key);
        assert(forall|d: int| 0 <= d < key.len() ==> #[trigger] key[d] != '.');
        assert(".next.options."@ + key =~= rests[i - 8]);
        assert((".next.options."@ + key).len() != ".next"@.len());
        lemma_inaccessible_leaf_ok(key, i);
        assert(root.options[i - 8].1 == labels[i - 8]);
        assert(rests[1][14] != rests[0][14]);
        assert(is_leaf_for(inaccessible_node(rests[i - 8]), labels[i - 8]));
    }
}

/// A translatable text of the troubleshoot menu.
#[derive(Clone, Copy, Debug, PartialEq, Eq, Structural)]
pub enum TroubleshootText {
    HomeTitle,
    HomeMessage,
    CrashLabel,
    InaccessibleLabel,
    Return,
    CrashTitle,
    CrashMessage,
    ModuleNotFoundLabel,
    ModuleNotFoundMessage,
    PortInUseLabel,
    PortInUseMessage,
    SyntaxErrorLabel,
    SyntaxErrorMessage,
    InsufficientMemoryLabel,
    InsufficientMemoryMessage,
    StayStartingStateLabel,
    StayStartingStateMessage,
    InaccessibleTitle,
    InaccessibleMessage,
    BadGatewayLabel,
    BadGatewayMessage,
    NotFoundLabel,
    NotFoundMessage,
    DomainNotPointingLabel,
    DomainNotPointingMessage,
}

/// The place of a key among the menu's texts, in declaration order.
pub open spec fn text_index(k: TroubleshootText) -> int {
    match k {
        TroubleshootText::HomeTitle => 0,
        TroubleshootText::HomeMessage => 1,
        TroubleshootText::CrashLabel => 2,
        TroubleshootText::InaccessibleLabel => 3,
        TroubleshootText::Return => 4,
        TroubleshootText::CrashTitle => 5,
        TroubleshootText::CrashMessage => 6,
        TroubleshootText::ModuleNotFoundLabel => 7,
        TroubleshootText::ModuleNotFoundMessage => 8,
        TroubleshootText::PortInUseLabel => 9,
        TroubleshootText::PortInUseMessage => 10,
        TroubleshootText::SyntaxErrorLabel => 11,
        TroubleshootText::SyntaxErrorMessage => 12,
        TroubleshootText::InsufficientMemoryLabel => 13,
        TroubleshootText::InsufficientMemoryMessage => 14,
        TroubleshootText::StayStartingStateLabel => 15,
        TroubleshootText::StayStartingStateMessage => 16,
        TroubleshootText::InaccessibleTitle => 17,
        TroubleshootText::InaccessibleMessage => 18,
        TroubleshootText::BadGatewayLabel => 19,
        TroubleshootText::BadGatewayMessage => 20,
        TroubleshootText::NotFoundLabel => 21,
        TroubleshootText::NotFoundMessage => 22,
        TroubleshootText::DomainNotPointingLabel => 23,
        TroubleshootText::DomainNotPointingMessage => 24,
    }
}

/// How many texts the menu has.
pub const TEXT_COUNT: usize = 25;

impl TroubleshootText {
    /// Every key, in declaration order.
    pub fn all() -> (res: Vec<TroubleshootText>)
        ensures
            res@.len() == TEXT_COUNT,
            forall|i: int| 0 <= i < TEXT_COUNT ==> text_index(#[trigger] res@[i]) == i,
    {
        let res = vec![
            TroubleshootText::HomeTitle,
            TroubleshootText::HomeMessage,
            TroubleshootText::CrashLabel,
            TroubleshootText::InaccessibleLabel,
            TroubleshootText::Return,
            TroubleshootText::CrashTitle,
            TroubleshootText::CrashMessage,
            TroubleshootText::ModuleNotFoundLabel,
            TroubleshootText::ModuleNotFoundMessage,
            TroubleshootText::PortInUseLabel,
            TroubleshootText::PortInUseMessage,
            TroubleshootText::SyntaxErrorLabel,
            TroubleshootText::SyntaxErrorMessage,
            TroubleshootText::InsufficientMemoryLabel,
            TroubleshootText::InsufficientMemoryMessage,
            TroubleshootText::StayStartingStateLabel,
            TroubleshootText::StayStartingStateMessage,
            TroubleshootText::InaccessibleTitle,
            TroubleshootText::InaccessibleMessage,
            TroubleshootText::BadGatewayLabel,
            TroubleshootText::BadGatewayMessage,
            TroubleshootText::NotFoundLabel,
            TroubleshootText::NotFoundMessage,
            TroubleshootText::DomainNotPointingLabel,
            TroubleshootText::DomainNotPointingMessage,
        ];
        res
    }

    /// The place of the key among the menu's texts.
    pub fn index(self) -> (res: usize)
        ensures
            res == text_index(self),
    {
        match self {
            TroubleshootText::HomeTitle => 0,
            TroubleshootText::HomeMessage => 1,
            TroubleshootText::CrashLabel => 2,
            TroubleshootText::InaccessibleLabel => 3,
            TroubleshootText::Return => 4,
            TroubleshootText::CrashTitle => 5,
            TroubleshootText::CrashMessage => 6,
            TroubleshootText::ModuleNotFoundLabel => 7,
            TroubleshootText::ModuleNotFoundMessage => 8,
            TroubleshootText::PortInUseLabel => 9,
            TroubleshootText::PortInUseMessage => 10,
            TroubleshootText::SyntaxErrorLabel => 11,
            TroubleshootText::SyntaxErrorMessage => 12,
            TroubleshootText::InsufficientMemoryLabel => 13,
            TroubleshootText::InsufficientMemoryMessage => 14,
            TroubleshootText::StayStartingStateLabel => 15,
            TroubleshootText::StayStartingStateMessage => 16,
            TroubleshootText::InaccessibleTitle => 17,
            TroubleshootText::InaccessibleMessage => 18,
            TroubleshootText::BadGatewayLabel => 19,
            TroubleshootText::BadGatewayMessage => 20,
            TroubleshootText::NotFoundLabel => 21,
            TroubleshootText::NotFoundMessage => 22,
            TroubleshootText::DomainNotPointingLabel => 23,
            TroubleshootText::DomainNotPointingMessage => 24,
        }
    }
}

/// The menu's texts in one locale: one text for each key.
pub struct TroubleshootTexts {
    texts: Vec<String>,
}

impl View for TroubleshootTexts {
    type V = Seq<Seq<char>>;

    closed spec fn view(&self) -> Seq<Seq<char>> {
        self.texts@.map_values(|t: String| t@)
    }
}

impl TroubleshootTexts {
    #[verifier::type_invariant]
    spec fn one_per_key(self) -> bool {
        self.texts@.len() == TEXT_COUNT
    }

    /// The text of a key.
    pub open spec fn text_of(self, k: TroubleshootText) -> Seq<char> {
        self@[text_index(k)]
    }

    /// The texts of the keys, given in the order of `TroubleshootText::all`;
    /// none unless there is exactly one per key.
    pub fn new(texts: Vec<String>) -> (res: Option<Self>)
        ensures
            res is Some <==> texts@.len() == TEXT_COUNT,
            res matches Some(t) ==> t@ == texts@.map_values(|t: String| t@),
    {
        if texts.len() == TEXT_COUNT {
            let res = TroubleshootTexts { texts };
            Some(res)
        } else {
            None
        }
    }

    /// The text of a key.
    pub fn text(&self, k: TroubleshootText) -> (res: String)
        ensures
            res@ == self.text_of(k),
    {
        proof {
            use_type_invariant(self);
        }
        self.texts[k.index()].clone()
    }
}

/// The localized strings of a menu page.
pub struct NodeData {
    pub title: String,
    pub message: String,
    /// The pages it leads to: their paths and labels.
    pub options: Vec<(&'static str, String)>,
}

impl NodeData {
    /// An empty page.
    pub fn new() -> (res: Self)
        ensures
            res.title@ == Seq::<char>::empty(),
            res.message@ == Seq::<char>::empty(),
            res.options@.len() == 0,
    {
        NodeData { title: String::new(), message: String::new(), options: Vec::new() }
    }

    pub fn title(self, title: String) -> (res: Self)
        ensures
            res == (NodeData { title, ..self }),
    {
        NodeData { title, ..self }
    }

    pub fn message(self, message: String) -> (res: Self)
        ensures
            res == (NodeData { message, ..self }),
    {
        NodeData { message, ..self }
    }

    pub fn options(self, options: Vec<(&'static str, String)>) -> (res: Self)
        ensures
            res == (NodeData { options, ..self }),
    {
        NodeData { options, ..self }
    }
}

/// What a page shows, by its texts: the title (as a `## ` heading or as is), the
/// message, and the options (their paths and labels).
pub struct NodeSpec {
    pub heading: bool,
    pub title: TroubleshootText,
    pub message: TroubleshootText,
    pub options: Seq<(Seq<char>, TroubleshootText)>,
}

/// A leaf page: a heading of its label, its message, no options.
pub open spec fn leaf(label: TroubleshootText, message: TroubleshootText) -> NodeSpec {
    NodeSpec { heading: true, title: label, message, options: Seq::empty() }
}

/// The home page.
pub open spec fn home_node() -> NodeSpec {
    NodeSpec {
        heading: false,
        title: TroubleshootText::HomeTitle,
        message: TroubleshootText::HomeMessage,
        options: seq![
            ("home.options.crash.next"@, TroubleshootText::CrashLabel),
            ("home.options.inaccessible.next"@, TroubleshootText::InaccessibleLabel),
        ],
    }
}

/// The pages under `home.options.crash.next`, by what follows that prefix.
pub open spec fn crash_node(rest: Seq<char>) -> Option<NodeSpec> {
    if rest == Seq::<char>::empty() {
        Some(NodeSpec {
            heading: false,
            title: TroubleshootText::CrashTitle,
            message: TroubleshootText::CrashMessage,
            options: seq![
                ("home.options.crash.next.options.module_not_found"@, TroubleshootText::ModuleNotFoundLabel),
                ("home.options.crash.next.options.port_in_use"@, TroubleshootText::PortInUseLabel),
                ("home.options.crash.next.options.syntax_error"@, TroubleshootText::SyntaxErrorLabel),
                ("home.options.crash.next.options.insufficient_memory"@, TroubleshootText::InsufficientMemoryLabel),
                ("home.options.crash.next.options.stay_starting_state"@, TroubleshootText::StayStartingStateLabel),
            ],
        })
    } else if rest == ".options.module_not_found"@ {
        Some(leaf(TroubleshootText::ModuleNotFoundLabel, TroubleshootText::ModuleNotFoundMessage))
    } else if rest == ".options.port_in_use"@ {
        Some(leaf(TroubleshootText::PortInUseLabel, TroubleshootText::PortInUseMessage))
    } else if rest == ".options.syntax_error"@ {
        Some(leaf(TroubleshootText::SyntaxErrorLabel, TroubleshootText::SyntaxErrorMessage))
    } else if rest == ".options.insufficient_memory"@ {
        Some(leaf(TroubleshootText::InsufficientMemoryLabel, TroubleshootText::InsufficientMemoryMessage))
    } else if rest == ".options.stay_starting_state"@ {
        Some(leaf(TroubleshootText::StayStartingStateLabel, TroubleshootText::StayStartingStateMessage))
    } else {
        None
    }
}

/// The pages under `home.options.inaccessible`, by what follows that prefix.
pub open spec fn inaccessible_node(rest: Seq<char>) -> Option<NodeSpec> {
    if rest == ".next"@ {
        Some(NodeSpec {
            heading: false,
            title: TroubleshootText::InaccessibleTitle,
            message: TroubleshootText::InaccessibleMessage,
            options: seq![
                ("home.options.inaccessible.next.options.502"@, TroubleshootText::BadGatewayLabel),
                ("home.options.inaccessible.next.options.404"@, TroubleshootText::NotFoundLabel),
                ("home.options.inaccessible.next.options.domain_not_pointing"@, TroubleshootText::DomainNotPointingLabel),
            ],
        })
    } else if rest == ".next.options.502"@ {
        Some(leaf(TroubleshootText::BadGatewayLabel, TroubleshootText::BadGatewayMessage))
    } else if rest == ".next.options.404"@ {
        Some(leaf(TroubleshootText::NotFoundLabel, TroubleshootText::NotFoundMessage))
    } else if rest == ".next.options.domain_not_pointing"@ {
        Some(leaf(TroubleshootText::DomainNotPointingLabel, TroubleshootText::DomainNotPointingMessage))
    } else {
        None
    }
}

/// The page at a path: paths under `home.options.crash` and
/// `home.options.inaccessible` go to their submenus (after every leading copy of
/// the submenu's prefix is removed), `home` is the home page, and any other path
/// names no page.
pub open spec fn node_at(path: Seq<char>) -> Option<NodeSpec> {
    if starts_with_seq(path, "home.options.crash"@) {
        crash_node(trim_start_repeated(path, "home.options.crash.next"@))
    } else if starts_with_seq(path, "home.options.inaccessible"@) {
        inaccessible_node(trim_start_repeated(path, "home.options.inaccessible"@))
    } else if path == "home"@ {
        Some(home_node())
    } else {
        None
    }
}

/// The page data shows the page spec in the texts `texts`.
pub open spec fn shows(d: NodeData, spec: NodeSpec, texts: TroubleshootTexts) -> bool {
    &&& d.title@ == if spec.heading {
        "## "@ + texts.text_of(spec.title)
    } else {
        texts.text_of(spec.title)
    }
    &&& d.message@ == texts.text_of(spec.message)
    &&& d.options@.len() == spec.options.len()
    &&& forall|k: int|
        0 <= k < spec.options.len() ==> (#[trigger] d.options@[k]).0@ == spec.options[k].0
            && d.options@[k].1@ == texts.text_of(spec.options[k].1)
}

/// The path and label keys of a page's options, as its spec lists them.
pub open spec fn option_specs(opts: Seq<(&'static str, TroubleshootText)>) -> Seq<(Seq<char>, TroubleshootText)> {
    opts.map_values(|o: (&'static str, TroubleshootText)| (o.0@, o.1))
}

/// Writes out a page in the texts `texts`.
fn realize(
    texts: &TroubleshootTexts,
    heading: bool,
    title: TroubleshootText,
    message: TroubleshootText,
    options: Vec<(&'static str, TroubleshootText)>,
) -> (res: NodeData)
    ensures
        shows(res, NodeSpec { heading, title, message, options: option_specs(options@) }, *texts),
{
    let t = texts.text(title);
    let title_text = if heading {
        String::from_str("## ").concat(t.as_str())
    } else {
        t
    };
    let message_text = texts.text(message);
    let mut translated: Vec<(&'static str, String)> = Vec::new();
    let mut k: usize = 0;
    while k < options.len()
        invariant
            k <= options@.len(),
            translated@.len() == k,
            forall|j: int|
                0 <= j < k ==> (#[trigger] translated@[j]).0@ == options@[j].0@ && translated@[j].1@
                    == texts.text_of(options@[j].1),
        decreases options@.len() - k,
    {
        let (path, key) = options[k];
        let label = texts.text(key);
        translated.push((path, label));
        k = k + 1;
    }
    NodeData::new().title(title_text).message(message_text).options(translated)
}

/// Gets the page at a path, in the texts `texts`.
pub fn get_node_data(texts: &TroubleshootTexts, path: &str) -> (res: Option<NodeData>)
    ensures
        match node_at(path@) {
            Some(spec) => res matches Some(d) && shows(d, spec, *texts),
            None => res is None,
        },
{
    if str_starts_with(path, "home.options.crash") {
        return get_crash_node_data(texts, path);
    }
    if str_starts_with(path, "home.options.inaccessible") {
        return get_inaccessible_node_data(texts, path);
    }
    if str_eq(path, "home") {
        let options = vec![
            ("home.options.crash.next", TroubleshootText::CrashLabel),
            ("home.options.inaccessible.next", TroubleshootText::InaccessibleLabel),
        ];
        assert(option_specs(options@) =~= home_node().options);
        Some(realize(texts, false, TroubleshootText::HomeTitle, TroubleshootText::HomeMessage, options))
    } else {
        None
    }
}

/// Gets a page of the crash submenu, in the texts `texts`.
pub fn get_crash_node_data(texts: &TroubleshootTexts, path: &str) -> (res: Option<NodeData>)
    ensures
        match crash_node(trim_start_repeated(path@, "home.options.crash.next"@)) {
            Some(spec) => res matches Some(d) && shows(d, spec, *texts),
            None => res is None,
        },
{
    let rest = trim_start_matches(path, "home.options.crash.next");
    let r = rest.as_str();
    proof {
        reveal_strlit("");
        assert(""@ =~= Seq::<char>::empty());
    }
    if str_eq(r, "") {
        proof {
            reveal_strlit("");
            assert(rest@ =~= Seq::<char>::empty());
        }
        let options = vec![
            ("home.options.crash.next.options.module_not_found", TroubleshootText::ModuleNotFoundLabel),
            ("home.options.crash.next.options.port_in_use", TroubleshootText::PortInUseLabel),
            ("home.options.crash.next.options.syntax_error", TroubleshootText::SyntaxErrorLabel),
            ("home.options.crash.next.options.insufficient_memory", TroubleshootText::InsufficientMemoryLabel),
            ("home.options.crash.next.options.stay_starting_state", TroubleshootText::StayStartingStateLabel),
        ];
        let ghost spec = crash_node(rest@)->0;
        assert(option_specs(options@) =~= spec.options);
        Some(realize(texts, false, TroubleshootText::CrashTitle, TroubleshootText::CrashMessage, options))
    } else if str_eq(r, ".options.module_not_found") {
        Some(realize(texts, true, TroubleshootText::ModuleNotFoundLabel, TroubleshootText::ModuleNotFoundMessage, leaf_options()))
    } else if str_eq(r, ".options.port_in_use") {
        Some(realize(texts, true, TroubleshootText::PortInUseLabel, TroubleshootText::PortInUseMessage, leaf_options()))
    } else if str_eq(r, ".options.syntax_error") {
        Some(realize(texts, true, TroubleshootText::SyntaxErrorLabel, TroubleshootText::SyntaxErrorMessage, leaf_options()))
    } else if str_eq(r, ".options.insufficient_memory") {
        Some(realize(texts, true, TroubleshootText::InsufficientMemoryLabel, TroubleshootText::InsufficientMemoryMessage, leaf_options()))
    } else if str_eq(r, ".options.stay_starting_state") {
        Some(realize(texts, true, TroubleshootText::StayStartingStateLabel, TroubleshootText::StayStartingStateMessage, leaf_options()))
    } else {
        None
    }
}

/// Gets a page of the inaccessible-server submenu, in the texts `texts`.
pub fn get_inaccessible_node_data(texts: &TroubleshootTexts, path: &str) -> (res: Option<NodeData>)
    ensures
        match inaccessible_node(trim_start_repeated(path@, "home.options.inaccessible"@)) {
            Some(spec) => res matches Some(d) && shows(d, spec, *texts),
            None => res is None,
        },
{
    let rest = trim_start_matches(path, "home.options.inaccessible");
    let r = rest.as_str();
    if str_eq(r, ".next") {
        let options = vec![
            ("home.options.inaccessible.next.options.502", TroubleshootText::BadGatewayLabel),
            ("home.options.inaccessible.next.options.404", TroubleshootText::NotFoundLabel),
            ("home.options.inaccessible.next.options.domain_not_pointing", TroubleshootText::DomainNotPointingLabel),
        ];
        let ghost spec = inaccessible_node(rest@)->0;
        assert(option_specs(options@) =~= spec.options);
        Some(realize(texts, false, TroubleshootText::InaccessibleTitle, TroubleshootText::InaccessibleMessage, options))
    } else if str_eq(r, ".next.options.502") {
        Some(realize(texts, true, TroubleshootText::BadGatewayLabel, TroubleshootText::BadGatewayMessage, leaf_options()))
    } else if str_eq(r, ".next.options.404") {
        Some(realize(texts, true, TroubleshootText::NotFoundLabel, TroubleshootText::NotFoundMessage, leaf_options()))
    } else if str_eq(r, ".next.options.domain_not_pointing") {
        Some(realize(texts, true, TroubleshootText::DomainNotPointingLabel, TroubleshootText::DomainNotPointingMessage, leaf_options()))
    } else {
        None
    }
}

fn leaf_options() -> (res: Vec<(&'static str, TroubleshootText)>)
    ensures
        option_specs(res@) == Seq::<(Seq<char>, TroubleshootText)>::empty(),
{
    let res: Vec<(&'static str, TroubleshootText)> = Vec::new();
    assert(option_specs(res@) =~= Seq::<(Seq<char>, TroubleshootText)>::empty());
    res
}

/// The select menu options list the page's options (label, and path as value),
/// then the return option when there is one.
pub open spec fn menu_options_match(opts: Seq<SelectMenuOption>, d: NodeData, ret: Option<(Seq<char>, String)>) -> bool {
    let n = d.options@.len() as int;
    &&& opts.len() == n + if ret is Some { 1int } else { 0int }
    &&& forall|k: int|
        0 <= k < n ==> (#[trigger] opts[k]).label == d.options@[k].1 && opts[k].value@
            == d.options@[k].0@ && !opts[k].default && opts[k].description is None
    &&& ret matches Some((p, l)) ==> opts[n].label == l && opts[n].value@ == p && !opts[n].default
        && opts[n].description is None
}

/// The reply of the menu for page `d`: an ephemeral components-v2 reply holding
/// one container in the primary color, with the page's title in bold over its
/// message, then a row with the `troubleshoot-select` menu of its options.
pub open spec fn menu_reply(r: Reply, d: NodeData, ret: Option<(Seq<char>, String)>) -> bool {
    &&& r.content is None
    &&& r.embeds@.len() == 0
    &&& r.allowed_mentions matches Some(m) && m.is_none()
    &&& r.flags == (0u64 | components_v2_bit()) | ephemeral_bit()
    &&& r.components@.len() == 1
    &&& r.components@[0] matches Component::Container(c) && {
        &&& c.accent_color == Some(Some(Palette::PRIMARY))
        &&& c.spoiler == Some(false)
        &&& c.components@.len() == 2
        &&& c.components@[0] matches Component::TextDisplay(t) && t.content@ == "**"@ + d.title@ + "**\n"@
            + d.message@
        &&& c.components@[1] matches Component::ActionRow(row) && {
            &&& row.components@.len() == 1
            &&& row.components@[0] matches Component::SelectMenu(m) && {
                &&& m.custom_id@ == "troubleshoot-select"@
                &&& !m.disabled
                &&& m.max_values is None
                &&& m.min_values is None
                &&& m.placeholder is None
                &&& menu_options_match(m.options@, d, ret)
            }
        }
    }
}

/// The text of the error for a path that names no page.
pub open spec fn unresolved_text(path: Seq<char>) -> Seq<char> {
    "Path '"@ + path + "' could not be resolved in troubleshoot menu"@
}

/// Builds the menu reply for the page at `path`, in the texts `texts`: the page's
/// options, and a return option to the parent page unless at the top.
pub fn build_troubleshoot_menu(texts: &TroubleshootTexts, path: &str) -> (res: Result<Reply, String>)
    ensures
        res is Err <==> node_at(path@) is None,
        res matches Err(msg) ==> msg@ == unresolved_text(path@),
        res matches Ok(r) ==> exists|d: NodeData, ret: Option<(Seq<char>, String)>| {
            &&& shows(d, node_at(path@)->0, *texts)
            &&& match parent_of(path@) {
                Some(p) => ret matches Some((rp, l)) && rp == p && l@ == texts.text_of(TroubleshootText::Return),
                None => ret is None,
            }
            &&& menu_reply(r, d, ret)
        },
{
    let data = match get_node_data(texts, path) {
        Some(d) => d,
        None => {
            let msg = String::from_str("Path '").concat(path).concat("' could not be resolved in troubleshoot menu");
            return Err(msg);
        },
    };
    let text = String::from_str("**").concat(data.title.as_str()).concat("**\n").concat(data.message.as_str());
    let mut options: Vec<SelectMenuOption> = Vec::new();
    let mut k: usize = 0;
    while k < data.options.len()
        invariant
            k <= data.options@.len(),
            options@.len() == k,
            forall|j: int|
                0 <= j < k ==> (#[trigger] options@[j]).label == data.options@[j].1 && options@[j].value@
                    == data.options@[j].0@ && !options@[j].default && options@[j].description is None,
        decreases data.options@.len() - k,
    {
        let label = data.options[k].1.clone();
        let value = String::from_str(data.options[k].0);
        options.push(SelectMenuOption { default: false, description: None, label, value });
        k = k + 1;
    }
    let parent = parent_path(path);
    let ghost mut ret: Option<(Seq<char>, String)> = None;
    match parent {
        Some(p) => {
            let label = texts.text(TroubleshootText::Return);
            proof {
                ret = Some((p@, label));
            }
            options.push(SelectMenuOption { default: false, description: None, label, value: p });
        },
        None => {},
    }
    let menu = SelectMenu {
        custom_id: String::from_str("troubleshoot-select"),
        disabled: false,
        max_values: None,
        min_values: None,
        options,
        placeholder: None,
    };
    let row = ActionRow { components: vec![Component::SelectMenu(menu)] };
    let container = Container {
        accent_color: Some(Some(Palette::PRIMARY)),
        components: vec![Component::TextDisplay(TextDisplay { content: text }), Component::ActionRow(row)],
        spoiler: Some(false),
    };
    let reply = Reply::new().components_v2(vec![Component::Container(container)]).ephemeral(true);
    proof {
        assert(menu_reply(reply, data, ret));
    }
    Ok(reply)
}

/// The page a selection in the menu leads to: the first selected value, or
/// the top page when nothing was selected.
pub fn selected_path(values: &Vec<String>) -> (res: String)
    ensures
        values@.len() > 0 ==> res@ == values@[0]@,
        values@.len() == 0 ==> res@ == "home"@,
{
    if values.len() > 0 {
        values[0].clone()
    } else {
        String::from_str("home")
    }
}

} // verus!
