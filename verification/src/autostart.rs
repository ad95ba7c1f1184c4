//! The session's autostart file: which scripts it starts, and how a line of
//! it is switched on and off.
//!
//! The file is plain text, one command to a line. A script is started by a
//! line that begins with `exec-once` and names the script behind `scripts/`.

use vstd::prelude::*;
use vstd::string::*;
use crate::config::opt_view;
use crate::paths::{join, joined};
use crate::text::{
    chars_of, contains_in, contains_text, has_prefix, is_space, join_lines, line_end, lines,
    occurs_at, opt_str, starts_with_in, trim_bounds, trim_end, trim_start, trimmed, without_cr,
};

verus! {

/// The autostart file: `.config/hypr/autostart.conf` in the home directory,
/// or a file in the temporary directory where no home directory is known.
pub open spec fn autostart_file(home: Option<Seq<char>>) -> Seq<char> {
    match home {
        Some(h) => joined(joined(joined(h, ".config"@), "hypr"@), "autostart.conf"@),
        None => "/tmp/autostart.conf"@,
    }
}

/// The autostart file.
pub fn get_autostart_path(home: Option<&str>) -> (r: String)
    ensures
        r@ == autostart_file(opt_str(home)),
{
    match home {
        Some(h) => {
            let config = join(h, ".config");
            let hypr = join(config.as_str(), "hypr");
            join(hypr.as_str(), "autostart.conf")
        },
        None => "/tmp/autostart.conf".to_owned(),
    }
}

/// What names a script in a line: `scripts/` and the script's name.
pub open spec fn script_target(name: Seq<char>) -> Seq<char> {
    "scripts/"@ + name
}

/// Whether a line starts the script: trimmed, it begins with `exec-once` and
/// holds the script's target.
pub open spec fn starts_script(line: Seq<char>, name: Seq<char>) -> bool {
    let t = trimmed(line);
    has_prefix(t, "exec-once"@) && contains_text(t, script_target(name))
}

/// Whether one of the lines starts the script.
pub open spec fn any_starts(ls: Seq<Seq<char>>, name: Seq<char>) -> bool {
    exists|i: int| 0 <= i < ls.len() && starts_script(#[trigger] ls[i], name)
}

/// Whether the autostart file with this content starts the script. A file
/// that is missing starts nothing.
pub open spec fn enabled_in(content: Option<Seq<char>>, name: Seq<char>) -> bool {
    match content {
        Some(text) => any_starts(lines(text), name),
        None => false,
    }
}

/// Whether a line is the script's entry: trimmed, it holds the script's
/// target and `exec-once`, wherever in the line.
pub open spec fn belongs_to(line: Seq<char>, name: Seq<char>) -> bool {
    let t = trimmed(line);
    contains_text(t, script_target(name)) && contains_text(t, "exec-once"@)
}

/// The number of lines before the script's first entry; the number of all
/// lines where it has none.
pub open spec fn first_entry(ls: Seq<Seq<char>>, name: Seq<char>) -> nat
    decreases ls.len(),
{
    if ls.len() == 0 || belongs_to(ls[0], name) {
        0
    } else {
        1 + first_entry(ls.drop_first(), name)
    }
}

/// The lines without the script's entries, in their order.
pub open spec fn without_entries(ls: Seq<Seq<char>>, name: Seq<char>) -> Seq<Seq<char>>
    decreases ls.len(),
{
    if ls.len() == 0 {
        seq![]
    } else if belongs_to(ls.last(), name) {
        without_entries(ls.drop_last(), name)
    } else {
        without_entries(ls.drop_last(), name).push(ls.last())
    }
}

/// The arguments of a script as text; none is the empty text.
pub open spec fn args_text(args: Option<Seq<char>>) -> Seq<char> {
    match args {
        Some(a) => a,
        None => Seq::empty(),
    }
}

/// The line that starts a script with its arguments, trimmed.
pub open spec fn entry_line(name: Seq<char>, args: Option<Seq<char>>) -> Seq<char> {
    trimmed("exec-once = ~/.config/alloy/scripts/"@ + name + " "@ + args_text(args))
}

/// The lines of the autostart file after a script is switched on or off.
/// Switched off, its entries are gone. Switched on, its first entry is
/// replaced by the new one and its other entries are gone; where it had
/// none, the new entry follows the last line. Every other line stays where
/// it is.
pub open spec fn updated_lines(
    ls: Seq<Seq<char>>,
    name: Seq<char>,
    args: Option<Seq<char>>,
    enabled: bool,
) -> Seq<Seq<char>> {
    if enabled {
        let i = first_entry(ls, name) as int;
        if i < ls.len() {
            ls.take(i) + seq![entry_line(name, args)] + without_entries(ls.skip(i + 1), name)
        } else {
            ls + seq![entry_line(name, args)]
        }
    } else {
        without_entries(ls, name)
    }
}

/// The text of a file with these lines: the lines with a line feed after
/// each; nothing where the lines together are empty.
pub open spec fn file_text(ls: Seq<Seq<char>>) -> Seq<char> {
    let t = join_lines(ls);
    if t.len() == 0 {
        t
    } else {
        t + seq!['\n']
    }
}

/// The content of the autostart file after a script is switched on or off.
pub open spec fn updated_content(
    content: Seq<char>,
    name: Seq<char>,
    args: Option<Seq<char>>,
    enabled: bool,
) -> Seq<char> {
    file_text(updated_lines(lines(content), name, args, enabled))
}

/// The first line feed of a text is where no character before it is one.
proof fn lemma_line_end(s: Seq<char>, n: int)
    requires
        0 <= n <= s.len(),
        forall|k: int| 0 <= k < n ==> s[k] != '\n',
        n == s.len() || s[n] == '\n',
    ensures
        line_end(s) == n,
    decreases n,
{
    if n > 0 {
        let t = s.drop_first();
        assert forall|k: int| 0 <= k < n - 1 implies t[k] != '\n' by {
            assert(t[k] == s[k + 1]);
        }
        lemma_line_end(t, n - 1);
    }
}

/// One line of a text: where it starts and ends, and where the next starts.
pub struct LineSpan {
    pub start: usize,
    pub end: usize,
    pub next: usize,
}

/// Finds the line of `v` that starts at `pos`.
pub fn line_at(v: &Vec<char>, pos: usize) -> (r: LineSpan)
    requires
        pos < v.len(),
    ensures
        pos == r.start <= r.end <= v.len(),
        pos < r.next <= v.len(),
        lines(v@.skip(pos as int)) == seq![v@.subrange(r.start as int, r.end as int)] + lines(
            v@.skip(r.next as int),
        ),
{
    let ghost s = v@.skip(pos as int);
    let mut j = pos;
    while j < v.len() && v[j] != '\n'
        invariant
            pos <= j <= v.len(),
            forall|k: int| pos <= k < j ==> v@[k] != '\n',
        decreases v.len() - j,
    {
        j = j + 1;
    }
    proof {
        assert forall|k: int| 0 <= k < j - pos implies s[k] != '\n' by {
            assert(s[k] == v@[pos + k]);
        }
        lemma_line_end(s, j - pos);
    }
    if j == v.len() {
        proof {
            assert(v@.skip(j as int) =~= Seq::<char>::empty());
            assert(lines(v@.skip(j as int)) =~= Seq::<Seq<char>>::empty());
            assert(v@.subrange(pos as int, j as int) =~= s);
            assert(seq![s] + Seq::<Seq<char>>::empty() =~= seq![s]);
        }
        LineSpan { start: pos, end: j, next: j }
    } else {
        let end = if j > pos && v[j - 1] == '\r' {
            j - 1
        } else {
            j
        };
        proof {
            let raw = s.take(j - pos);
            assert(raw =~= v@.subrange(pos as int, j as int));
            assert(without_cr(raw) =~= v@.subrange(pos as int, end as int));
            assert(s.skip(j - pos + 1) =~= v@.skip(j + 1));
        }
        LineSpan { start: pos, end, next: j + 1 }
    }
}

/// Whether the autostart file with this content starts the script
/// `script_name`. `content` is `None` where the file is missing or cannot be
/// read.
pub fn is_enabled(content: Option<&str>, script_name: &str) -> (r: bool)
    ensures
        r == enabled_in(opt_str(content), script_name@),
{
    let text = match content {
        Some(text) => text,
        None => {
            return false;
        },
    };
    let v = chars_of(text);
    let mut target_text = "scripts/".to_owned();
    target_text.append(script_name);
    let target = chars_of(target_text.as_str());
    let keyword = chars_of("exec-once");
    let ghost seen: Seq<Seq<char>> = Seq::empty();
    let mut pos: usize = 0;
    assert(v@.skip(0) =~= v@);
    assert(seen + lines(v@) =~= lines(v@));
    while pos < v.len()
        invariant
            pos <= v.len(),
            v@ == text@,
            content == Some(text),
            target@ == script_target(script_name@),
            keyword@ == "exec-once"@,
            lines(v@) == seen + lines(v@.skip(pos as int)),
            forall|i: int| 0 <= i < seen.len() ==> !starts_script(#[trigger] seen[i], script_name@),
        decreases v.len() - pos,
    {
        let span = line_at(&v, pos);
        let (from, to) = trim_bounds(&v, span.start, span.end);
        let ghost line = v@.subrange(span.start as int, span.end as int);
        if starts_with_in(&v, from, to, &keyword) && contains_in(&v, from, to, &target) {
            proof {
                let all = lines(v@);
                assert(all =~= seen + (seq![line] + lines(v@.skip(span.next as int))));
                assert(all[seen.len() as int] == line);
                assert(starts_script(all[seen.len() as int], script_name@));
            }
            return true;
        }
        proof {
            assert(seen + (seq![line] + lines(v@.skip(span.next as int))) =~= seen.push(line) + lines(
                v@.skip(span.next as int),
            ));
            seen = seen.push(line);
        }
        pos = span.next;
    }
    proof {
        assert(v@.skip(pos as int) =~= Seq::<char>::empty());
        assert(lines(v@.skip(pos as int)) =~= Seq::<Seq<char>>::empty());
        assert(lines(v@) =~= seen);
    }
    false
}

/// The script's first entry is where no line before it is an entry.
proof fn lemma_first_entry(ls: Seq<Seq<char>>, name: Seq<char>, k: int)
    requires
        0 <= k <= ls.len(),
        forall|i: int| 0 <= i < k ==> !belongs_to(#[trigger] ls[i], name),
        k == ls.len() || belongs_to(ls[k], name),
    ensures
        first_entry(ls, name) == k,
    decreases k,
{
    if k > 0 {
        let t = ls.drop_first();
        assert forall|i: int| 0 <= i < k - 1 implies !belongs_to(#[trigger] t[i], name) by {
            assert(t[i] == ls[i + 1]);
        }
        assert(k - 1 < t.len() ==> t[k - 1] == ls[k]);
        lemma_first_entry(t, name, k - 1);
    }
}

/// None of the lines that are left is an entry of the script, and each of
/// them was a line before.
pub proof fn lemma_without_entries(ls: Seq<Seq<char>>, name: Seq<char>)
    ensures
        forall|i: int|
            0 <= i < without_entries(ls, name).len() ==> !belongs_to(#[trigger] without_entries(ls, name)[i], name),
        forall|i: int|
            0 <= i < without_entries(ls, name).len() ==> ls.contains(#[trigger] without_entries(ls, name)[i]),
        without_entries(ls, name).len() <= ls.len(),
    decreases ls.len(),
{
    if ls.len() > 0 {
        let head = ls.drop_last();
        lemma_without_entries(head, name);
        let kept = without_entries(head, name);
        assert forall|i: int| 0 <= i < kept.len() implies ls.contains(#[trigger] kept[i]) by {
            let j = choose|j: int| 0 <= j < head.len() && head[j] == kept[i];
            assert(ls[j] == kept[i]);
        }
        assert(ls.contains(ls.last()));
    }
}

/// After a script is switched off, no line of the file is an entry of it,
/// and no line is new.
pub proof fn law_switched_off(ls: Seq<Seq<char>>, name: Seq<char>, args: Option<Seq<char>>)
    ensures
        forall|i: int|
            0 <= i < updated_lines(ls, name, args, false).len() ==> !belongs_to(
                #[trigger] updated_lines(ls, name, args, false)[i],
                name,
            ),
        forall|i: int|
            0 <= i < updated_lines(ls, name, args, false).len() ==> ls.contains(
                #[trigger] updated_lines(ls, name, args, false)[i],
            ),
{
    lemma_without_entries(ls, name);
}

/// Whether a line holds no line feed.
pub open spec fn one_line(l: Seq<char>) -> bool {
    forall|k: int| 0 <= k < l.len() ==> l[k] != '\n'
}

/// The lines as they are read back from a file: each without the carriage
/// return at its end.
pub open spec fn read_back(ls: Seq<Seq<char>>) -> Seq<Seq<char>> {
    Seq::new(ls.len(), |i: int| without_cr(ls[i]))
}

/// Before the first line feed of a text there is none.
proof fn lemma_line_end_is_first(s: Seq<char>)
    ensures
        line_end(s) <= s.len(),
        forall|k: int| 0 <= k < line_end(s) ==> s[k] != '\n',
        line_end(s) < s.len() ==> s[line_end(s) as int] == '\n',
    decreases s.len(),
{
    if s.len() > 0 && s[0] != '\n' {
        let t = s.drop_first();
        lemma_line_end_is_first(t);
        assert forall|k: int| 0 <= k < line_end(s) implies s[k] != '\n' by {
            if k > 0 {
                assert(s[k] == t[k - 1]);
            }
        }
        if line_end(s) < s.len() {
            assert(s[line_end(s) as int] == t[line_end(t) as int]);
        }
    }
}

/// No line of a text holds a line feed.
pub proof fn lemma_lines_are_lines(s: Seq<char>)
    ensures
        forall|i: int| 0 <= i < lines(s).len() ==> one_line(#[trigger] lines(s)[i]),
    decreases s.len(),
{
    if s.len() > 0 {
        lemma_line_end_is_first(s);
        let n = line_end(s) as int;
        if n >= s.len() {
            assert(one_line(s));
        } else {
            let first = without_cr(s.take(n));
            assert(one_line(first)) by {
                assert forall|k: int| 0 <= k < first.len() implies first[k] != '\n' by {
                    assert(first[k] == s[k]);
                }
            }
            let rest = s.skip(n + 1);
            lemma_lines_are_lines(rest);
            assert forall|i: int| 0 <= i < lines(s).len() implies one_line(#[trigger] lines(s)[i]) by {
                if i > 0 {
                    assert(lines(s)[i] == lines(rest)[i - 1]);
                }
            }
        }
    }
}

/// A text that starts with a whole line reads as that line and the lines of
/// what follows.
proof fn lemma_lines_after_line(a: Seq<char>, rest: Seq<char>)
    requires
        one_line(a),
    ensures
        lines(a + seq!['\n'] + rest) == seq![without_cr(a)] + lines(rest),
{
    let s = a + seq!['\n'] + rest;
    assert forall|k: int| 0 <= k < a.len() implies s[k] != '\n' by {
        assert(s[k] == a[k]);
    }
    assert(s[a.len() as int] == '\n');
    lemma_line_end(s, a.len() as int);
    assert(s.take(a.len() as int) =~= a);
    assert(s.skip(a.len() as int + 1) =~= rest);
}

/// Joined lines, seen from the first line.
proof fn lemma_join_from_first(ls: Seq<Seq<char>>)
    requires
        ls.len() >= 2,
    ensures
        join_lines(ls) == ls[0] + seq!['\n'] + join_lines(ls.drop_first()),
    decreases ls.len(),
{
    let head = ls.drop_last();
    let tail = ls.drop_first();
    if ls.len() == 2 {
        assert(head =~= seq![ls[0]]);
        assert(tail =~= seq![ls[1]]);
        assert(join_lines(head) == ls[0]);
        assert(join_lines(tail) == ls[1]);
    } else {
        lemma_join_from_first(head);
        assert(head.drop_first() =~= tail.drop_last());
        assert(head[0] == ls[0]);
        assert(tail.last() == ls.last());
        assert(join_lines(tail) == join_lines(tail.drop_last()) + seq!['\n'] + tail.last());
        assert(join_lines(ls) =~= ls[0] + seq!['\n'] + join_lines(tail));
    }
}

/// Lines that are written to a file, each with a line feed after it, are
/// read back as they were, but for a carriage return at the end of a line.
proof fn lemma_lines_of_joined(ls: Seq<Seq<char>>)
    requires
        ls.len() >= 1,
        forall|i: int| 0 <= i < ls.len() ==> one_line(#[trigger] ls[i]),
    ensures
        lines(join_lines(ls) + seq!['\n']) == read_back(ls),
    decreases ls.len(),
{
    let empty = Seq::<char>::empty();
    if ls.len() == 1 {
        assert(join_lines(ls) + seq!['\n'] =~= ls[0] + seq!['\n'] + empty);
        lemma_lines_after_line(ls[0], empty);
        assert(lines(empty) =~= Seq::<Seq<char>>::empty());
        assert(seq![without_cr(ls[0])] + lines(empty) =~= read_back(ls));
    } else {
        let tail = ls.drop_first();
        lemma_join_from_first(ls);
        assert forall|i: int| 0 <= i < tail.len() implies one_line(#[trigger] tail[i]) by {
            assert(tail[i] == ls[i + 1]);
        }
        lemma_lines_of_joined(tail);
        let rest = join_lines(tail) + seq!['\n'];
        assert(join_lines(ls) + seq!['\n'] =~= ls[0] + seq!['\n'] + rest);
        lemma_lines_after_line(ls[0], rest);
        assert(seq![without_cr(ls[0])] + read_back(tail) =~= read_back(ls)) by {
            assert forall|i: int| 0 <= i < ls.len() implies (seq![without_cr(ls[0])] + read_back(tail))[i]
                == read_back(ls)[i] by {
                if i > 0 {
                    assert(tail[i - 1] == ls[i]);
                }
            }
        }
    }
}

/// What is read back from a file that was written with these lines: nothing,
/// or the lines, but for a carriage return at the end of a line.
pub proof fn lemma_read_back(ls: Seq<Seq<char>>)
    requires
        forall|i: int| 0 <= i < ls.len() ==> one_line(#[trigger] ls[i]),
    ensures
        lines(file_text(ls)).len() == 0 || lines(file_text(ls)) == read_back(ls),
{
    if join_lines(ls).len() > 0 {
        lemma_lines_of_joined(ls);
    } else {
        assert(lines(file_text(ls)) =~= Seq::<Seq<char>>::empty());
    }
}

/// White space at the end of a text does not show in what is left after the
/// white space at its start is taken away and then that at its end.
proof fn lemma_trim_ignores_last_space(l: Seq<char>)
    requires
        l.len() > 0,
        is_space(l.last()),
    ensures
        trimmed(l) == trimmed(l.drop_last()),
    decreases l.len(),
{
    let shorter = l.drop_last();
    if is_space(l[0]) {
        if l.len() == 1 {
            assert(l.drop_first() =~= shorter);
        } else {
            let inner = l.drop_first();
            assert(inner.last() == l.last());
            lemma_trim_ignores_last_space(inner);
            assert(shorter[0] == l[0]);
            assert(shorter.drop_first() =~= inner.drop_last());
        }
    } else {
        assert(l.len() > 1);
        assert(shorter[0] == l[0]);
    }
}

/// A carriage return at the end of a line does not show in the trimmed line.
pub proof fn lemma_trim_ignores_cr(l: Seq<char>)
    ensures
        trimmed(without_cr(l)) == trimmed(l),
{
    if l.len() > 0 && l.last() == '\r' {
        lemma_trim_ignores_last_space(l);
    }
}

/// A line that starts a script is an entry of it.
pub proof fn lemma_start_is_entry(line: Seq<char>, name: Seq<char>)
    requires
        starts_script(line, name),
    ensures
        belongs_to(line, name),
{
    let t = trimmed(line);
    let k = "exec-once"@;
    assert(t.subrange(0, 0 + k.len() as int) =~= t.take(k.len() as int));
    assert(occurs_at(t, k, 0));
}

/// After a script is switched off in the autostart file, the file no longer
/// starts it.
pub proof fn law_switched_off_is_not_enabled(content: Seq<char>, name: Seq<char>, args: Option<Seq<char>>)
    ensures
        !enabled_in(Some(updated_content(content, name, args, false)), name),
{
    let before = lines(content);
    let kept = without_entries(before, name);
    let after = lines(file_text(kept));
    lemma_lines_are_lines(content);
    lemma_without_entries(before, name);
    assert forall|i: int| 0 <= i < kept.len() implies one_line(#[trigger] kept[i]) by {
        let j = choose|j: int| 0 <= j < before.len() && before[j] == kept[i];
        assert(one_line(before[j]));
    }
    lemma_read_back(kept);
    assert forall|i: int| 0 <= i < after.len() implies !starts_script(#[trigger] after[i], name) by {
        assert(after[i] == without_cr(kept[i]));
        lemma_trim_ignores_cr(kept[i]);
        if starts_script(after[i], name) {
            assert(starts_script(kept[i], name));
            lemma_start_is_entry(kept[i], name);
        }
    }
}

/// What is left of a text without the white space at its end is its start,
/// up to and with its last character that is no white space.
proof fn lemma_trim_end_keeps(s: Seq<char>, p: int)
    requires
        0 <= p < s.len(),
        !is_space(s[p]),
    ensures
        p < trim_end(s).len() <= s.len(),
        trim_end(s) == s.take(trim_end(s).len() as int),
        !is_space(trim_end(s).last()),
    decreases s.len(),
{
    if is_space(s.last()) {
        let shorter = s.drop_last();
        lemma_trim_end_keeps(shorter, p);
        assert(shorter.take(trim_end(shorter).len() as int) =~= s.take(trim_end(shorter).len() as int));
    } else {
        assert(s.take(s.len() as int) =~= s);
    }
}

/// Joined lines are at least as long as each of the lines.
proof fn lemma_join_len(ls: Seq<Seq<char>>, i: int)
    requires
        0 <= i < ls.len(),
    ensures
        join_lines(ls).len() >= ls[i].len(),
    decreases ls.len(),
{
    if ls.len() >= 2 && i < ls.len() - 1 {
        lemma_join_len(ls.drop_last(), i);
    }
}

/// The entry of a script whose name does not end in white space starts the
/// script, stays as it is when trimmed, and is not empty.
proof fn lemma_entry_starts_script(name: Seq<char>, args: Option<Seq<char>>)
    requires
        name.len() == 0 || !is_space(name.last()),
    ensures
        starts_script(entry_line(name, args), name),
        trimmed(entry_line(name, args)) == entry_line(name, args),
        entry_line(name, args).len() > 0,
        one_line(name) && one_line(args_text(args)) ==> one_line(entry_line(name, args)),
{
    let lead = "exec-once = ~/.config/alloy/scripts/"@;
    let raw = lead + name + " "@ + args_text(args);
    reveal_strlit("exec-once = ~/.config/alloy/scripts/");
    reveal_strlit("exec-once");
    reveal_strlit("scripts/");
    reveal_strlit(" ");
    let p = lead.len() + name.len() - 1;
    assert(raw[0] == 'e');
    assert(!is_space(raw[p])) by {
        if name.len() == 0 {
            assert(raw[p] == '/');
        } else {
            assert(raw[p] == name.last());
        }
    }
    assert(trim_start(raw) == raw);
    lemma_trim_end_keeps(raw, p);
    let entry = entry_line(name, args);
    assert(entry == trim_end(raw));
    assert(entry[0] == 'e');
    assert(trim_start(entry) == entry);
    assert(trim_end(entry) == entry);
    assert(entry.take(9) =~= "exec-once"@);
    let target = script_target(name);
    let at = lead.len() - 8;
    assert(entry.subrange(at, at + target.len()) =~= target) by {
        assert forall|k: int| 0 <= k < target.len() implies entry[at + k] == target[k] by {
            assert(entry[at + k] == raw[at + k]);
        }
    }
    assert(occurs_at(entry, target, at));
    if one_line(name) && one_line(args_text(args)) {
        assert forall|k: int| 0 <= k < entry.len() implies entry[k] != '\n' by {
            assert(entry[k] == raw[k]);
            if k < lead.len() {
            } else if k < lead.len() + name.len() {
                assert(raw[k] == name[k - lead.len()]);
            } else if k == lead.len() + name.len() {
            } else {
                assert(raw[k] == args_text(args)[k - lead.len() - name.len() - 1]);
            }
        }
    }
}

/// After a script is switched on in the autostart file, the file starts it.
/// This holds of a name that does not end in white space, and of a name and
/// arguments without a line feed.
pub proof fn law_switched_on_is_enabled(content: Seq<char>, name: Seq<char>, args: Option<Seq<char>>)
    requires
        name.len() == 0 || !is_space(name.last()),
        one_line(name),
        one_line(args_text(args)),
    ensures
        enabled_in(Some(updated_content(content, name, args, true)), name),
{
    let before = lines(content);
    let entry = entry_line(name, args);
    let now = updated_lines(before, name, args, true);
    let i = first_entry(before, name) as int;
    lemma_entry_starts_script(name, args);
    lemma_lines_are_lines(content);
    lemma_first_entry_bound(before, name);
    let at = if i < before.len() {
        i
    } else {
        before.len() as int
    };
    assert(now[at] == entry);
    assert forall|j: int| 0 <= j < now.len() implies one_line(#[trigger] now[j]) by {
        if i < before.len() {
            let rest = before.skip(i + 1);
            let tail = without_entries(rest, name);
            lemma_without_entries(rest, name);
            if j < i {
                assert(now[j] == before[j]);
            } else if j > i {
                assert(now[j] == tail[j - i - 1]);
                let k = choose|k: int| 0 <= k < rest.len() && rest[k] == tail[j - i - 1];
                assert(rest[k] == before[i + 1 + k]);
            }
        } else {
            if j < before.len() {
                assert(now[j] == before[j]);
            }
        }
    }
    lemma_join_len(now, at);
    lemma_read_back(now);
    let after = lines(file_text(now));
    assert(after == read_back(now)) by {
        lemma_lines_of_joined(now);
    }
    assert(after[at] == without_cr(entry));
    lemma_trim_ignores_cr(entry);
    assert(starts_script(after[at], name));
}

/// The script's first entry is among the lines, or there is none.
proof fn lemma_first_entry_bound(ls: Seq<Seq<char>>, name: Seq<char>)
    ensures
        first_entry(ls, name) <= ls.len(),
    decreases ls.len(),
{
    if ls.len() > 0 && !belongs_to(ls[0], name) {
        lemma_first_entry_bound(ls.drop_first(), name);
    }
}

/// Adds a line to a text that holds lines already, or starts the text with
/// it.
fn push_line(out: &mut String, any: bool, line: &str)
    requires
        !any ==> old(out)@.len() == 0,
    ensures
        final(out)@ == if any {
            old(out)@ + seq!['\n'] + line@
        } else {
            line@
        },
{
    if any {
        proof {
            reveal_strlit("\n");
        }
        out.append("\n");
        assert(out@ =~= old(out)@ + seq!['\n']);
    }
    out.append(line);
    assert(!any ==> out@ =~= line@);
}

/// The line that starts a script with its arguments.
pub fn script_entry(script_name: &str, args: &Option<String>) -> (r: String)
    ensures
        r@ == entry_line(script_name@, opt_view(*args)),
{
    let mut raw = "exec-once = ~/.config/alloy/scripts/".to_owned();
    raw.append(script_name);
    raw.append(" ");
    match args {
        Some(a) => {
            raw.append(a.as_str());
        },
        None => {
            assert(raw@ + Seq::<char>::empty() =~= raw@);
        },
    }
    let v = chars_of(raw.as_str());
    let (from, to) = trim_bounds(&v, 0, v.len());
    assert(v@.subrange(0, v.len() as int) =~= v@);
    raw.as_str().substring_char(from, to).to_owned()
}

/// Switches a script on or off in the autostart file. `content` is the text
/// of the file, empty where there is none yet, and the result is its new
/// text. Switched on, the script has exactly one entry, made of its name and
/// `args`, in the place of its first entry so far or after the last line;
/// switched off, it has none. Lines that are not the script's stay as they
/// are.
pub fn update_script(content: &str, script_name: &str, args: Option<String>, enabled: bool) -> (r: String)
    ensures
        r@ == updated_content(content@, script_name@, opt_view(args), enabled),
{
    let v = chars_of(content);
    let mut target_text = "scripts/".to_owned();
    target_text.append(script_name);
    let target = chars_of(target_text.as_str());
    let keyword = chars_of("exec-once");
    let entry = script_entry(script_name, &args);
    let ghost name = script_name@;
    let mut out = String::new();
    let mut any = false;
    let mut found = false;
    let ghost seen: Seq<Seq<char>> = Seq::empty();
    let ghost outs: Seq<Seq<char>> = Seq::empty();
    let ghost k: int = 0;
    let mut pos: usize = 0;
    assert(v@.skip(0) =~= v@);
    assert(seen + lines(v@) =~= lines(v@));
    while pos < v.len()
        invariant
            pos <= v.len(),
            v@ == content@,
            name == script_name@,
            target@ == script_target(name),
            keyword@ == "exec-once"@,
            entry@ == entry_line(name, opt_view(args)),
            lines(v@) == seen + lines(v@.skip(pos as int)),
            out@ == join_lines(outs),
            any == (outs.len() > 0),
            !enabled ==> outs == without_entries(seen, name),
            !enabled ==> !found,
            enabled && !found ==> outs == seen,
            enabled && !found ==> forall|i: int| 0 <= i < seen.len() ==> !belongs_to(#[trigger] seen[i], name),
            found ==> 0 <= k < seen.len(),
            found ==> forall|i: int| 0 <= i < k ==> !belongs_to(#[trigger] seen[i], name),
            found ==> belongs_to(seen[k], name),
            found ==> outs == seen.take(k) + seq![entry@] + without_entries(seen.skip(k + 1), name),
        decreases v.len() - pos,
    {
        let span = line_at(&v, pos);
        let (from, to) = trim_bounds(&v, span.start, span.end);
        let ghost line = v@.subrange(span.start as int, span.end as int);
        let ghost seen_next = seen.push(line);
        proof {
            assert(seen + (seq![line] + lines(v@.skip(span.next as int))) =~= seen_next + lines(
                v@.skip(span.next as int),
            ));
            assert(seen_next.drop_last() =~= seen);
            if found {
                assert(seen_next.take(k) =~= seen.take(k));
                assert(seen_next.skip(k + 1) =~= seen.skip(k + 1).push(line));
                assert(seen.skip(k + 1).push(line).drop_last() =~= seen.skip(k + 1));
            }
        }
        if contains_in(&v, from, to, &target) && contains_in(&v, from, to, &keyword) {
            if enabled && !found {
                push_line(&mut out, any, entry.as_str());
                proof {
                    assert(outs.push(entry@).drop_last() =~= outs);
                    k = seen.len() as int;
                    outs = outs.push(entry@);
                    assert(seen_next.take(k) =~= seen);
                    assert(seen_next.skip(k + 1) =~= Seq::<Seq<char>>::empty());
                    assert(outs =~= seen_next.take(k) + seq![entry@] + without_entries(
                        seen_next.skip(k + 1),
                        name,
                    ));
                }
                any = true;
                found = true;
            }
        } else {
            push_line(&mut out, any, content.substring_char(span.start, span.end));
            proof {
                assert(outs.push(line).drop_last() =~= outs);
                if found {
                    assert(outs.push(line) =~= seen_next.take(k) + seq![entry@] + without_entries(
                        seen_next.skip(k + 1),
                        name,
                    ));
                }
                outs = outs.push(line);
            }
            any = true;
        }
        proof {
            seen = seen_next;
        }
        pos = span.next;
    }
    proof {
        assert(v@.skip(pos as int) =~= Seq::<char>::empty());
        assert(lines(v@.skip(pos as int)) =~= Seq::<Seq<char>>::empty());
        assert(lines(v@) =~= seen);
        if enabled {
            if found {
                lemma_first_entry(seen, name, k);
            } else {
                lemma_first_entry(seen, name, seen.len() as int);
            }
        }
    }
    if enabled && !found {
        push_line(&mut out, any, entry.as_str());
        proof {
            assert(outs.push(entry@).drop_last() =~= outs);
            outs = outs.push(entry@);
            assert(outs =~= seen + seq![entry@]);
        }
    }
    if !out.as_str().is_empty() {
        proof {
            reveal_strlit("\n");
        }
        out.append("\n");
        assert(out@ =~= join_lines(outs) + seq!['\n']);
    }
    out
}

} // verus!
