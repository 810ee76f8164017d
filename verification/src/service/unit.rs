//! The unit file that keeps the server running, and how a unit is compared with
//! the one that would be written now.

use crate::text;
use vstd::prelude::*;

verus! {

/// Text as the contracts see it.
pub type Text = Seq<char>;

/// Everything that the unit file needs. Paths are absolute, as text.
#[derive(Debug, PartialEq, Eq)]
pub struct Plan<S, L> {
    /// The binary that the unit runs.
    pub binary: S,
    /// The bundle of the user interface, where there is one to serve.
    pub ui: Option<S>,
    /// What is passed on to every start.
    pub arguments: L,
    /// The `PATH` of the unit, which decides whether the agent is found.
    pub path: S,
    pub unit_path: S,
    pub log_path: S,
}

impl View for Plan<String, Vec<String>> {
    type V = Plan<Text, Seq<Text>>;

    open spec fn view(&self) -> Plan<Text, Seq<Text>> {
        Plan {
            binary: self.binary@,
            ui: text::maybe(self.ui),
            arguments: text::views(self.arguments@),
            path: self.path@,
            unit_path: self.unit_path@,
            log_path: self.log_path@,
        }
    }
}

impl Plan<String, Vec<String>> {
    /// The same plan again.
    pub fn copy(&self) -> (out: Plan<String, Vec<String>>)
        ensures
            out@ == self@,
    {
        let mut arguments: Vec<String> = Vec::new();
        let mut i: usize = 0;
        while i < self.arguments.len()
            invariant
                i <= self.arguments@.len(),
                arguments@.len() == i,
                forall|j: int| 0 <= j < i ==> (#[trigger] arguments@[j])@ == self.arguments@[j]@,
            decreases self.arguments@.len() - i,
        {
            arguments.push(self.arguments[i].clone());
            i += 1;
        }
        proof {
            assert(text::views(arguments@) =~= text::views(self.arguments@));
        }
        Plan {
            binary: self.binary.clone(),
            ui: text::copy_maybe(&self.ui),
            arguments,
            path: self.path.clone(),
            unit_path: self.unit_path.clone(),
            log_path: self.log_path.clone(),
        }
    }
}

// ---------------------------------------------------------------------------
// Escaping
// ---------------------------------------------------------------------------

/// A text with every `%` doubled.
pub open spec fn escaped(s: Text) -> Text
    decreases s.len(),
{
    if s.len() == 0 {
        Seq::empty()
    } else if s.last() == '%' {
        escaped(s.drop_last()).push('%').push('%')
    } else {
        escaped(s.drop_last()).push(s.last())
    }
}

/// A text with a backslash before every backslash and every quotation mark.
pub open spec fn slashed(s: Text) -> Text
    decreases s.len(),
{
    if s.len() == 0 {
        Seq::empty()
    } else if s.last() == '\\' || s.last() == '"' {
        slashed(s.drop_last()).push('\\').push(s.last())
    } else {
        slashed(s.drop_last()).push(s.last())
    }
}

/// A character that makes a value need quotation marks.
pub open spec fn needs_quoting(c: char) -> bool {
    text::is_space(c) || c == '"' || c == '\\'
}

/// Whether a character that makes a value need quotation marks stands in it.
pub open spec fn is_split(s: Text) -> bool {
    exists|i: int| 0 <= i < s.len() && needs_quoting(#[trigger] s[i])
}

/// A value as one word of a line that is split at white space.
pub open spec fn quoted(s: Text) -> Text {
    if is_split(escaped(s)) {
        seq!['"'] + slashed(escaped(s)) + seq!['"']
    } else {
        escaped(s)
    }
}

/// Doubles every `%`, which would otherwise be read as a specifier.
pub fn escape(value: &str) -> (out: String)
    ensures
        out@ == escaped(value@),
{
    let chars = text::characters(value);
    let mut out = String::new();
    let mut i: usize = 0;
    proof {
        assert(value@.take(0) =~= Seq::<char>::empty());
        assert(out@ =~= escaped(value@.take(0)));
    }
    while i < chars.len()
        invariant
            chars@ == value@,
            i <= chars@.len(),
            out@ == escaped(value@.take(i as int)),
        decreases chars@.len() - i,
    {
        proof {
            assert(value@.take(i + 1).drop_last() =~= value@.take(i as int));
            assert(value@.take(i + 1).last() == value@[i as int]);
        }
        if chars[i] == '%' {
            out.push('%');
        }
        out.push(chars[i]);
        i += 1;
    }
    proof {
        assert(value@.take(i as int) =~= value@);
    }
    out
}

/// Puts a backslash before every backslash and every quotation mark.
fn slash(value: &str) -> (out: String)
    ensures
        out@ == slashed(value@),
{
    let chars = text::characters(value);
    let mut out = String::new();
    let mut i: usize = 0;
    proof {
        assert(value@.take(0) =~= Seq::<char>::empty());
        assert(out@ =~= slashed(value@.take(0)));
    }
    while i < chars.len()
        invariant
            chars@ == value@,
            i <= chars@.len(),
            out@ == slashed(value@.take(i as int)),
        decreases chars@.len() - i,
    {
        proof {
            assert(value@.take(i + 1).drop_last() =~= value@.take(i as int));
            assert(value@.take(i + 1).last() == value@[i as int]);
        }
        if chars[i] == '\\' || chars[i] == '"' {
            out.push('\\');
        }
        out.push(chars[i]);
        i += 1;
    }
    proof {
        assert(value@.take(i as int) =~= value@);
    }
    out
}

/// Whether a value has to be put into quotation marks.
fn has_to_be_quoted(value: &str) -> (out: bool)
    ensures
        out == is_split(value@),
{
    let chars = text::characters(value);
    let mut i: usize = 0;
    while i < chars.len()
        invariant
            chars@ == value@,
            i <= chars@.len(),
            forall|j: int| 0 <= j < i ==> !needs_quoting(#[trigger] value@[j]),
        decreases chars@.len() - i,
    {
        let c = chars[i];
        if text::space(c) || c == '"' || c == '\\' {
            assert(needs_quoting(value@[i as int]));
            return true;
        }
        i += 1;
    }
    false
}

/// Puts a value that is split at white space into quotation marks where it has to
/// be.
pub fn quote(value: &str) -> (out: String)
    ensures
        out@ == quoted(value@),
{
    let escaped = escape(value);
    if has_to_be_quoted(&escaped) {
        proof {
            reveal_strlit("\"");
            assert("\""@ =~= seq!['"']);
        }
        text::glue3("\"", &slash(&escaped), "\"")
    } else {
        escaped
    }
}

// ---------------------------------------------------------------------------
// The unit
// ---------------------------------------------------------------------------

/// The words that the unit starts the server with.
pub open spec fn words(plan: Plan<Text, Seq<Text>>) -> Seq<Text> {
    let arguments = Seq::new(plan.arguments.len(), |i: int| quoted(plan.arguments[i]));
    match plan.ui {
        Some(ui) => seq![quoted(plan.binary), "--ui"@, quoted(ui)] + arguments,
        None => seq![quoted(plan.binary)] + arguments,
    }
}

/// How the unit starts the server.
pub open spec fn execution(plan: Plan<Text, Seq<Text>>) -> Text {
    text::join(words(plan), seq![' '])
}

/// The lines of the unit file before its `PATH`.
pub open spec fn opening() -> Seq<Text> {
    seq![
        "[Unit]"@,
        "Description=laplus server"@,
        "StartLimitIntervalSec=300"@,
        "StartLimitBurst=5"@,
        ""@,
        "[Service]"@,
        "Type=simple"@,
        "WorkingDirectory=%h"@,
    ]
}

/// The line of the unit file that sets its `PATH`.
pub open spec fn environment(path: Text) -> Text {
    "Environment=PATH="@ + quoted(path)
}

/// The lines of the unit file behind its `PATH`.
pub open spec fn closing(plan: Plan<Text, Seq<Text>>) -> Seq<Text> {
    seq![
        "ExecStart="@ + execution(plan),
        "Restart=always"@,
        "RestartSec=5"@,
        "StandardOutput=append:"@ + escaped(plan.log_path),
        "StandardError=append:"@ + escaped(plan.log_path),
        ""@,
        "[Install]"@,
        "WantedBy=default.target"@,
        ""@,
    ]
}

/// The unit file: five failures in five minutes and it stops trying, both streams
/// in one log, and a restart whenever the server ends.
pub open spec fn rendered(plan: Plan<Text, Seq<Text>>) -> Text {
    text::join(opening() + seq![environment(plan.path)] + closing(plan), seq!['\n'])
}

/// How the unit starts the server.
fn execute(plan: &Plan<String, Vec<String>>) -> (out: String)
    ensures
        out@ == execution(plan@),
{
    let ghost wanted = words(plan@);
    let mut parts: Vec<String> = Vec::new();
    parts.push(quote(&plan.binary));
    if let Some(ui) = &plan.ui {
        parts.push("--ui".to_owned());
        parts.push(quote(ui));
    }
    let lead: usize = parts.len();
    let mut i: usize = 0;
    proof {
        assert(text::views(parts@) =~= wanted.take(lead as int));
    }
    while i < plan.arguments.len()
        invariant
            i <= plan.arguments@.len(),
            wanted == words(plan@),
            lead == if plan.ui is Some {
                3int
            } else {
                1int
            },
            parts@.len() == lead + i,
            text::views(parts@) == wanted.take(lead + i),
        decreases plan.arguments@.len() - i,
    {
        let ghost before = text::views(parts@);
        let word = quote(&plan.arguments[i]);
        parts.push(word);
        proof {
            assert(wanted[lead + i] == quoted(plan@.arguments[i as int]));
            assert(text::views(parts@) =~= before.push(word@));
            assert(wanted.take(lead + i + 1) =~= wanted.take(lead + i).push(wanted[lead + i]));
        }
        i += 1;
    }
    proof {
        assert(wanted.take(lead + i) =~= wanted);
        reveal_strlit(" ");
        assert(" "@ =~= seq![' ']);
    }
    text::join_with(&parts, " ")
}

/// The unit file, exactly as it is written.
pub fn render(plan: &Plan<String, Vec<String>>) -> (out: String)
    ensures
        out@ == rendered(plan@),
{
    let log = escape(&plan.log_path);
    let lines: Vec<String> = vec![
        "[Unit]".to_owned(),
        "Description=laplus server".to_owned(),
        "StartLimitIntervalSec=300".to_owned(),
        "StartLimitBurst=5".to_owned(),
        "".to_owned(),
        "[Service]".to_owned(),
        "Type=simple".to_owned(),
        "WorkingDirectory=%h".to_owned(),
        text::glue("Environment=PATH=", &quote(&plan.path)),
        text::glue("ExecStart=", &execute(plan)),
        "Restart=always".to_owned(),
        "RestartSec=5".to_owned(),
        text::glue("StandardOutput=append:", &log),
        text::glue("StandardError=append:", &log),
        "".to_owned(),
        "[Install]".to_owned(),
        "WantedBy=default.target".to_owned(),
        "".to_owned(),
    ];
    proof {
        assert(text::views(lines@) =~= opening() + seq![environment(plan@.path)] + closing(plan@));
        reveal_strlit("\n");
        assert("\n"@ =~= seq!['\n']);
    }
    text::join_with(&lines, "\n")
}

/// What the first line that starts a server starts it with.
pub open spec fn first_execution(lines: Seq<Text>) -> Option<Text>
    decreases lines.len(),
{
    if lines.len() == 0 {
        None
    } else if "ExecStart="@.is_prefix_of(lines[0]) {
        Some(lines[0].skip("ExecStart="@.len() as int))
    } else {
        first_execution(lines.drop_first())
    }
}

/// What a unit starts the server with.
pub open spec fn starts(unit: Text) -> Option<Text> {
    first_execution(text::lines(unit))
}

/// The lines of a unit but for those that set its `PATH`.
pub open spec fn but_for_path(lines: Seq<Text>) -> Seq<Text>
    decreases lines.len(),
{
    if lines.len() == 0 {
        Seq::empty()
    } else if "Environment=PATH="@.is_prefix_of(lines.last()) {
        but_for_path(lines.drop_last())
    } else {
        but_for_path(lines.drop_last()).push(lines.last())
    }
}

/// Whether two units start the same server the same way: each starts one, and they
/// read the same, line for line. Their `PATH` alone has no part in it: it records
/// the shell that installed the unit.
pub open spec fn alike(unit: Text, wanted: Text) -> bool {
    but_for_path(text::lines(unit)) == but_for_path(text::lines(wanted)) && starts(unit) is Some
}

/// Whether a unit starts a server at all.
fn starts_one(unit: &str) -> (out: bool)
    ensures
        out == (starts(unit@) is Some),
{
    let lines = text::lines_of(unit);
    let ghost all = text::views(lines@);
    let mut i: usize = 0;
    proof {
        assert(all.skip(0) =~= all);
    }
    while i < lines.len()
        invariant
            i <= lines@.len(),
            all == text::views(lines@),
            all == text::lines(unit@),
            first_execution(all) == first_execution(all.skip(i as int)),
        decreases lines@.len() - i,
    {
        proof {
            assert(all.skip(i as int)[0] == lines@[i as int]@);
            assert(all.skip(i as int).drop_first() =~= all.skip(i + 1));
        }
        if text::starts_with(&lines[i], "ExecStart=") {
            return true;
        }
        i += 1;
    }
    false
}

/// The lines of a unit but for those that set its `PATH`.
fn lines_but_for_path(unit: &str) -> (out: Vec<String>)
    ensures
        text::views(out@) == but_for_path(text::lines(unit@)),
{
    let lines = text::lines_of(unit);
    let ghost all = text::views(lines@);
    let mut out: Vec<String> = Vec::new();
    let mut i: usize = 0;
    proof {
        assert(text::views(out@) =~= but_for_path(all.take(0)));
    }
    while i < lines.len()
        invariant
            i <= lines@.len(),
            all == text::views(lines@),
            all == text::lines(unit@),
            text::views(out@) == but_for_path(all.take(i as int)),
        decreases lines@.len() - i,
    {
        let ghost before = text::views(out@);
        proof {
            assert(all.take(i + 1).last() == lines@[i as int]@);
            assert(all.take(i + 1).drop_last() =~= all.take(i as int));
        }
        if !text::starts_with(&lines[i], "Environment=PATH=") {
            out.push(lines[i].clone());
            proof {
                assert(text::views(out@) =~= before.push(lines@[i as int]@));
            }
        }
        i += 1;
    }
    proof {
        assert(all.take(lines@.len() as int) =~= all);
    }
    out
}

/// Whether two lists of lines read the same.
fn same_lines(a: &Vec<String>, b: &Vec<String>) -> (out: bool)
    ensures
        out == (text::views(a@) == text::views(b@)),
{
    proof {
        assert(text::views(a@).len() == a@.len() && text::views(b@).len() == b@.len());
    }
    if a.len() != b.len() {
        return false;
    }
    let mut i: usize = 0;
    while i < a.len()
        invariant
            i <= a@.len(),
            a@.len() == b@.len(),
            forall|j: int| 0 <= j < i ==> (#[trigger] a@[j])@ == b@[j]@,
        decreases a@.len() - i,
    {
        if !text::same(&a[i], &b[i]) {
            proof {
                assert(text::views(a@)[i as int] != text::views(b@)[i as int]);
            }
            return false;
        }
        i += 1;
    }
    proof {
        assert(text::views(a@) =~= text::views(b@));
    }
    true
}

/// Whether two units start the same server the same way.
pub fn started_the_same_way(unit: &str, wanted: &str) -> (out: bool)
    ensures
        out == alike(unit@, wanted@),
{
    starts_one(unit) && same_lines(&lines_but_for_path(unit), &lines_but_for_path(wanted))
}

// ---------------------------------------------------------------------------
// Laws
// ---------------------------------------------------------------------------

/// Escaping loses nothing: two values that are escaped alike are alike.
pub proof fn escaping_loses_nothing(a: Text, b: Text)
    requires
        escaped(a) == escaped(b),
    ensures
        a == b,
    decreases a.len(),
{
    if a.len() == 0 {
        if b.len() > 0 {
            assert(escaped(b).len() > 0);
        }
        assert(a =~= b);
    } else if b.len() == 0 {
        assert(escaped(a).len() > 0);
    } else {
        let x = escaped(a.drop_last());
        let y = escaped(b.drop_last());
        assert(escaped(a).last() == a.last());
        assert(escaped(b).last() == b.last());
        if a.last() == '%' {
            assert(x.push('%').push('%').drop_last().drop_last() =~= x);
            assert(y.push('%').push('%').drop_last().drop_last() =~= y);
        } else {
            assert(x.push(a.last()).drop_last() =~= x);
            assert(y.push(b.last()).drop_last() =~= y);
        }
        escaping_loses_nothing(a.drop_last(), b.drop_last());
        assert(a =~= a.drop_last().push(a.last()));
        assert(b =~= b.drop_last().push(b.last()));
    }
}

proof fn slashing_loses_nothing(a: Text, b: Text)
    requires
        slashed(a) == slashed(b),
    ensures
        a == b,
    decreases a.len(),
{
    if a.len() == 0 {
        if b.len() > 0 {
            assert(slashed(b).len() > 0);
        }
        assert(a =~= b);
    } else if b.len() == 0 {
        assert(slashed(a).len() > 0);
    } else {
        let x = slashed(a.drop_last());
        let y = slashed(b.drop_last());
        assert(slashed(a).last() == a.last());
        assert(slashed(b).last() == b.last());
        if a.last() == '\\' || a.last() == '"' {
            assert(x.push('\\').push(a.last()).drop_last().drop_last() =~= x);
            assert(y.push('\\').push(a.last()).drop_last().drop_last() =~= y);
        } else {
            assert(x.push(a.last()).drop_last() =~= x);
            assert(y.push(b.last()).drop_last() =~= y);
        }
        slashing_loses_nothing(a.drop_last(), b.drop_last());
        assert(a =~= a.drop_last().push(a.last()));
        assert(b =~= b.drop_last().push(b.last()));
    }
}

/// Quoting loses nothing: two values that are quoted alike are alike.
pub proof fn quoting_loses_nothing(a: Text, b: Text)
    requires
        quoted(a) == quoted(b),
    ensures
        a == b,
{
    let x = escaped(a);
    let y = escaped(b);
    if is_split(x) && is_split(y) {
        assert(quoted(a).subrange(1, quoted(a).len() - 1) =~= slashed(x));
        assert(quoted(b).subrange(1, quoted(b).len() - 1) =~= slashed(y));
        slashing_loses_nothing(x, y);
    } else if is_split(x) {
        assert(quoted(a)[0] == '"');
        assert(needs_quoting(y[0]));
    } else if is_split(y) {
        assert(quoted(b)[0] == '"');
        assert(needs_quoting(x[0]));
    }
    escaping_loses_nothing(a, b);
}

/// A quoted value is one word: white space stands in it only between quotation
/// marks.
pub proof fn a_quoted_value_is_one_word(s: Text, i: int)
    requires
        0 <= i < quoted(s).len(),
        text::is_space(quoted(s)[i]),
    ensures
        quoted(s)[0] == '"',
        quoted(s).last() == '"',
        0 < i < quoted(s).len() - 1,
{
    if !is_split(escaped(s)) {
        assert(needs_quoting(escaped(s)[i]));
    }
}

/// What starts a server in the lines of one text and then of another.
proof fn the_first_execution_wins(a: Seq<Text>, b: Seq<Text>)
    ensures
        first_execution(a + b) == if first_execution(a) is Some {
            first_execution(a)
        } else {
            first_execution(b)
        },
    decreases a.len(),
{
    if a.len() == 0 {
        assert(a + b =~= b);
    } else {
        assert((a + b).drop_first() =~= a.drop_first() + b);
        the_first_execution_wins(a.drop_first(), b);
    }
}

/// Joining two lists is joining each and putting the separator between.
proof fn joining_in_two(a: Seq<Text>, b: Seq<Text>, separator: Text)
    requires
        a.len() > 0,
        b.len() > 0,
    ensures
        text::join(a + b, separator) == text::join(a, separator) + separator + text::join(b, separator),
    decreases a.len(),
{
    if a.len() == 1 {
        assert((a + b).drop_first() =~= b);
    } else {
        assert((a + b).drop_first() =~= a.drop_first() + b);
        joining_in_two(a.drop_first(), b, separator);
        assert(a[0] + separator + (text::join(a.drop_first(), separator) + separator + text::join(b, separator))
            =~= (a[0] + separator + text::join(a.drop_first(), separator)) + separator + text::join(b, separator));
    }
}

/// Splitting two texts with a separator between is splitting each.
proof fn splitting_in_two(a: Text, c: char, b: Text)
    ensures
        text::split(a + seq![c] + b, seq![c]) == text::split(a, seq![c]) + text::split(b, seq![c]),
    decreases a.len(),
{
    let s = a + seq![c] + b;
    text::next_place_is_first(s, seq![c], 0);
    text::next_place_is_first(a, seq![c], 0);
    text::single_stands(s, c, a.len() as int);
    assert(s[a.len() as int] == c);
    let at = text::next_place(s, seq![c], 0)->Some_0;
    text::single_stands(s, c, at);
    match text::next_place(a, seq![c], 0) {
        Some(i) => {
            text::single_stands(a, c, i);
            text::single_stands(s, c, i);
            text::single_stands(a, c, at);
            assert(s[i] == a[i]);
            assert(at <= i);
            assert(a[at] == s[at]);
            assert(at == i);
            assert(s.take(i) =~= a.take(i));
            assert(s.skip(i + 1) =~= a.skip(i + 1) + seq![c] + b);
            splitting_in_two(a.skip(i + 1), c, b);
            assert(text::split(s, seq![c]) =~= seq![s.take(i)] + (text::split(a.skip(i + 1), seq![c])
                + text::split(b, seq![c])));
            assert(seq![a.take(i)] + (text::split(a.skip(i + 1), seq![c]) + text::split(b, seq![c])) =~= (seq![
                a.take(i),
            ] + text::split(a.skip(i + 1), seq![c])) + text::split(b, seq![c]));
        },
        None => {
            if at < a.len() {
                text::single_stands(a, c, at);
                assert(a[at] == s[at]);
            }
            assert(at == a.len());
            assert(s.take(at) =~= a);
            assert(s.skip(at + 1) =~= b);
        },
    }
}

/// The lines of a text that is followed by a line feed.
pub open spec fn ended_lines(s: Text) -> Seq<Text> {
    let pieces = text::split(s, seq!['\n']);
    Seq::new(pieces.len(), |i: int| text::without_return(pieces[i]))
}

/// The lines of two texts with a line feed between are those of each.
proof fn lines_in_two(a: Text, b: Text)
    ensures
        text::lines(a + seq!['\n'] + b) == ended_lines(a) + text::lines(b),
{
    splitting_in_two(a, '\n', b);
    assert(text::split(b, seq!['\n']).len() >= 1);
    let all = text::split(a + seq!['\n'] + b, seq!['\n']);
    assert(all.last() == text::split(b, seq!['\n']).last());
    assert(text::lines(a + seq!['\n'] + b) =~= ended_lines(a) + text::lines(b));
}

/// The unit file as what stands before its `PATH`, the line of it, and the rest.
proof fn the_unit_in_three(plan: Plan<Text, Seq<Text>>)
    ensures
        text::lines(rendered(plan)) == ended_lines(text::join(opening(), seq!['\n'])) + (ended_lines(
            environment(plan.path),
        ) + text::lines(text::join(closing(plan), seq!['\n']))),
{
    let feed = seq!['\n'];
    let middle = seq![environment(plan.path)];
    let tail = text::join(closing(plan), feed);
    joining_in_two(opening() + middle, closing(plan), feed);
    joining_in_two(opening(), middle, feed);
    assert(text::join(middle, feed) == environment(plan.path));
    let head = text::join(opening(), feed);
    assert(rendered(plan) =~= head + feed + (environment(plan.path) + feed + tail));
    lines_in_two(head, environment(plan.path) + feed + tail);
    lines_in_two(environment(plan.path), tail);
}

/// No line before the `PATH` starts a server.
proof fn the_opening_starts_nothing()
    ensures
        first_execution(ended_lines(text::join(opening(), seq!['\n']))) is None,
{
    let all = opening();
    reveal_strlit("[Unit]");
    reveal_strlit("Description=laplus server");
    reveal_strlit("StartLimitIntervalSec=300");
    reveal_strlit("StartLimitBurst=5");
    reveal_strlit("");
    reveal_strlit("[Service]");
    reveal_strlit("Type=simple");
    reveal_strlit("WorkingDirectory=%h");
    reveal_strlit("ExecStart=");
    assert(all.len() == 8);
    assert forall|k: int| 0 <= k < all.len() implies !(#[trigger] all[k]).contains('\n') by {
        if k == 0 {
            assert(!"[Unit]"@.contains('\n'));
        } else if k == 1 {
            assert(!"Description=laplus server"@.contains('\n'));
        } else if k == 2 {
            assert(!"StartLimitIntervalSec=300"@.contains('\n'));
        } else if k == 3 {
            assert(!"StartLimitBurst=5"@.contains('\n'));
        } else if k == 4 {
            assert(!""@.contains('\n'));
        } else if k == 5 {
            assert(!"[Service]"@.contains('\n'));
        } else if k == 6 {
            assert(!"Type=simple"@.contains('\n'));
        } else {
            assert(!"WorkingDirectory=%h"@.contains('\n'));
        }
    }
    text::splitting_undoes_joining(all, '\n');
    let lines = ended_lines(text::join(all, seq!['\n']));
    assert(lines.len() == 8);
    assert forall|k: int| 0 <= k < lines.len() implies !"ExecStart="@.is_prefix_of(#[trigger] lines[k]) by {
        let line = lines[k];
        assert(line == text::without_return(all[k]));
        if "ExecStart="@.is_prefix_of(line) {
            assert(line.len() >= 10);
            assert(line[0] == "ExecStart="@[0]);
            assert(all[k][0] == 'E');
        }
    }
    nothing_starts(lines);
}

proof fn nothing_starts(lines: Seq<Text>)
    requires
        forall|k: int| 0 <= k < lines.len() ==> !"ExecStart="@.is_prefix_of(#[trigger] lines[k]),
    ensures
        first_execution(lines) is None,
    decreases lines.len(),
{
    if lines.len() > 0 {
        assert(!"ExecStart="@.is_prefix_of(lines[0]));
        let rest = lines.drop_first();
        assert forall|k: int| 0 <= k < rest.len() implies !"ExecStart="@.is_prefix_of(#[trigger] rest[k]) by {
            assert(rest[k] == lines[k + 1]);
        }
        nothing_starts(rest);
    }
}

/// What the line of a `PATH` holds beyond the `PATH`: the lines that its own line
/// feeds begin.
pub open spec fn beyond_path(path: Text) -> Seq<Text> {
    but_for_path(ended_lines(environment(path)))
}

/// The line of a `PATH` without line feeds is one, and starts nothing.
proof fn a_path_is_one_line(path: Text)
    requires
        !path.contains('\n'),
    ensures
        beyond_path(path).len() == 0,
        first_execution(ended_lines(environment(path))) is None,
{
    escaping_adds_no_line(path);
    slashing_adds_no_line(escaped(path));
    let line = environment(path);
    reveal_strlit("Environment=PATH=");
    reveal_strlit("ExecStart=");
    assert(!"Environment=PATH="@.contains('\n'));
    assert forall|i: int| 0 <= i < quoted(path).len() implies quoted(path)[i] != '\n' by {
        if is_split(escaped(path)) {
            if 0 < i < quoted(path).len() - 1 {
                assert(quoted(path)[i] == slashed(escaped(path))[i - 1]);
                assert(slashed(escaped(path)).contains(slashed(escaped(path))[i - 1]));
            }
        } else {
            assert(escaped(path).contains(escaped(path)[i]));
        }
    }
    assert forall|i: int| 0 <= i < line.len() implies line[i] != '\n' by {
        if i < 17 {
            assert("Environment=PATH="@.contains("Environment=PATH="@[i]));
        } else {
            assert(line[i] == quoted(path)[i - 17]);
        }
    }
    text::next_place_is_first(line, seq!['\n'], 0);
    if let Some(at) = text::next_place(line, seq!['\n'], 0) {
        text::single_stands(line, '\n', at);
    }
    let lines = ended_lines(line);
    assert(lines.len() == 1);
    assert forall|k: int| 0 <= k < lines.len() implies !"ExecStart="@.is_prefix_of(#[trigger] lines[k]) by {
        if "ExecStart="@.is_prefix_of(lines[k]) {
            assert(lines[0][1] == "ExecStart="@[1]);
            assert(line[1] == 'n');
        }
    }
    nothing_starts(lines);
    let shown = lines[0];
    assert(shown == text::without_return(line));
    assert(shown.len() >= 17) by {
        if line.len() == 17 {
            assert(line.last() == "Environment=PATH="@[16]);
        }
    }
    assert(shown.take(17) =~= "Environment=PATH="@);
    assert("Environment=PATH="@.is_prefix_of(lines.last()));
    reveal_with_fuel(but_for_path, 2);
}

/// A `PATH` of one line says nothing beyond itself.
pub proof fn a_path_of_one_line_is_only_a_path(path: Text)
    requires
        !path.contains('\n'),
    ensures
        beyond_path(path) == Seq::<Text>::empty(),
{
    a_path_is_one_line(path);
}

proof fn escaping_adds_no_line(s: Text)
    requires
        !s.contains('\n'),
    ensures
        !escaped(s).contains('\n'),
    decreases s.len(),
{
    if s.len() > 0 {
        assert(s[s.len() - 1] == s.last());
        assert(s.contains(s.last()));
        assert(!s.drop_last().contains('\n')) by {
            if s.drop_last().contains('\n') {
                let k = choose|k: int| 0 <= k < s.drop_last().len() && s.drop_last()[k] == '\n';
                assert(s[k] == '\n');
            }
        }
        escaping_adds_no_line(s.drop_last());
        let before = escaped(s.drop_last());
        assert forall|k: int| 0 <= k < escaped(s).len() implies escaped(s)[k] != '\n' by {
            if k < before.len() {
                assert(before.contains(before[k]));
            }
        }
    }
}

proof fn slashing_adds_no_line(s: Text)
    requires
        !s.contains('\n'),
    ensures
        !slashed(s).contains('\n'),
    decreases s.len(),
{
    if s.len() > 0 {
        assert(s[s.len() - 1] == s.last());
        assert(s.contains(s.last()));
        assert(!s.drop_last().contains('\n')) by {
            if s.drop_last().contains('\n') {
                let k = choose|k: int| 0 <= k < s.drop_last().len() && s.drop_last()[k] == '\n';
                assert(s[k] == '\n');
            }
        }
        slashing_adds_no_line(s.drop_last());
        let before = slashed(s.drop_last());
        assert forall|k: int| 0 <= k < slashed(s).len() implies slashed(s)[k] != '\n' by {
            if k < before.len() {
                assert(before.contains(before[k]));
            }
        }
    }
}

/// What a unit starts the server with stands behind its `PATH`.
proof fn the_closing_starts_the_server(plan: Plan<Text, Seq<Text>>)
    ensures
        starts(text::join(closing(plan), seq!['\n'])) is Some,
{
    let feed = seq!['\n'];
    let line = closing(plan)[0];
    let rest = closing(plan).drop_first();
    let after = text::join(rest, feed);
    assert(text::join(closing(plan), feed) == line + feed + after);
    lines_in_two(line, after);
    text::next_place_is_first(line, feed, 0);
    reveal_strlit("ExecStart=");
    let first = text::split(line, feed)[0];
    match text::next_place(line, feed, 0) {
        Some(at) => {
            text::single_stands(line, '\n', at);
            if at < 10 {
                assert(line[at] == "ExecStart="@[at]);
            }
            assert(first == line.take(at));
        },
        None => {
            assert(first == line);
        },
    }
    assert(first.len() >= 10);
    assert(first.take(10) =~= "ExecStart="@);
    let shown = text::without_return(first);
    assert(shown.len() >= 10) by {
        if first.len() == 10 {
            assert(first.last() == "ExecStart="@[9]);
        }
    }
    assert(shown.take(10) =~= "ExecStart="@);
    assert(ended_lines(line)[0] == shown);
    the_first_execution_wins(ended_lines(line), text::lines(after));
}

/// Leaving the `PATH` out of two lists of lines is leaving it out of each.
proof fn leaving_out_in_two(a: Seq<Text>, b: Seq<Text>)
    ensures
        but_for_path(a + b) == but_for_path(a) + but_for_path(b),
    decreases b.len(),
{
    if b.len() == 0 {
        assert(a + b =~= a);
        assert(but_for_path(a) + but_for_path(b) =~= but_for_path(a));
    } else {
        assert((a + b).drop_last() =~= a + b.drop_last());
        leaving_out_in_two(a, b.drop_last());
        assert(but_for_path(a) + but_for_path(b.drop_last()).push(b.last()) =~= (but_for_path(a) + but_for_path(
            b.drop_last(),
        )).push(b.last()));
    }
}

/// What a unit says but for its `PATH`, in the three parts of it; and that it
/// starts a server.
proof fn a_unit_says(plan: Plan<Text, Seq<Text>>)
    ensures
        but_for_path(text::lines(rendered(plan))) == but_for_path(ended_lines(text::join(opening(), seq!['\n']))) + (
        beyond_path(plan.path) + but_for_path(text::lines(text::join(closing(plan), seq!['\n'])))),
        starts(rendered(plan)) is Some,
{
    let head = ended_lines(text::join(opening(), seq!['\n']));
    let middle = ended_lines(environment(plan.path));
    let tail = text::lines(text::join(closing(plan), seq!['\n']));
    the_unit_in_three(plan);
    leaving_out_in_two(head, middle + tail);
    leaving_out_in_two(middle, tail);
    the_closing_starts_the_server(plan);
    the_first_execution_wins(head, middle + tail);
    the_first_execution_wins(middle, tail);
}

/// A different `PATH` does not make a service out of date: two units that differ
/// in nothing else start the same server the same way, unless a line feed in the
/// `PATH` begins a line of another kind.
pub proof fn a_path_does_not_make_a_unit_out_of_date(plan: Plan<Text, Seq<Text>>, path: Text)
    ensures
        alike(rendered(plan), rendered(Plan { path, ..plan })) <==> beyond_path(plan.path) == beyond_path(path),
{
    let other = Plan { path, ..plan };
    a_unit_says(plan);
    a_unit_says(other);
    assert(words(other) =~= words(plan));
    assert(closing(other) =~= closing(plan));
    let head = but_for_path(ended_lines(text::join(opening(), seq!['\n'])));
    let tail = but_for_path(text::lines(text::join(closing(plan), seq!['\n'])));
    let ours = beyond_path(plan.path);
    let theirs = beyond_path(path);
    if head + (ours + tail) == head + (theirs + tail) {
        assert((head + (ours + tail)).skip(head.len() as int) =~= ours + tail);
        assert((head + (theirs + tail)).skip(head.len() as int) =~= theirs + tail);
        assert((ours + tail).len() == (theirs + tail).len());
        assert((ours + tail).take(ours.len() as int) =~= ours);
        assert((theirs + tail).take(theirs.len() as int) =~= theirs);
    }
}

/// A plan whose values stand on one line each, and whose log is not named by a
/// carriage return at its end.
pub open spec fn on_one_line(plan: Plan<Text, Seq<Text>>) -> bool {
    &&& !plan.path.contains('\n')
    &&& !execution(plan).contains('\n')
    &&& !plan.log_path.contains('\n')
    &&& plan.log_path.len() > 0 ==> plan.log_path.last() != '\r'
}

/// A service that would be written otherwise is out of date: two units start the
/// server the same way exactly where their binary, bundle and arguments read the
/// same and they write the same log.
pub proof fn a_unit_is_told_by_what_it_runs(a: Plan<Text, Seq<Text>>, b: Plan<Text, Seq<Text>>)
    requires
        on_one_line(a),
        on_one_line(b),
    ensures
        starts(rendered(a)) == Some(execution(a)),
        alike(rendered(a), rendered(b)) <==> execution(a) == execution(b) && a.log_path == b.log_path,
{
    a_unit_starts_its_execution(a);
    a_unit_says(a);
    a_unit_says(b);
    a_path_is_one_line(a.path);
    a_path_is_one_line(b.path);
    the_lines_of_the_closing(a);
    the_lines_of_the_closing(b);
    let head = but_for_path(ended_lines(text::join(opening(), seq!['\n'])));
    let ours = closing(a).drop_last();
    let theirs = closing(b).drop_last();
    assert(beyond_path(a.path) + ours =~= ours);
    assert(beyond_path(b.path) + theirs =~= theirs);
    if head + ours == head + theirs {
        assert((head + ours).skip(head.len() as int) =~= ours);
        assert((head + theirs).skip(head.len() as int) =~= theirs);
        reveal_strlit("ExecStart=");
        reveal_strlit("StandardOutput=append:");
        assert(ours[0] == theirs[0]);
        assert(("ExecStart="@ + execution(a)).skip(10) =~= execution(a));
        assert(("ExecStart="@ + execution(b)).skip(10) =~= execution(b));
        assert(ours[3] == theirs[3]);
        assert(("StandardOutput=append:"@ + escaped(a.log_path)).skip(22) =~= escaped(a.log_path));
        assert(("StandardOutput=append:"@ + escaped(b.log_path)).skip(22) =~= escaped(b.log_path));
        escaping_loses_nothing(a.log_path, b.log_path);
    } else if execution(a) == execution(b) && a.log_path == b.log_path {
        assert(ours =~= theirs);
    }
}

/// The lines behind the `PATH` are read back as they were written, and none of
/// them sets it.
proof fn the_lines_of_the_closing(plan: Plan<Text, Seq<Text>>)
    requires
        on_one_line(plan),
    ensures
        but_for_path(text::lines(text::join(closing(plan), seq!['\n']))) == closing(plan).drop_last(),
{
    let all = closing(plan);
    reveal_strlit("");
    assert forall|k: int| 0 <= k < all.len() implies !(#[trigger] all[k]).contains('\n') && text::without_return(
        all[k],
    ) == all[k] && !"Environment=PATH="@.is_prefix_of(all[k]) by {
        closing_line(plan, k);
    }
    text::splitting_undoes_joining(all, '\n');
    let lines = text::lines(text::join(all, seq!['\n']));
    assert(all.last() == ""@);
    assert(lines =~= all.drop_last());
    nothing_is_left_out(lines);
}

proof fn nothing_is_left_out(lines: Seq<Text>)
    requires
        forall|k: int| 0 <= k < lines.len() ==> !"Environment=PATH="@.is_prefix_of(#[trigger] lines[k]),
    ensures
        but_for_path(lines) == lines,
    decreases lines.len(),
{
    if lines.len() > 0 {
        let front = lines.drop_last();
        assert forall|k: int| 0 <= k < front.len() implies !"Environment=PATH="@.is_prefix_of(#[trigger] front[k]) by {
            assert(front[k] == lines[k]);
        }
        nothing_is_left_out(front);
        assert(lines[lines.len() - 1] == lines.last());
        assert(front.push(lines.last()) =~= lines);
    } else {
        assert(but_for_path(lines) =~= lines);
    }
}

/// A line behind the `PATH` is one line, ends in no carriage return and does not
/// set the `PATH`.
proof fn closing_line(plan: Plan<Text, Seq<Text>>, k: int)
    requires
        on_one_line(plan),
        0 <= k < closing(plan).len(),
    ensures
        !closing(plan)[k].contains('\n'),
        text::without_return(closing(plan)[k]) == closing(plan)[k],
        !"Environment=PATH="@.is_prefix_of(closing(plan)[k]),
{
    reveal_strlit("ExecStart=");
    reveal_strlit("Restart=always");
    reveal_strlit("RestartSec=5");
    reveal_strlit("StandardOutput=append:");
    reveal_strlit("StandardError=append:");
    reveal_strlit("");
    reveal_strlit("[Install]");
    reveal_strlit("WantedBy=default.target");
    reveal_strlit("Environment=PATH=");
    let line = closing(plan)[k];
    let log = escaped(plan.log_path);
    escaping_adds_no_line(plan.log_path);
    no_word_ends_in_a_return(plan);
    assert(log.len() > 0 ==> log.last() == plan.log_path.last());
    if k == 0 {
        in_two_pieces("ExecStart="@, execution(plan));
    } else if k == 3 {
        in_two_pieces("StandardOutput=append:"@, log);
    } else if k == 4 {
        in_two_pieces("StandardError=append:"@, log);
    }
    if "Environment=PATH="@.is_prefix_of(line) {
        assert(line[0] == "Environment=PATH="@[0]);
        assert(line[1] == "Environment=PATH="@[1]);
    }
}

/// Two pieces without a line feed make a line without one, and it ends as the
/// second does, or as the first where there is no second.
proof fn in_two_pieces(a: Text, b: Text)
    requires
        !a.contains('\n'),
        !b.contains('\n'),
        a.len() > 0,
        a.last() != '\r',
        b.len() > 0 ==> b.last() != '\r',
    ensures
        !(a + b).contains('\n'),
        text::without_return(a + b) == a + b,
{
    assert forall|i: int| 0 <= i < (a + b).len() implies (a + b)[i] != '\n' by {
        if i < a.len() {
            assert(a.contains(a[i]));
        } else {
            assert(b.contains(b[i - a.len()]));
        }
    }
    if b.len() > 0 {
        assert((a + b).last() == b.last());
    } else {
        assert((a + b).last() == a.last());
    }
}

proof fn a_unit_starts_its_execution(plan: Plan<Text, Seq<Text>>)
    requires
        !plan.path.contains('\n'),
        !execution(plan).contains('\n'),
    ensures
        starts(rendered(plan)) == Some(execution(plan)),
{
    let feed = seq!['\n'];
    a_path_is_one_line(plan.path);
    the_unit_in_three(plan);
    the_opening_starts_nothing();
    let head = ended_lines(text::join(opening(), feed));
    let tail = text::lines(text::join(closing(plan), feed));
    the_first_execution_wins(head, ended_lines(environment(plan.path)) + tail);
    the_first_execution_wins(ended_lines(environment(plan.path)), tail);
    let line = closing(plan)[0];
    let rest = closing(plan).drop_first();
    let after = text::join(rest, feed);
    assert(text::join(closing(plan), feed) == line + feed + after);
    lines_in_two(line, after);
    the_first_execution_wins(ended_lines(line), text::lines(after));
    reveal_strlit("ExecStart=");
    text::next_place_is_first(line, feed, 0);
    if let Some(at) = text::next_place(line, feed, 0) {
        text::single_stands(line, '\n', at);
        if at < 10 {
            assert(line[at] == "ExecStart="@[at]);
        } else {
            assert(line[at] == execution(plan)[at - 10]);
            assert(execution(plan).contains('\n'));
        }
    }
    assert(text::split(line, feed) =~= seq![line]);
    no_word_ends_in_a_return(plan);
    assert(text::without_return(line) == line) by {
        if execution(plan).len() > 0 {
            assert(line.last() == execution(plan).last());
        } else {
            assert(line.last() == "ExecStart="@[9]);
        }
    }
    assert(ended_lines(line) =~= seq![line]);
    assert(line.skip(10) =~= execution(plan));
    assert(line.take(10) =~= "ExecStart="@);
}

/// A quoted value does not end in a carriage return.
proof fn a_quoted_value_ends_in_no_return(s: Text)
    ensures
        quoted(s).len() > 0 ==> quoted(s).last() != '\r',
{
    if quoted(s).len() > 0 && quoted(s).last() == '\r' {
        a_quoted_value_is_one_word(s, quoted(s).len() - 1);
    }
}

/// What a unit starts the server with does not end in a carriage return.
proof fn no_word_ends_in_a_return(plan: Plan<Text, Seq<Text>>)
    ensures
        execution(plan).len() > 0 ==> execution(plan).last() != '\r',
{
    let all = words(plan);
    reveal_strlit("--ui");
    assert forall|k: int| 0 <= k < all.len() && all[k].len() > 0 implies #[trigger] all[k].last() != '\r' by {
        a_quoted_value_ends_in_no_return(plan.binary);
        if let Some(ui) = plan.ui {
            a_quoted_value_ends_in_no_return(ui);
            if k >= 3 {
                a_quoted_value_ends_in_no_return(plan.arguments[k - 3]);
            }
        } else if k >= 1 {
            a_quoted_value_ends_in_no_return(plan.arguments[k - 1]);
        }
    }
    joined_words_end_in_no_return(all);
}

proof fn joined_words_end_in_no_return(all: Seq<Text>)
    requires
        forall|k: int| 0 <= k < all.len() && all[k].len() > 0 ==> #[trigger] all[k].last() != '\r',
    ensures
        text::join(all, seq![' ']).len() > 0 ==> text::join(all, seq![' ']).last() != '\r',
    decreases all.len(),
{
    if all.len() == 1 {
        assert(all[0].len() > 0 ==> all[0].last() != '\r');
    } else if all.len() > 1 {
        let rest = all.drop_first();
        assert forall|k: int| 0 <= k < rest.len() && rest[k].len() > 0 implies #[trigger] rest[k].last() != '\r' by {
            assert(rest[k] == all[k + 1]);
            assert(all[k + 1].last() != '\r');
        }
        joined_words_end_in_no_return(rest);
        let joined = text::join(rest, seq![' ']);
        let whole = text::join(all, seq![' ']);
        if joined.len() > 0 {
            assert(whole.last() == joined.last());
        } else {
            assert(whole.last() == ' ');
        }
    }
}

/// Escaping doubles each percent sign and leaves every other character alone.
pub proof fn a_percent_sign_is_doubled(before: Text, c: char)
    ensures
        escaped(Seq::<char>::empty()) == Seq::<char>::empty(),
        c == '%' ==> escaped(before.push(c)) == escaped(before).push('%').push('%'),
        c != '%' ==> escaped(before.push(c)) == escaped(before).push(c),
{
    assert(before.push(c).drop_last() =~= before);
}

/// Inside quotes a backslash stands before each backslash and each quote, and before
/// nothing else.
pub proof fn a_quote_is_slashed(before: Text, c: char)
    ensures
        slashed(Seq::<char>::empty()) == Seq::<char>::empty(),
        c == '\\' || c == '"' ==> slashed(before.push(c)) == slashed(before).push('\\').push(c),
        c != '\\' && c != '"' ==> slashed(before.push(c)) == slashed(before).push(c),
{
    assert(before.push(c).drop_last() =~= before);
}

/// A value stands as it is where nothing in it would end a word, and in quotes
/// otherwise.
pub proof fn a_value_is_quoted_where_it_must_be(s: Text, i: int)
    ensures
        0 <= i < escaped(s).len() && (text::is_space(escaped(s)[i]) || escaped(s)[i] == '"' || escaped(s)[i] == '\\')
            ==> quoted(s) == "\""@ + slashed(escaped(s)) + "\""@,
        (forall|k: int|
            0 <= k < escaped(s).len() ==> !text::is_space(#[trigger] escaped(s)[k]) && escaped(s)[k] != '"' && escaped(s)[k]
                != '\\') ==> quoted(s) == escaped(s),
{
    reveal_strlit("\"");
    assert("\""@ =~= seq!['"']);
    if 0 <= i < escaped(s).len() {
        assert(needs_quoting(escaped(s)[i]) <==> text::is_space(escaped(s)[i]) || escaped(s)[i] == '"' || escaped(s)[i]
            == '\\');
    }
}

/// What a unit runs is the binary, then the bundle where there is one, then the
/// arguments in their order, each quoted and set off by a space.
pub proof fn a_unit_runs_what_is_planned(plan: Plan<Text, Seq<Text>>, i: int)
    ensures
        execution(plan) == text::join(words(plan), " "@),
        words(plan)[0] == quoted(plan.binary),
        plan.ui matches Some(ui) ==> words(plan)[1] == "--ui"@ && words(plan)[2] == quoted(ui) && words(plan).len() == 3
            + plan.arguments.len(),
        plan.ui is None ==> words(plan).len() == 1 + plan.arguments.len(),
        plan.ui is Some && 0 <= i < plan.arguments.len() ==> words(plan)[3 + i] == quoted(plan.arguments[i]),
        plan.ui is None && 0 <= i < plan.arguments.len() ==> words(plan)[1 + i] == quoted(plan.arguments[i]),
{
    reveal_strlit(" ");
    assert(" "@ =~= seq![' ']);
}

/// A unit says, line by line, what it is, where it runs, what it starts, how it comes
/// back and where it writes.
pub proof fn a_unit_says_line_by_line(plan: Plan<Text, Seq<Text>>)
    ensures
        ({
            let lines = seq![
                "[Unit]"@,
                "Description=laplus server"@,
                "StartLimitIntervalSec=300"@,
                "StartLimitBurst=5"@,
                ""@,
                "[Service]"@,
                "Type=simple"@,
                "WorkingDirectory=%h"@,
                "Environment=PATH="@ + quoted(plan.path),
                "ExecStart="@ + execution(plan),
                "Restart=always"@,
                "RestartSec=5"@,
                "StandardOutput=append:"@ + escaped(plan.log_path),
                "StandardError=append:"@ + escaped(plan.log_path),
                ""@,
                "[Install]"@,
                "WantedBy=default.target"@,
                ""@,
            ];
            rendered(plan) == text::join(lines, "\n"@)
        }),
{
    reveal_strlit("\n");
    assert("\n"@ =~= seq!['\n']);
    let lines = seq![
        "[Unit]"@,
        "Description=laplus server"@,
        "StartLimitIntervalSec=300"@,
        "StartLimitBurst=5"@,
        ""@,
        "[Service]"@,
        "Type=simple"@,
        "WorkingDirectory=%h"@,
        "Environment=PATH="@ + quoted(plan.path),
        "ExecStart="@ + execution(plan),
        "Restart=always"@,
        "RestartSec=5"@,
        "StandardOutput=append:"@ + escaped(plan.log_path),
        "StandardError=append:"@ + escaped(plan.log_path),
        ""@,
        "[Install]"@,
        "WantedBy=default.target"@,
        ""@,
    ];
    assert(opening() + seq![environment(plan.path)] + closing(plan) =~= lines);
}

} // verus!
