//! Branch names: what git would refuse is refused before git sees it, in the
//! developer's vocabulary.

use crate::text;
use vstd::prelude::*;

verus! {

/// Text as the contracts see it.
pub type Text = Seq<char>;

/// The longest that a part of a branch name may be, in bytes. Each part is a file
/// name, and every filesystem stops there.
pub const LONGEST_PART: u64 = 255;

/// The longest that a branch name may be, in characters. A backstop for what
/// reaches a command line, far past what anybody types.
pub const LONGEST_NAME: usize = 1_024;

/// The characters that git has in no ref name.
pub open spec fn forbidden(c: char) -> bool {
    c == ' ' || c == '~' || c == '^' || c == ':' || c == '?' || c == '*' || c == '[' || c == '\\'
}

/// The control characters that git has in no ref name: those below the space, and
/// the delete character.
pub open spec fn control(c: char) -> bool {
    (c as u32) < 0x20 || c as u32 == 0x7f
}

/// The first character that git has in no ref name.
pub open spec fn first_forbidden(s: Text) -> Option<char>
    decreases s.len(),
{
    if s.len() == 0 {
        None
    } else if forbidden(s[0]) {
        Some(s[0])
    } else {
        first_forbidden(s.drop_first())
    }
}

/// What is wrong with one part of a name.
pub open spec fn part_problem(part: Text) -> Option<Text> {
    if "."@.is_prefix_of(part) {
        Some("No part of a branch name may start with '.'."@)
    } else if ".lock"@.is_suffix_of(part) {
        Some("No part of a branch name may end with '.lock'."@)
    } else if text::bytes(part) > LONGEST_PART {
        Some("No part of a branch name may be longer than 255 characters."@)
    } else {
        None
    }
}

/// What is wrong with the first of the parts that anything is wrong with.
pub open spec fn parts_problem(parts: Seq<Text>) -> Option<Text>
    decreases parts.len(),
{
    if parts.len() == 0 {
        None
    } else {
        match part_problem(parts[0]) {
            Some(problem) => Some(problem),
            None => parts_problem(parts.drop_first()),
        }
    }
}

/// What is wrong with a name, in the order in which it is looked at.
pub open spec fn name_problem(name: Text) -> Option<Text> {
    if name.len() == 0 {
        Some("This call needs a branch name; none was given."@)
    } else if name.len() > LONGEST_NAME {
        Some("A branch name may be at most 1024 characters long."@)
    } else if first_forbidden(name) is Some {
        if first_forbidden(name) == Some(' ') {
            Some("A branch name may not contain a space."@)
        } else {
            Some("A branch name may not contain '"@ + seq![first_forbidden(name)->Some_0] + "'."@)
        }
    } else if exists|i: int| 0 <= i < name.len() && control(#[trigger] name[i]) {
        Some("A branch name may not contain a control character."@)
    } else if "-"@.is_prefix_of(name) {
        Some("A branch name may not start with '-'."@)
    } else if name == "@"@ {
        Some("A branch name may not be '@' on its own."@)
    } else if text::occurs(name, "@{"@) {
        Some("A branch name may not contain '@{'."@)
    } else if text::occurs(name, ".."@) {
        Some("A branch name may not contain '..'."@)
    } else if "/"@.is_prefix_of(name) || "/"@.is_suffix_of(name) || text::occurs(name, "//"@) {
        Some("A branch name may not start or end with '/', or contain an empty part."@)
    } else if "."@.is_suffix_of(name) {
        Some("A branch name may not end with '.'."@)
    } else {
        parts_problem(text::split(name, "/"@))
    }
}

/// The branch name in what was typed, or what is wrong with it.
pub open spec fn checked(raw: Text) -> Result<Text, Text> {
    match name_problem(text::trimmed(raw)) {
        Some(problem) => Err(problem),
        None => Ok(text::trimmed(raw)),
    }
}

/// The first character that git has in no ref name.
fn find_forbidden(s: &str) -> (out: Option<char>)
    ensures
        out == first_forbidden(s@),
{
    let chars = text::characters(s);
    let mut i: usize = 0;
    proof {
        assert(s@.skip(0) =~= s@);
    }
    while i < chars.len()
        invariant
            chars@ == s@,
            i <= chars@.len(),
            first_forbidden(s@) == first_forbidden(s@.skip(i as int)),
        decreases chars@.len() - i,
    {
        let c = chars[i];
        proof {
            assert(s@.skip(i as int)[0] == c);
            assert(s@.skip(i as int).drop_first() =~= s@.skip(i + 1));
        }
        if c == ' ' || c == '~' || c == '^' || c == ':' || c == '?' || c == '*' || c == '[' || c == '\\' {
            return Some(c);
        }
        i += 1;
    }
    None
}

/// Whether a control character stands in a text.
fn has_control(s: &str) -> (out: bool)
    ensures
        out == exists|i: int| 0 <= i < s@.len() && control(#[trigger] s@[i]),
{
    let chars = text::characters(s);
    let mut i: usize = 0;
    while i < chars.len()
        invariant
            chars@ == s@,
            i <= chars@.len(),
            forall|j: int| 0 <= j < i ==> !control(#[trigger] s@[j]),
        decreases chars@.len() - i,
    {
        let n: u32 = chars[i] as u32;
        if n < 0x20 || n == 0x7f {
            assert(control(s@[i as int]));
            return true;
        }
        i += 1;
    }
    false
}

/// What is wrong with one part of a name.
fn check_part(part: &str) -> (out: Option<String>)
    ensures
        text::maybe(out) == part_problem(part@),
{
    if text::starts_with(part, ".") {
        Some("No part of a branch name may start with '.'.".to_owned())
    } else if text::ends_with(part, ".lock") {
        Some("No part of a branch name may end with '.lock'.".to_owned())
    } else if text::takes_more_than(part, LONGEST_PART) {
        Some("No part of a branch name may be longer than 255 characters.".to_owned())
    } else {
        None
    }
}

/// What is wrong with the first of the parts that anything is wrong with.
fn check_parts(name: &str) -> (out: Option<String>)
    ensures
        text::maybe(out) == parts_problem(text::split(name@, "/"@)),
{
    proof {
        reveal_strlit("/");
    }
    let parts = text::split_on(name, "/");
    let ghost all = text::views(parts@);
    let mut i: usize = 0;
    proof {
        assert(all.skip(0) =~= all);
    }
    while i < parts.len()
        invariant
            i <= parts@.len(),
            all == text::views(parts@),
            all == text::split(name@, "/"@),
            parts_problem(all) == parts_problem(all.skip(i as int)),
        decreases parts@.len() - i,
    {
        proof {
            assert(all.skip(i as int)[0] == parts@[i as int]@);
            assert(all.skip(i as int).drop_first() =~= all.skip(i + 1));
        }
        let problem = check_part(&parts[i]);
        if problem.is_some() {
            return problem;
        }
        i += 1;
    }
    None
}

/// The branch name in what was typed, or what is wrong with it.
pub fn check_name(raw: &str) -> (out: Result<String, String>)
    ensures
        match out {
            Ok(name) => checked(raw@) == Ok::<Text, Text>(name@),
            Err(problem) => checked(raw@) == Err::<Text, Text>(problem@),
        },
{
    let name = text::trim(raw);
    if name.as_str().is_empty() {
        return Err("This call needs a branch name; none was given.".to_owned());
    }
    if text::characters(&name).len() > LONGEST_NAME {
        return Err("A branch name may be at most 1024 characters long.".to_owned());
    }
    if let Some(found) = find_forbidden(&name) {
        if found == ' ' {
            return Err("A branch name may not contain a space.".to_owned());
        }
        let mut said = "A branch name may not contain '".to_owned();
        said.push(found);
        let said = text::glue(&said, "'.");
        proof {
            let front = "A branch name may not contain '"@;
            assert(front.push(found) =~= front + seq![found]);
        }
        return Err(said);
    }
    if has_control(&name) {
        return Err("A branch name may not contain a control character.".to_owned());
    }
    if text::starts_with(&name, "-") {
        return Err("A branch name may not start with '-'.".to_owned());
    }
    if text::same(&name, "@") {
        return Err("A branch name may not be '@' on its own.".to_owned());
    }
    if text::contains(&name, "@{") {
        return Err("A branch name may not contain '@{'.".to_owned());
    }
    if text::contains(&name, "..") {
        return Err("A branch name may not contain '..'.".to_owned());
    }
    if text::starts_with(&name, "/") || text::ends_with(&name, "/") || text::contains(&name, "//") {
        return Err("A branch name may not start or end with '/', or contain an empty part.".to_owned());
    }
    if text::ends_with(&name, ".") {
        return Err("A branch name may not end with '.'.".to_owned());
    }
    match check_parts(&name) {
        Some(problem) => Err(problem),
        None => Ok(name),
    }
}

// ---------------------------------------------------------------------------
// Laws
// ---------------------------------------------------------------------------

/// The rules that git has for a branch name, and the two bounds on its length.
pub open spec fn acceptable(name: Text) -> bool {
    &&& 0 < name.len() <= LONGEST_NAME
    &&& forall|i: int| 0 <= i < name.len() ==> !forbidden(#[trigger] name[i]) && !control(name[i])
    &&& !"-"@.is_prefix_of(name)
    &&& name != "@"@
    &&& !text::occurs(name, "@{"@)
    &&& !text::occurs(name, ".."@)
    &&& !"/"@.is_prefix_of(name) && !"/"@.is_suffix_of(name) && !text::occurs(name, "//"@)
    &&& !"."@.is_suffix_of(name)
    &&& forall|k: int|
        0 <= k < text::split(name, "/"@).len() ==> acceptable_part(#[trigger] text::split(name, "/"@)[k])
}

/// The rules that git has for a part of a branch name.
pub open spec fn acceptable_part(part: Text) -> bool {
    &&& !"."@.is_prefix_of(part)
    &&& !".lock"@.is_suffix_of(part)
    &&& text::bytes(part) <= LONGEST_PART
}

/// A name is accepted exactly where it keeps every rule, and what is accepted is
/// what was typed without the space around it.
pub proof fn a_name_is_accepted_iff_it_keeps_the_rules(raw: Text)
    ensures
        checked(raw) is Ok <==> acceptable(text::trimmed(raw)),
        checked(raw) matches Ok(name) ==> name == text::trimmed(raw),
{
    let name = text::trimmed(raw);
    nothing_forbidden(name);
    nothing_wrong_with_parts(text::split(name, "/"@));
}

/// Checking what was accepted accepts it again, unchanged.
pub proof fn checking_is_idempotent(raw: Text)
    ensures
        checked(raw) matches Ok(name) ==> checked(name) == Ok::<Text, Text>(name),
{
    text::trimming_is_idempotent(raw);
}

proof fn nothing_forbidden(s: Text)
    ensures
        first_forbidden(s) is None <==> forall|i: int| 0 <= i < s.len() ==> !forbidden(#[trigger] s[i]),
    decreases s.len(),
{
    if s.len() > 0 {
        let rest = s.drop_first();
        nothing_forbidden(rest);
        if first_forbidden(rest) is None && !forbidden(s[0]) {
            assert forall|i: int| 0 <= i < s.len() implies !forbidden(#[trigger] s[i]) by {
                if i > 0 {
                    assert(rest[i - 1] == s[i]);
                }
            }
        }
        if forall|i: int| 0 <= i < s.len() ==> !forbidden(#[trigger] s[i]) {
            assert forall|i: int| 0 <= i < rest.len() implies !forbidden(#[trigger] rest[i]) by {
                assert(rest[i] == s[i + 1]);
            }
        }
    }
}

proof fn nothing_wrong_with_parts(parts: Seq<Text>)
    ensures
        parts_problem(parts) is None <==> forall|k: int|
            0 <= k < parts.len() ==> acceptable_part(#[trigger] parts[k]),
    decreases parts.len(),
{
    if parts.len() > 0 {
        let rest = parts.drop_first();
        nothing_wrong_with_parts(rest);
        if parts_problem(rest) is None && acceptable_part(parts[0]) {
            assert forall|k: int| 0 <= k < parts.len() implies acceptable_part(#[trigger] parts[k]) by {
                if k > 0 {
                    assert(rest[k - 1] == parts[k]);
                }
            }
        }
        if forall|k: int| 0 <= k < parts.len() ==> acceptable_part(#[trigger] parts[k]) {
            assert(acceptable_part(parts[0]));
            assert forall|k: int| 0 <= k < rest.len() implies acceptable_part(#[trigger] rest[k]) by {
                assert(rest[k] == parts[k + 1]);
            }
        }
    }
}

} // verus!
