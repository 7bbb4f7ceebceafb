use vstd::prelude::*;

use crate::panes::Area;

verus! {

/// Appends `c` to `s`: `String::push`, which appends the given char to the
/// end of the string.
#[verifier::external_body]
pub(crate) fn string_push(s: &mut String, c: char)
    ensures
        final(s)@ == old(s)@.push(c),
{
    s.push(c)
}

/// Removes the last char of `s`: `String::pop`, which removes the last
/// character and returns it, or returns `None` and leaves the string as it is
/// when the string is empty.
#[verifier::external_body]
pub(crate) fn string_pop(s: &mut String) -> (r: Option<char>)
    ensures
        old(s)@.len() == 0 ==> r is None && final(s)@ == old(s)@,
        old(s)@.len() > 0 ==> r == Some(old(s)@.last()) && final(s)@ == old(s)@.drop_last(),
{
    s.pop()
}

/// Empties `s`: `String::clear`, which truncates the string, removing all of
/// its contents.
#[verifier::external_body]
pub(crate) fn string_clear(s: &mut String)
    ensures
        final(s)@ == Seq::<char>::empty(),
{
    s.clear()
}

/// Whether `c` has Unicode's White_Space property (the Unicode Character
/// Database, PropList.txt), which is what `char::is_whitespace` tests and
/// what `str::trim` removes: the controls from tab to carriage return, the
/// space, next line, no-break space, ogham space mark, the spaces from en
/// quad to hair space, the line and paragraph separators, the narrow
/// no-break space, the medium mathematical space and the ideographic space.
pub open spec fn is_white_space(c: char) -> bool {
    ||| '\u{9}' <= c <= '\u{d}'
    ||| c == ' '
    ||| c == '\u{85}'
    ||| c == '\u{a0}'
    ||| c == '\u{1680}'
    ||| '\u{2000}' <= c <= '\u{200a}'
    ||| c == '\u{2028}'
    ||| c == '\u{2029}'
    ||| c == '\u{202f}'
    ||| c == '\u{205f}'
    ||| c == '\u{3000}'
}

/// Whether `t` is `s` with its leading and trailing whitespace removed: a
/// contiguous part of `s` such that everything before and after it is
/// whitespace and, when not empty, it starts and ends with a char that is not.
pub open spec fn is_trim_of(s: Seq<char>, t: Seq<char>) -> bool {
    exists|a: int, b: int|
        {
            &&& 0 <= a <= b <= s.len()
            &&& t == s.subrange(a, b)
            &&& forall|k: int| 0 <= k < a ==> is_white_space(#[trigger] s[k])
            &&& forall|k: int| b <= k < s.len() ==> is_white_space(#[trigger] s[k])
            &&& a < b ==> !is_white_space(s[a]) && !is_white_space(s[b - 1])
        }
}

/// `str::trim`: the string slice with leading and trailing whitespace
/// removed, whitespace being what Unicode's White_Space property holds.
#[verifier::external_body]
pub(crate) fn trim_str(s: &str) -> (t: &str)
    ensures
        is_trim_of(s@, t@),
{
    s.trim()
}

/// A string has exactly one trimmed form.
pub proof fn lemma_trim_unique(s: Seq<char>, t1: Seq<char>, t2: Seq<char>)
    requires
        is_trim_of(s, t1),
        is_trim_of(s, t2),
    ensures
        t1 == t2,
{
    let (a1, b1) = choose|a: int, b: int|
        {
            &&& 0 <= a <= b <= s.len()
            &&& t1 == s.subrange(a, b)
            &&& forall|k: int| 0 <= k < a ==> is_white_space(#[trigger] s[k])
            &&& forall|k: int| b <= k < s.len() ==> is_white_space(#[trigger] s[k])
            &&& a < b ==> !is_white_space(s[a]) && !is_white_space(s[b - 1])
        };
    let (a2, b2) = choose|a: int, b: int|
        {
            &&& 0 <= a <= b <= s.len()
            &&& t2 == s.subrange(a, b)
            &&& forall|k: int| 0 <= k < a ==> is_white_space(#[trigger] s[k])
            &&& forall|k: int| b <= k < s.len() ==> is_white_space(#[trigger] s[k])
            &&& a < b ==> !is_white_space(s[a]) && !is_white_space(s[b - 1])
        };
    if a1 < b1 && a2 < b2 {
        if a1 < a2 {
            assert(is_white_space(s[a1]));
        }
        if a2 < a1 {
            assert(is_white_space(s[a2]));
        }
        if b1 < b2 {
            assert(is_white_space(s[b2 - 1]));
        }
        if b2 < b1 {
            assert(is_white_space(s[b1 - 1]));
        }
        assert(t1 =~= t2);
    } else if a1 < b1 {
        assert(is_white_space(s[a1]));
    } else if a2 < b2 {
        assert(is_white_space(s[a2]));
    } else {
        assert(t1 =~= t2);
    }
}

/// What the fuzzy search box holds for a search: the pattern, and whether
/// the search is exact. A pattern typed after a leading `/` is searched
/// fuzzily; any other is searched exactly. Either way surrounding
/// whitespace does not count.
pub open spec fn is_search_of(input: Seq<char>, pattern: Seq<char>, exact: bool) -> bool {
    if input.len() > 0 && input[0] == '/' {
        !exact && is_trim_of(input.drop_first(), pattern)
    } else {
        exact && is_trim_of(input, pattern)
    }
}

/// The search is exact exactly when the box does not start with `/`. The
/// pattern is a stretch of what was typed (after the `/`, when there is
/// one) that neither starts nor ends with whitespace, and all that is left
/// out around it is whitespace.
pub proof fn lemma_search_pattern(input: Seq<char>, pattern: Seq<char>, exact: bool)
    requires
        is_search_of(input, pattern, exact),
    ensures
        exact == !(input.len() > 0 && input[0] == '/'),
        pattern.len() > 0 ==> !is_white_space(pattern[0]) && !is_white_space(pattern.last()),
        exact ==> exists|a: int, b: int|
            #![trigger input.subrange(a, b)]
            0 <= a <= b <= input.len() && pattern == input.subrange(a, b) && (forall|k: int|
                0 <= k < a ==> is_white_space(#[trigger] input[k])) && (forall|k: int|
                b <= k < input.len() ==> is_white_space(#[trigger] input[k])),
        !exact ==> exists|a: int, b: int|
            #![trigger input.drop_first().subrange(a, b)]
            0 <= a <= b <= input.len() - 1 && pattern == input.drop_first().subrange(a, b) && (
            forall|k: int| 0 <= k < a ==> is_white_space(#[trigger] input.drop_first()[k])) && (
            forall|k: int|
                b <= k < input.len() - 1 ==> is_white_space(#[trigger] input.drop_first()[k])),
{
    let typed = if exact {
        input
    } else {
        input.drop_first()
    };
    let (a, b) = choose|a: int, b: int|
        {
            &&& 0 <= a <= b <= typed.len()
            &&& pattern == typed.subrange(a, b)
            &&& forall|k: int| 0 <= k < a ==> is_white_space(#[trigger] typed[k])
            &&& forall|k: int| b <= k < typed.len() ==> is_white_space(#[trigger] typed[k])
            &&& a < b ==> !is_white_space(typed[a]) && !is_white_space(typed[b - 1])
        };
    if pattern.len() > 0 {
        assert(pattern[0] == typed[a]);
        assert(pattern.last() == typed[b - 1]);
    }
    assert(pattern == typed.subrange(a, b));
}

/// The fuzzy search box below the file view.
pub struct FuzzyInput {
    pub input: String,
    pub rect: Area,
}

impl FuzzyInput {
    pub fn get_rect(&self) -> (r: Area)
        ensures
            r == self.rect,
    {
        self.rect
    }

    /// Empties the box.
    pub fn clear(&mut self)
        ensures
            final(self).input@ == Seq::<char>::empty(),
            final(self).rect == old(self).rect,
    {
        string_clear(&mut self.input);
    }

    /// Types `c` at the end of the box.
    pub fn push(&mut self, c: char)
        ensures
            final(self).input@ == old(self).input@.push(c),
            final(self).rect == old(self).rect,
    {
        string_push(&mut self.input, c);
    }

    /// Deletes the last char of the box, if there is one.
    pub fn pop(&mut self)
        ensures
            final(self).input@ == if old(self).input@.len() == 0 {
                old(self).input@
            } else {
                old(self).input@.drop_last()
            },
            final(self).rect == old(self).rect,
    {
        string_pop(&mut self.input);
    }

    /// What the box holds.
    pub fn get_inp(&self) -> (s: &str)
        ensures
            s@ == self.input@,
    {
        self.input.as_str()
    }

    /// The search pattern that the box holds, and whether it is to be
    /// searched exactly.
    pub fn get_inp_exact(&self) -> (r: (&str, bool))
        ensures
            is_search_of(self.input@, r.0@, r.1),
    {
        let s = self.input.as_str();
        let n = s.unicode_len();
        if n > 0 {
            let first_char = s.get_char(0);
            if first_char == '/' {
                let rest = s.substring_char(1, n);
                assert(rest@ =~= self.input@.drop_first());
                (trim_str(rest), false)
            } else {
                (trim_str(s), true)
            }
        } else {
            (trim_str(s), true)
        }
    }
}

/// Typing a char into a box and deleting it again leaves the box as it was.
pub proof fn lemma_push_pop(s: Seq<char>, c: char)
    ensures
        s.push(c).len() > 0,
        s.push(c).drop_last() == s,
        s.push(c).last() == c,
{
    assert(s.push(c).drop_last() =~= s);
}

/// The prompt box below the chat view.
pub struct ChatInput {
    pub input: String,
    pub rect: Area,
}

impl ChatInput {
    pub fn get_rect(&self) -> (r: Area)
        ensures
            r == self.rect,
    {
        self.rect
    }

    /// Empties the box.
    pub fn clear(&mut self)
        ensures
            final(self).input@ == Seq::<char>::empty(),
            final(self).rect == old(self).rect,
    {
        string_clear(&mut self.input);
    }

    /// Types `c` at the end of the box.
    pub fn push(&mut self, c: char)
        ensures
            final(self).input@ == old(self).input@.push(c),
            final(self).rect == old(self).rect,
    {
        string_push(&mut self.input, c);
    }

    /// Deletes the last char of the box, if there is one.
    pub fn pop(&mut self)
        ensures
            final(self).input@ == if old(self).input@.len() == 0 {
                old(self).input@
            } else {
                old(self).input@.drop_last()
            },
            final(self).rect == old(self).rect,
    {
        string_pop(&mut self.input);
    }

    /// What the box holds.
    pub fn get_inp(&self) -> (s: &str)
        ensures
            s@ == self.input@,
    {
        self.input.as_str()
    }
}

} // verus!
