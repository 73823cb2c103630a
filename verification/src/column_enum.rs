//! Enumerations of columns, and the rule that gives a column its name: the
//! name of the variant in snake case.

use vstd::prelude::*;
use crate::text::{chars_of, push_char};

verus! {

/// Whether `c` is one of the letters `A` to `Z`.
pub open spec fn is_upper(c: char) -> bool {
    'A' <= c <= 'Z'
}

/// The lower-case form of an ASCII upper-case letter; any other character
/// stands for itself.
pub open spec fn lower(c: char) -> char {
    if is_upper(c) {
        ((c as u8) + 32) as u8 as char
    } else {
        c
    }
}

/// The snake-case form of a camel-case name: the first character in lower
/// case, and every later upper-case letter replaced by `_` and its
/// lower-case form.
pub open spec fn snake_case_of(s: Seq<char>) -> Seq<char>
    decreases s.len(),
{
    if s.len() == 0 {
        Seq::empty()
    } else if s.len() == 1 {
        seq![lower(s[0])]
    } else if is_upper(s.last()) {
        snake_case_of(s.drop_last()).push('_').push(lower(s.last()))
    } else {
        snake_case_of(s.drop_last()).push(s.last())
    }
}

/// The lower-case form of a character is no upper-case letter.
pub proof fn lemma_lower_is_not_upper(c: char)
    ensures
        !is_upper(lower(c)),
{
    if is_upper(c) {
        let code = c as u8;
        assert(65 <= code <= 90);
        assert(lower(c) as u32 == code + 32);
    }
}

/// A name in snake case holds no upper-case letter.
pub proof fn law_snake_case_has_no_capitals(s: Seq<char>)
    ensures
        forall|i: int|
            0 <= i < snake_case_of(s).len() ==> !is_upper(#[trigger] snake_case_of(s)[i]),
    decreases s.len(),
{
    if s.len() == 1 {
        lemma_lower_is_not_upper(s[0]);
    } else if s.len() > 1 {
        law_snake_case_has_no_capitals(s.drop_last());
        lemma_lower_is_not_upper(s.last());
        let head = snake_case_of(s.drop_last());
        assert forall|i: int| 0 <= i < snake_case_of(s).len() implies !is_upper(
            #[trigger] snake_case_of(s)[i],
        ) by {
            if i < head.len() {
                assert(snake_case_of(s)[i] == head[i]);
            }
        }
    }
}

/// The lower-case form of `c`.
pub fn to_lower(c: char) -> (r: char)
    ensures
        r == lower(c),
{
    if 'A' <= c && c <= 'Z' {
        let b: u8 = c as u8;
        (b + 32) as char
    } else {
        c
    }
}

/// Converts a camel-case name to snake case.
pub fn snake_case(s: &str) -> (result: String)
    ensures
        result@ == snake_case_of(s@),
{
    let chars = chars_of(s);
    let mut result = String::new();
    let mut i: usize = 0;
    while i < chars.len()
        invariant
            i <= chars.len(),
            chars@ == s@,
            result@ == snake_case_of(chars@.take(i as int)),
        decreases chars.len() - i,
    {
        let c = chars[i];
        proof {
            assert(chars@.take(i + 1).drop_last() == chars@.take(i as int));
            assert(chars@.take(i + 1).last() == c);
        }
        if i == 0 {
            push_char(&mut result, to_lower(c));
        } else if 'A' <= c && c <= 'Z' {
            push_char(&mut result, '_');
            push_char(&mut result, to_lower(c));
        } else {
            push_char(&mut result, c);
        }
        i += 1;
    }
    proof {
        assert(chars@.take(chars.len() as int) == chars@);
    }
    result
}

/// An enumeration of the columns of a table or view.
pub trait ColumnEnum {
    /// The name of the variant, as it is written.
    spec fn variant(&self) -> Seq<char>;

    /// The name of the column: the name of the variant in snake case.
    fn name(&self) -> (name: &'static str)
        ensures
            name@ == snake_case_of(self.variant()),
    ;
}

/// Whether `word` is an upper-case letter followed by characters that are
/// no upper-case letters.
pub open spec fn is_word(word: Seq<char>) -> bool {
    &&& word.len() > 0
    &&& is_upper(word[0])
    &&& forall|i: int| 1 <= i < word.len() ==> !is_upper(#[trigger] word[i])
}

/// The snake-case form of a name with one more character.
pub proof fn lemma_snake_case_push(name: Seq<char>, c: char)
    requires
        name.len() > 0,
    ensures
        snake_case_of(name.push(c)) == if is_upper(c) {
            snake_case_of(name).push('_').push(lower(c))
        } else {
            snake_case_of(name).push(c)
        },
{
    assert(name.push(c).drop_last() =~= name);
}

/// The snake-case form of a name with one more word: the word follows in
/// lower case, after a `_` where it is not the first.
pub proof fn lemma_snake_case_word(name: Seq<char>, word: Seq<char>)
    requires
        is_word(word),
    ensures
        snake_case_of(name + word) == if name.len() == 0 {
            seq![lower(word[0])] + word.skip(1)
        } else {
            snake_case_of(name) + seq!['_', lower(word[0])] + word.skip(1)
        },
    decreases word.len(),
{
    if word.len() == 1 {
        assert(name + word =~= name.push(word[0]));
        assert(word.skip(1) =~= Seq::<char>::empty());
        if name.len() == 0 {
            assert(snake_case_of(name + word) =~= seq![lower(word[0])] + word.skip(1));
        } else {
            lemma_snake_case_push(name, word[0]);
            assert(snake_case_of(name + word) =~= snake_case_of(name) + seq![
                '_',
                lower(word[0]),
            ] + word.skip(1));
        }
    } else {
        let head = word.drop_last();
        assert(is_word(head));
        lemma_snake_case_word(name, head);
        assert(name + word =~= (name + head).push(word.last()));
        lemma_snake_case_push(name + head, word.last());
        assert(word.skip(1) =~= head.skip(1).push(word.last()));
        if name.len() == 0 {
            assert(snake_case_of(name + word) =~= seq![lower(word[0])] + word.skip(1));
        } else {
            assert(snake_case_of(name + word) =~= snake_case_of(name) + seq![
                '_',
                lower(word[0]),
            ] + word.skip(1));
        }
    }
}

} // verus!
